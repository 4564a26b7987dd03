use vstd::prelude::*;

verus! {

/// The physical routing endpoints that a mixer channel is bound to.
#[derive(Debug, Clone, PartialEq, Eq)]
pub enum PipewirePorts {
    Unbound,
    Mono(String),
    Stereo(String, String),
}

/// Mathematical value of a port binding.
pub enum PortsView {
    Unbound,
    Mono(Seq<char>),
    Stereo(Seq<char>, Seq<char>),
}

impl View for PipewirePorts {
    type V = PortsView;

    open spec fn view(&self) -> PortsView {
        match self {
            PipewirePorts::Unbound => PortsView::Unbound,
            PipewirePorts::Mono(p) => PortsView::Mono(p@),
            PipewirePorts::Stereo(l, r) => PortsView::Stereo(l@, r@),
        }
    }
}

impl PipewirePorts {
    /// A copy of the binding with the same paths.
    pub fn duplicate(&self) -> (r: PipewirePorts)
        ensures
            r@ == self@,
    {
        match self {
            PipewirePorts::Unbound => PipewirePorts::Unbound,
            PipewirePorts::Mono(p) => PipewirePorts::Mono(p.clone()),
            PipewirePorts::Stereo(l, r) => PipewirePorts::Stereo(l.clone(), r.clone()),
        }
    }
}

#[derive(Debug, Clone, Copy, PartialEq, Eq, Structural)]
pub enum MixerOutputType {
    Cue,
    Main,
}

/// A mixer input channel.
#[derive(Debug, Clone, PartialEq, Eq)]
pub struct MixerInput {
    pub name: String,
    pub pipewire_ports: PipewirePorts,
    pub id: u32,
    pub group_channel_strip_name: String,
}

pub struct MixerInputView {
    pub name: Seq<char>,
    pub ports: PortsView,
    pub id: u32,
    pub group: Seq<char>,
}

impl View for MixerInput {
    type V = MixerInputView;

    open spec fn view(&self) -> MixerInputView {
        MixerInputView {
            name: self.name@,
            ports: self.pipewire_ports@,
            id: self.id,
            group: self.group_channel_strip_name@,
        }
    }
}

impl MixerInput {
    pub fn new(name: &str, pipewire_ports: PipewirePorts, id: u32, group_channel_strip_name: &str) -> (r: Self)
        ensures
            r@ == (MixerInputView {
                name: name@,
                ports: pipewire_ports@,
                id,
                group: group_channel_strip_name@,
            }),
    {
        MixerInput {
            id,
            name: name.to_owned(),
            pipewire_ports,
            group_channel_strip_name: group_channel_strip_name.to_owned(),
        }
    }

    /// A copy of the input with equal fields.
    pub fn duplicate(&self) -> (r: MixerInput)
        ensures
            r@ == self@,
    {
        MixerInput {
            name: self.name.clone(),
            pipewire_ports: self.pipewire_ports.duplicate(),
            id: self.id,
            group_channel_strip_name: self.group_channel_strip_name.clone(),
        }
    }
}

/// A mixer output channel.
#[derive(Debug, Clone, PartialEq, Eq)]
pub struct MixerOutput {
    pub name: String,
    pub pipewire_ports: PipewirePorts,
    pub id: u32,
    pub output_type: MixerOutputType,
}

pub struct MixerOutputView {
    pub name: Seq<char>,
    pub ports: PortsView,
    pub id: u32,
    pub output_type: MixerOutputType,
}

impl View for MixerOutput {
    type V = MixerOutputView;

    open spec fn view(&self) -> MixerOutputView {
        MixerOutputView {
            name: self.name@,
            ports: self.pipewire_ports@,
            id: self.id,
            output_type: self.output_type,
        }
    }
}

impl MixerOutput {
    pub fn new(name: &str, pipewire_ports: PipewirePorts, id: u32, output_type: MixerOutputType) -> (r: Self)
        ensures
            r@ == (MixerOutputView { name: name@, ports: pipewire_ports@, id, output_type }),
    {
        MixerOutput { id, name: name.to_owned(), pipewire_ports, output_type }
    }

    /// A copy of the output with equal fields.
    pub fn duplicate(&self) -> (r: MixerOutput)
        ensures
            r@ == self@,
    {
        MixerOutput {
            name: self.name.clone(),
            pipewire_ports: self.pipewire_ports.duplicate(),
            id: self.id,
            output_type: self.output_type,
        }
    }
}

#[derive(Debug, Clone, Copy, PartialEq, Eq, Structural)]
pub enum PluginType {
    Lv2,
}

/// A plugin instance hosted by the external plugin host.
#[derive(Debug, Clone, PartialEq, Eq)]
pub struct Plugin {
    pub id: u32,
    pub mod_host_id: u32,
    pub name: String,
    pub plugin_uri: String,
    pub plugin_type: PluginType,
}

pub struct PluginView {
    pub id: u32,
    pub mod_host_id: u32,
    pub name: Seq<char>,
    pub uri: Seq<char>,
    pub plugin_type: PluginType,
}

impl View for Plugin {
    type V = PluginView;

    open spec fn view(&self) -> PluginView {
        PluginView {
            id: self.id,
            mod_host_id: self.mod_host_id,
            name: self.name@,
            uri: self.plugin_uri@,
            plugin_type: self.plugin_type,
        }
    }
}

/// The plugin slots of a channel strip, by plugin id.
#[derive(Debug, Clone, Copy, PartialEq, Eq, Structural)]
pub enum ChannelStripType {
    Basic {
        saturator_plugin_id: u32,
        compressor_plugin_id: u32,
        equalizer_plugin_id: u32,
        gain_plugin_id: u32,
    },
    CrossFaded {
        cross_fader_plugin_id: u32,
        saturator_plugin_id: u32,
        compressor_plugin_id: u32,
        equalizer_plugin_id: u32,
        gain_plugin_id: u32,
    },
}

/// A named chain of processing plugins.
#[derive(Debug, Clone, PartialEq, Eq)]
pub struct ChannelStrip {
    pub id: u32,
    pub name: String,
    pub channel_strip_type: ChannelStripType,
}

pub struct ChannelStripView {
    pub id: u32,
    pub name: Seq<char>,
    pub strip_type: ChannelStripType,
}

impl View for ChannelStrip {
    type V = ChannelStripView;

    open spec fn view(&self) -> ChannelStripView {
        ChannelStripView { id: self.id, name: self.name@, strip_type: self.channel_strip_type }
    }
}

/// Two channel strips joined by a cross-fader, feeding an output.
#[derive(Debug, Clone, PartialEq, Eq)]
pub struct OutputStage {
    pub id: u32,
    pub name: String,
    pub left_channel_strip_id: u32,
    pub right_channel_strip_id: u32,
    pub cross_fader_plugin_id: u32,
}

pub struct OutputStageView {
    pub id: u32,
    pub name: Seq<char>,
    pub left_strip: u32,
    pub right_strip: u32,
    pub cross_fader: u32,
}

impl View for OutputStage {
    type V = OutputStageView;

    open spec fn view(&self) -> OutputStageView {
        OutputStageView {
            id: self.id,
            name: self.name@,
            left_strip: self.left_channel_strip_id,
            right_strip: self.right_channel_strip_id,
            cross_fader: self.cross_fader_plugin_id,
        }
    }
}

/// A looper slot.
#[derive(Debug, Clone, PartialEq, Eq)]
pub struct Looper {
    pub id: u32,
    pub name: String,
    pub loop_number: u32,
}

pub struct LooperView {
    pub id: u32,
    pub name: Seq<char>,
    pub loop_number: u32,
}

impl View for Looper {
    type V = LooperView;

    open spec fn view(&self) -> LooperView {
        LooperView { id: self.id, name: self.name@, loop_number: self.loop_number }
    }
}

} // verus!
