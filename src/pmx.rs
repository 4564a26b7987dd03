use vstd::prelude::*;

use crate::entities::{
    ChannelStrip, ChannelStripType, ChannelStripView, Looper, LooperView, MixerInput,
    MixerInputView, MixerOutput, MixerOutputType, MixerOutputView, OutputStage, OutputStageView,
    PipewirePorts, Plugin, PluginType, PluginView, PortsView,
};

verus! {

/// Wire code of an input binding that has no port.
pub const INPUT_TYPE_NONE: i32 = 0;

/// Wire code of a mono input binding.
pub const INPUT_TYPE_MONO: i32 = 1;

/// Wire code of a stereo input binding.
pub const INPUT_TYPE_STEREO: i32 = 2;

/// Shape of an input binding as clients see it.
#[derive(Debug, Clone, Copy, PartialEq, Eq, Structural)]
pub enum PmxInputType {
    NoInput,
    MonoInput,
    StereoInput,
}

pub open spec fn input_type_of_code(code: i32) -> Option<PmxInputType> {
    if code == INPUT_TYPE_NONE {
        Some(PmxInputType::NoInput)
    } else if code == INPUT_TYPE_MONO {
        Some(PmxInputType::MonoInput)
    } else if code == INPUT_TYPE_STEREO {
        Some(PmxInputType::StereoInput)
    } else {
        None
    }
}

impl PmxInputType {
    /// Decodes a wire code; `None` for a code that names no input type.
    pub fn from_code(code: i32) -> (r: Option<PmxInputType>)
        ensures
            r == input_type_of_code(code),
    {
        if code == INPUT_TYPE_NONE {
            Some(PmxInputType::NoInput)
        } else if code == INPUT_TYPE_MONO {
            Some(PmxInputType::MonoInput)
        } else if code == INPUT_TYPE_STEREO {
            Some(PmxInputType::StereoInput)
        } else {
            None
        }
    }

    /// The wire code of this input type.
    pub fn code(self) -> (r: i32)
        ensures
            input_type_of_code(r) == Some(self),
    {
        match self {
            PmxInputType::NoInput => INPUT_TYPE_NONE,
            PmxInputType::MonoInput => INPUT_TYPE_MONO,
            PmxInputType::StereoInput => INPUT_TYPE_STEREO,
        }
    }
}

#[derive(Debug, Clone, Copy, PartialEq, Eq, Structural)]
pub enum PmxOutputType {
    Cue,
    Main,
}

#[derive(Debug, Clone, Copy, PartialEq, Eq, Structural)]
pub enum PmxPluginType {
    Lv2,
}

#[derive(Debug, Clone, Copy, PartialEq, Eq, Structural)]
pub enum PmxChannelStripType {
    Basic,
    CrossFaded,
}

pub open spec fn opt_view(o: Option<String>) -> Option<Seq<char>> {
    match o {
        Some(s) => Some(s@),
        None => None,
    }
}

/// The left (or only) path of a binding.
pub open spec fn left_path(p: PortsView) -> Option<Seq<char>> {
    match p {
        PortsView::Unbound => None,
        PortsView::Mono(l) => Some(l),
        PortsView::Stereo(l, _) => Some(l),
    }
}

/// The right path of a stereo binding.
pub open spec fn right_path(p: PortsView) -> Option<Seq<char>> {
    match p {
        PortsView::Stereo(_, r) => Some(r),
        _ => None,
    }
}

/// An input as clients see it.
#[derive(Debug, Clone, PartialEq, Eq)]
pub struct PmxInput {
    pub id: u32,
    pub name: String,
    pub input_type: PmxInputType,
    pub left_port_path: Option<String>,
    pub right_port_path: Option<String>,
    pub group_channel_strip_name: String,
}

pub struct PmxInputView {
    pub id: u32,
    pub name: Seq<char>,
    pub input_type: PmxInputType,
    pub left: Option<Seq<char>>,
    pub right: Option<Seq<char>>,
    pub group: Seq<char>,
}

impl View for PmxInput {
    type V = PmxInputView;

    open spec fn view(&self) -> PmxInputView {
        PmxInputView {
            id: self.id,
            name: self.name@,
            input_type: self.input_type,
            left: opt_view(self.left_port_path),
            right: opt_view(self.right_port_path),
            group: self.group_channel_strip_name@,
        }
    }
}

pub open spec fn input_type_of(p: PortsView) -> PmxInputType {
    match p {
        PortsView::Unbound => PmxInputType::NoInput,
        PortsView::Mono(_) => PmxInputType::MonoInput,
        PortsView::Stereo(_, _) => PmxInputType::StereoInput,
    }
}

/// What clients are shown of an input.
pub open spec fn input_record(i: MixerInputView) -> PmxInputView {
    PmxInputView {
        id: i.id,
        name: i.name,
        input_type: input_type_of(i.ports),
        left: left_path(i.ports),
        right: right_path(i.ports),
        group: i.group,
    }
}

fn left_of(p: &PipewirePorts) -> (r: Option<String>)
    ensures
        opt_view(r) == left_path(p@),
{
    match p {
        PipewirePorts::Unbound => None,
        PipewirePorts::Mono(l) => Some(l.clone()),
        PipewirePorts::Stereo(l, _) => Some(l.clone()),
    }
}

fn right_of(p: &PipewirePorts) -> (r: Option<String>)
    ensures
        opt_view(r) == right_path(p@),
{
    match p {
        PipewirePorts::Stereo(_, r) => Some(r.clone()),
        _ => None,
    }
}

impl PmxInput {
    pub fn from(input: &MixerInput) -> (r: Self)
        ensures
            r@ == input_record(input@),
    {
        PmxInput {
            id: input.id,
            name: input.name.clone(),
            input_type: match input.pipewire_ports {
                PipewirePorts::Unbound => PmxInputType::NoInput,
                PipewirePorts::Mono(_) => PmxInputType::MonoInput,
                PipewirePorts::Stereo(_, _) => PmxInputType::StereoInput,
            },
            left_port_path: left_of(&input.pipewire_ports),
            right_port_path: right_of(&input.pipewire_ports),
            group_channel_strip_name: input.group_channel_strip_name.clone(),
        }
    }
}

/// An output as clients see it.
#[derive(Debug, Clone, PartialEq, Eq)]
pub struct PmxOutput {
    pub id: u32,
    pub name: String,
    pub output_type: PmxOutputType,
    pub left_port_path: Option<String>,
    pub right_port_path: Option<String>,
}

pub struct PmxOutputView {
    pub id: u32,
    pub name: Seq<char>,
    pub output_type: PmxOutputType,
    pub left: Option<Seq<char>>,
    pub right: Option<Seq<char>>,
}

impl View for PmxOutput {
    type V = PmxOutputView;

    open spec fn view(&self) -> PmxOutputView {
        PmxOutputView {
            id: self.id,
            name: self.name@,
            output_type: self.output_type,
            left: opt_view(self.left_port_path),
            right: opt_view(self.right_port_path),
        }
    }
}

pub open spec fn output_type_record(t: MixerOutputType) -> PmxOutputType {
    match t {
        MixerOutputType::Cue => PmxOutputType::Cue,
        MixerOutputType::Main => PmxOutputType::Main,
    }
}

/// The right path shown for an output: a mono output shows its one path on both sides.
pub open spec fn output_right_path(p: PortsView) -> Option<Seq<char>> {
    match p {
        PortsView::Unbound => None,
        PortsView::Mono(l) => Some(l),
        PortsView::Stereo(_, r) => Some(r),
    }
}

/// What clients are shown of an output.
pub open spec fn output_record(o: MixerOutputView) -> PmxOutputView {
    PmxOutputView {
        id: o.id,
        name: o.name,
        output_type: output_type_record(o.output_type),
        left: left_path(o.ports),
        right: output_right_path(o.ports),
    }
}

impl PmxOutput {
    pub fn from(output: &MixerOutput) -> (r: Self)
        ensures
            r@ == output_record(output@),
    {
        PmxOutput {
            id: output.id,
            name: output.name.clone(),
            output_type: match output.output_type {
                MixerOutputType::Cue => PmxOutputType::Cue,
                MixerOutputType::Main => PmxOutputType::Main,
            },
            left_port_path: left_of(&output.pipewire_ports),
            right_port_path: match &output.pipewire_ports {
                PipewirePorts::Unbound => None,
                PipewirePorts::Mono(l) => Some(l.clone()),
                PipewirePorts::Stereo(_, r) => Some(r.clone()),
            },
        }
    }
}

/// A plugin as clients see it and register it.
#[derive(Debug, Clone, PartialEq, Eq)]
pub struct PmxPlugin {
    pub id: u32,
    pub mod_host_id: u32,
    pub name: String,
    pub plugin_uri: String,
    pub plugin_type: PmxPluginType,
}

pub struct PmxPluginView {
    pub id: u32,
    pub mod_host_id: u32,
    pub name: Seq<char>,
    pub uri: Seq<char>,
    pub plugin_type: PmxPluginType,
}

impl View for PmxPlugin {
    type V = PmxPluginView;

    open spec fn view(&self) -> PmxPluginView {
        PmxPluginView {
            id: self.id,
            mod_host_id: self.mod_host_id,
            name: self.name@,
            uri: self.plugin_uri@,
            plugin_type: self.plugin_type,
        }
    }
}

/// What clients are shown of a plugin.
pub open spec fn plugin_record(p: PluginView) -> PmxPluginView {
    PmxPluginView {
        id: p.id,
        mod_host_id: p.mod_host_id,
        name: p.name,
        uri: p.uri,
        plugin_type: PmxPluginType::Lv2,
    }
}

impl PmxPlugin {
    pub fn from(plugin: &Plugin) -> (r: Self)
        ensures
            r@ == plugin_record(plugin@),
    {
        PmxPlugin {
            id: plugin.id,
            mod_host_id: plugin.mod_host_id,
            name: plugin.name.clone(),
            plugin_uri: plugin.plugin_uri.clone(),
            plugin_type: match plugin.plugin_type {
                PluginType::Lv2 => PmxPluginType::Lv2,
            },
        }
    }
}

/// A channel strip as clients see it and register it.
#[derive(Debug, Clone, PartialEq, Eq)]
pub struct PmxChannelStrip {
    pub id: u32,
    pub name: String,
    pub channel_strip_type: PmxChannelStripType,
    pub cross_fader_plugin_id: Option<u32>,
    pub saturator_plugin_id: u32,
    pub compressor_plugin_id: u32,
    pub equalizer_plugin_id: u32,
    pub gain_plugin_id: u32,
}

pub struct PmxChannelStripView {
    pub id: u32,
    pub name: Seq<char>,
    pub strip_type: PmxChannelStripType,
    pub cross_fader: Option<u32>,
    pub saturator: u32,
    pub compressor: u32,
    pub equalizer: u32,
    pub gain: u32,
}

impl View for PmxChannelStrip {
    type V = PmxChannelStripView;

    open spec fn view(&self) -> PmxChannelStripView {
        PmxChannelStripView {
            id: self.id,
            name: self.name@,
            strip_type: self.channel_strip_type,
            cross_fader: self.cross_fader_plugin_id,
            saturator: self.saturator_plugin_id,
            compressor: self.compressor_plugin_id,
            equalizer: self.equalizer_plugin_id,
            gain: self.gain_plugin_id,
        }
    }
}

/// What clients are shown of a channel strip.
pub open spec fn strip_record(c: ChannelStripView) -> PmxChannelStripView {
    match c.strip_type {
        ChannelStripType::Basic {
            saturator_plugin_id,
            compressor_plugin_id,
            equalizer_plugin_id,
            gain_plugin_id,
        } => PmxChannelStripView {
            id: c.id,
            name: c.name,
            strip_type: PmxChannelStripType::Basic,
            cross_fader: None,
            saturator: saturator_plugin_id,
            compressor: compressor_plugin_id,
            equalizer: equalizer_plugin_id,
            gain: gain_plugin_id,
        },
        ChannelStripType::CrossFaded {
            cross_fader_plugin_id,
            saturator_plugin_id,
            compressor_plugin_id,
            equalizer_plugin_id,
            gain_plugin_id,
        } => PmxChannelStripView {
            id: c.id,
            name: c.name,
            strip_type: PmxChannelStripType::CrossFaded,
            cross_fader: Some(cross_fader_plugin_id),
            saturator: saturator_plugin_id,
            compressor: compressor_plugin_id,
            equalizer: equalizer_plugin_id,
            gain: gain_plugin_id,
        },
    }
}

/// A registration record is complete when a cross-faded strip names its cross-fader.
pub open spec fn strip_request_complete(c: PmxChannelStripView) -> bool {
    c.strip_type == PmxChannelStripType::CrossFaded ==> c.cross_fader is Some
}

/// The plugin slots that a complete registration record describes.
pub open spec fn strip_type_of_request(c: PmxChannelStripView) -> ChannelStripType {
    match c.strip_type {
        PmxChannelStripType::Basic => ChannelStripType::Basic {
            saturator_plugin_id: c.saturator,
            compressor_plugin_id: c.compressor,
            equalizer_plugin_id: c.equalizer,
            gain_plugin_id: c.gain,
        },
        PmxChannelStripType::CrossFaded => ChannelStripType::CrossFaded {
            cross_fader_plugin_id: c.cross_fader.unwrap(),
            saturator_plugin_id: c.saturator,
            compressor_plugin_id: c.compressor,
            equalizer_plugin_id: c.equalizer,
            gain_plugin_id: c.gain,
        },
    }
}

impl PmxChannelStrip {
    pub fn from(strip: &ChannelStrip) -> (r: Self)
        ensures
            r@ == strip_record(strip@),
    {
        match strip.channel_strip_type {
            ChannelStripType::Basic {
                saturator_plugin_id,
                compressor_plugin_id,
                equalizer_plugin_id,
                gain_plugin_id,
            } => PmxChannelStrip {
                id: strip.id,
                name: strip.name.clone(),
                channel_strip_type: PmxChannelStripType::Basic,
                cross_fader_plugin_id: None,
                saturator_plugin_id,
                compressor_plugin_id,
                equalizer_plugin_id,
                gain_plugin_id,
            },
            ChannelStripType::CrossFaded {
                cross_fader_plugin_id,
                saturator_plugin_id,
                compressor_plugin_id,
                equalizer_plugin_id,
                gain_plugin_id,
            } => PmxChannelStrip {
                id: strip.id,
                name: strip.name.clone(),
                channel_strip_type: PmxChannelStripType::CrossFaded,
                cross_fader_plugin_id: Some(cross_fader_plugin_id),
                saturator_plugin_id,
                compressor_plugin_id,
                equalizer_plugin_id,
                gain_plugin_id,
            },
        }
    }
}

/// A looper as clients see it and register it.
#[derive(Debug, Clone, PartialEq, Eq)]
pub struct PmxLooper {
    pub id: u32,
    pub name: String,
    pub loop_number: u32,
}

impl View for PmxLooper {
    type V = LooperView;

    open spec fn view(&self) -> LooperView {
        LooperView { id: self.id, name: self.name@, loop_number: self.loop_number }
    }
}

impl PmxLooper {
    pub fn from(looper: &Looper) -> (r: Self)
        ensures
            r@ == looper@,
    {
        PmxLooper { id: looper.id, name: looper.name.clone(), loop_number: looper.loop_number }
    }
}

/// An output stage as clients see it and register it.
#[derive(Debug, Clone, PartialEq, Eq)]
pub struct PmxOutputStage {
    pub id: u32,
    pub name: String,
    pub left_channel_strip_id: u32,
    pub right_channel_strip_id: u32,
    pub cross_fader_plugin_id: u32,
}

impl View for PmxOutputStage {
    type V = OutputStageView;

    open spec fn view(&self) -> OutputStageView {
        OutputStageView {
            id: self.id,
            name: self.name@,
            left_strip: self.left_channel_strip_id,
            right_strip: self.right_channel_strip_id,
            cross_fader: self.cross_fader_plugin_id,
        }
    }
}

impl PmxOutputStage {
    pub fn from(stage: &OutputStage) -> (r: Self)
        ensures
            r@ == stage@,
    {
        PmxOutputStage {
            id: stage.id,
            name: stage.name.clone(),
            left_channel_strip_id: stage.left_channel_strip_id,
            right_channel_strip_id: stage.right_channel_strip_id,
            cross_fader_plugin_id: stage.cross_fader_plugin_id,
        }
    }
}

} // verus!
