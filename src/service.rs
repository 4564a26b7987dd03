use vstd::prelude::*;

use tokio::sync::mpsc::UnboundedSender;

use crate::entities::{
    ChannelStrip, ChannelStripView, Looper, LooperView, MixerInput, MixerInputView, MixerOutput, MixerOutputView, OutputStage, OutputStageView,
    PipewirePorts, Plugin, PluginType, PluginView, PortsView,
};
use crate::laws::{lemma_rebind_input_then_get, lemma_rebind_output_then_get, lemma_rename_input_then_get};
use crate::pmx::{
    input_record, input_type_of_code, opt_view, output_record, plugin_record, strip_record,
    strip_request_complete, strip_type_of_request, PmxChannelStrip, PmxChannelStripType,
    PmxInput, PmxInputType, PmxLooper, PmxOutput, PmxOutputStage, PmxPlugin,
};
use crate::registry::{
    inputs_view, outputs_view, Registry,
    RegistryError, RegistryView,
};

verus! {

/// The binding that an input request asks for: `None` when the type code is unknown
/// or a path that the type needs is missing. A mono request uses the left path only.
pub open spec fn requested_input_ports(
    code: i32,
    left: Option<Seq<char>>,
    right: Option<Seq<char>>,
) -> Option<PortsView> {
    match input_type_of_code(code) {
        None => None,
        Some(PmxInputType::NoInput) => Some(PortsView::Unbound),
        Some(PmxInputType::MonoInput) => match left {
            Some(l) => Some(PortsView::Mono(l)),
            None => None,
        },
        Some(PmxInputType::StereoInput) => match (left, right) {
            (Some(l), Some(r)) => Some(PortsView::Stereo(l, r)),
            _ => None,
        },
    }
}

/// The binding that an output request asks for: one path given makes a mono
/// binding, two a stereo one, none clears it.
pub open spec fn requested_output_ports(left: Option<Seq<char>>, right: Option<Seq<char>>) -> PortsView {
    match (left, right) {
        (None, None) => PortsView::Unbound,
        (None, Some(r)) => PortsView::Mono(r),
        (Some(l), None) => PortsView::Mono(l),
        (Some(l), Some(r)) => PortsView::Stereo(l, r),
    }
}

/// Builds the binding that an input request asks for, or refuses an inconsistent one.
pub fn input_ports_from_request(
    input_type: i32,
    left_port_path: Option<String>,
    right_port_path: Option<String>,
) -> (r: Result<PipewirePorts, RegistryError>)
    ensures
        match requested_input_ports(input_type, opt_view(left_port_path), opt_view(right_port_path)) {
            None => r == Err::<PipewirePorts, RegistryError>(RegistryError::InvalidArgument),
            Some(p) => r is Ok && r.unwrap()@ == p,
        },
{
    match PmxInputType::from_code(input_type) {
        None => Err(RegistryError::InvalidArgument),
        Some(PmxInputType::NoInput) => Ok(PipewirePorts::Unbound),
        Some(PmxInputType::MonoInput) => match left_port_path {
            Some(l) => Ok(PipewirePorts::Mono(l)),
            None => Err(RegistryError::InvalidArgument),
        },
        Some(PmxInputType::StereoInput) => match (left_port_path, right_port_path) {
            (Some(l), Some(r)) => Ok(PipewirePorts::Stereo(l, r)),
            _ => Err(RegistryError::InvalidArgument),
        },
    }
}

/// Builds the binding that an output request asks for.
pub fn output_ports_from_request(
    left_port_path: Option<String>,
    right_port_path: Option<String>,
) -> (r: PipewirePorts)
    ensures
        r@ == requested_output_ports(opt_view(left_port_path), opt_view(right_port_path)),
{
    match (left_port_path, right_port_path) {
        (None, None) => PipewirePorts::Unbound,
        (None, Some(r)) => PipewirePorts::Mono(r),
        (Some(l), None) => PipewirePorts::Mono(l),
        (Some(l), Some(r)) => PipewirePorts::Stereo(l, r),
    }
}

pub open spec fn digit_char(d: nat) -> char {
    if d == 0 { '0' }
    else if d == 1 { '1' }
    else if d == 2 { '2' }
    else if d == 3 { '3' }
    else if d == 4 { '4' }
    else if d == 5 { '5' }
    else if d == 6 { '6' }
    else if d == 7 { '7' }
    else if d == 8 { '8' }
    else { '9' }
}

/// Decimal digits of `n`, most significant first, without leading zeros.
pub open spec fn decimal(n: nat) -> Seq<char>
    decreases n,
{
    if n < 10 {
        seq![digit_char(n)]
    } else {
        decimal(n / 10).push(digit_char(n % 10))
    }
}

/// The one-character string of a decimal digit.
fn digit_str(d: u32) -> (r: &'static str)
    requires
        d < 10,
    ensures
        r@ =~= seq![digit_char(d as nat)],
{
    if d == 0 {
        proof {
            reveal_strlit("0");
        }
        "0"
    } else if d == 1 {
        proof {
            reveal_strlit("1");
        }
        "1"
    } else if d == 2 {
        proof {
            reveal_strlit("2");
        }
        "2"
    } else if d == 3 {
        proof {
            reveal_strlit("3");
        }
        "3"
    } else if d == 4 {
        proof {
            reveal_strlit("4");
        }
        "4"
    } else if d == 5 {
        proof {
            reveal_strlit("5");
        }
        "5"
    } else if d == 6 {
        proof {
            reveal_strlit("6");
        }
        "6"
    } else if d == 7 {
        proof {
            reveal_strlit("7");
        }
        "7"
    } else if d == 8 {
        proof {
            reveal_strlit("8");
        }
        "8"
    } else {
        proof {
            reveal_strlit("9");
        }
        "9"
    }
}

/// Appends the decimal digits of `n`.
fn append_decimal(s: &mut String, n: u32)
    ensures
        final(s)@ == old(s)@ + decimal(n as nat),
    decreases n,
{
    if n >= 10 {
        append_decimal(s, n / 10);
    }
    let digit = digit_str(n % 10);
    s.append(digit);
    proof {
        if n >= 10 {
            assert(old(s)@ + decimal((n / 10) as nat) + digit@ =~= old(s)@ + decimal(n as nat));
        } else {
            assert(old(s)@ + digit@ =~= old(s)@ + decimal(n as nat));
        }
    }
}

/// The name given to the looper for a loop number.
pub open spec fn looper_name(loop_number: u32) -> Seq<char> {
    seq!['l', 'o', 'o', 'p', '_'] + decimal(loop_number as nat)
}

pub fn looper_name_of(loop_number: u32) -> (r: String)
    ensures
        r@ == looper_name(loop_number),
{
    let mut name = String::from_str("loop_");
    append_decimal(&mut name, loop_number);
    proof {
        reveal_strlit("loop_");
        assert(name@ =~= looper_name(loop_number));
    }
    name
}

/// The registry behind the remote interface: each method decodes one request into
/// registry operations and encodes what clients are shown of the result.
pub struct PmxRegistryService {
    registry: Registry,
}

impl View for PmxRegistryService {
    type V = RegistryView;

    closed spec fn view(&self) -> RegistryView {
        self.registry@
    }
}

impl PmxRegistryService {
    pub fn new(
        inputs: Vec<MixerInput>,
        outputs: Vec<MixerOutput>,
        inputs_sender: UnboundedSender<Vec<MixerInput>>,
        outputs_sender: UnboundedSender<Vec<MixerOutput>>,
    ) -> (r: Self)
        ensures
            r@ == (RegistryView {
                inputs: inputs_view(inputs@),
                outputs: outputs_view(outputs@),
                plugins: Seq::empty(),
                channel_strips: Seq::empty(),
                loopers: Seq::empty(),
                output_stages: Seq::empty(),
                sent_inputs: Seq::empty(),
                sent_outputs: Seq::empty(),
            }),
    {
        PmxRegistryService { registry: Registry::new(inputs, outputs, inputs_sender, outputs_sender) }
    }

    pub fn list_inputs(&self) -> (r: Vec<PmxInput>)
        ensures
            r@.map_values(|x: PmxInput| x@) == self@.inputs.map_values(|x: MixerInputView| input_record(x)),
    {
        let all = self.registry.get_all_inputs();
        let mut r: Vec<PmxInput> = Vec::new();
        let mut i: usize = 0;
        while i < all.len()
            invariant
                i <= all@.len(),
                inputs_view(all@) == self@.inputs,
                r@.map_values(|x: PmxInput| x@) == all@.subrange(0, i as int).map_values(|x: MixerInput| input_record(x@)),
            decreases all.len() - i,
        {
            let ghost before = r@;
            let item = PmxInput::from(&all[i]);
            r.push(item);
            proof {
                assert(all@.subrange(0, i + 1) =~= all@.subrange(0, i as int).push(all@[i as int]));
                assert(r@.map_values(|x: PmxInput| x@) =~= before.map_values(|x: PmxInput| x@).push(item@));
                assert(all@.subrange(0, i + 1).map_values(|x: MixerInput| input_record(x@)) =~= all@.subrange(0, i as int).map_values(|x: MixerInput| input_record(x@)).push(input_record(all@[i as int]@)));
            }
            i = i + 1;
        }
        proof {
            assert(all@.subrange(0, i as int) =~= all@);
            assert(all@.map_values(|x: MixerInput| input_record(x@)) =~= self@.inputs.map_values(|x: MixerInputView| input_record(x)));
        }
        r
    }

    pub fn list_outputs(&self) -> (r: Vec<PmxOutput>)
        ensures
            r@.map_values(|x: PmxOutput| x@) == self@.outputs.map_values(|x: MixerOutputView| output_record(x)),
    {
        let all = self.registry.get_all_outputs();
        let mut r: Vec<PmxOutput> = Vec::new();
        let mut i: usize = 0;
        while i < all.len()
            invariant
                i <= all@.len(),
                outputs_view(all@) == self@.outputs,
                r@.map_values(|x: PmxOutput| x@) == all@.subrange(0, i as int).map_values(|x: MixerOutput| output_record(x@)),
            decreases all.len() - i,
        {
            let ghost before = r@;
            let item = PmxOutput::from(&all[i]);
            r.push(item);
            proof {
                assert(all@.subrange(0, i + 1) =~= all@.subrange(0, i as int).push(all@[i as int]));
                assert(r@.map_values(|x: PmxOutput| x@) =~= before.map_values(|x: PmxOutput| x@).push(item@));
                assert(all@.subrange(0, i + 1).map_values(|x: MixerOutput| output_record(x@)) =~= all@.subrange(0, i as int).map_values(|x: MixerOutput| output_record(x@)).push(output_record(all@[i as int]@)));
            }
            i = i + 1;
        }
        proof {
            assert(all@.subrange(0, i as int) =~= all@);
            assert(all@.map_values(|x: MixerOutput| output_record(x@)) =~= self@.outputs.map_values(|x: MixerOutputView| output_record(x)));
        }
        r
    }

    pub fn list_plugins(&self) -> (r: Vec<PmxPlugin>)
        ensures
            r@.map_values(|x: PmxPlugin| x@) == self@.plugins.map_values(|x: PluginView| plugin_record(x)),
    {
        let all = self.registry.get_all_plugins();
        let mut r: Vec<PmxPlugin> = Vec::new();
        let mut i: usize = 0;
        while i < all.len()
            invariant
                i <= all@.len(),
                all@.map_values(|x: Plugin| x@) == self@.plugins,
                r@.map_values(|x: PmxPlugin| x@) == all@.subrange(0, i as int).map_values(|x: Plugin| plugin_record(x@)),
            decreases all.len() - i,
        {
            let ghost before = r@;
            let item = PmxPlugin::from(&all[i]);
            r.push(item);
            proof {
                assert(all@.subrange(0, i + 1) =~= all@.subrange(0, i as int).push(all@[i as int]));
                assert(r@.map_values(|x: PmxPlugin| x@) =~= before.map_values(|x: PmxPlugin| x@).push(item@));
                assert(all@.subrange(0, i + 1).map_values(|x: Plugin| plugin_record(x@)) =~= all@.subrange(0, i as int).map_values(|x: Plugin| plugin_record(x@)).push(plugin_record(all@[i as int]@)));
            }
            i = i + 1;
        }
        proof {
            assert(all@.subrange(0, i as int) =~= all@);
            assert(all@.map_values(|x: Plugin| plugin_record(x@)) =~= self@.plugins.map_values(|x: PluginView| plugin_record(x)));
        }
        r
    }

    pub fn list_channel_strips(&self) -> (r: Vec<PmxChannelStrip>)
        ensures
            r@.map_values(|x: PmxChannelStrip| x@) == self@.channel_strips.map_values(|x: ChannelStripView| strip_record(x)),
    {
        let all = self.registry.get_all_channel_strips();
        let mut r: Vec<PmxChannelStrip> = Vec::new();
        let mut i: usize = 0;
        while i < all.len()
            invariant
                i <= all@.len(),
                all@.map_values(|x: ChannelStrip| x@) == self@.channel_strips,
                r@.map_values(|x: PmxChannelStrip| x@) == all@.subrange(0, i as int).map_values(|x: ChannelStrip| strip_record(x@)),
            decreases all.len() - i,
        {
            let ghost before = r@;
            let item = PmxChannelStrip::from(&all[i]);
            r.push(item);
            proof {
                assert(all@.subrange(0, i + 1) =~= all@.subrange(0, i as int).push(all@[i as int]));
                assert(r@.map_values(|x: PmxChannelStrip| x@) =~= before.map_values(|x: PmxChannelStrip| x@).push(item@));
                assert(all@.subrange(0, i + 1).map_values(|x: ChannelStrip| strip_record(x@)) =~= all@.subrange(0, i as int).map_values(|x: ChannelStrip| strip_record(x@)).push(strip_record(all@[i as int]@)));
            }
            i = i + 1;
        }
        proof {
            assert(all@.subrange(0, i as int) =~= all@);
            assert(all@.map_values(|x: ChannelStrip| strip_record(x@)) =~= self@.channel_strips.map_values(|x: ChannelStripView| strip_record(x)));
        }
        r
    }

    pub fn list_loopers(&self) -> (r: Vec<PmxLooper>)
        ensures
            r@.map_values(|x: PmxLooper| x@) == self@.loopers.map_values(|x: LooperView| x),
    {
        let all = self.registry.get_all_loopers();
        let mut r: Vec<PmxLooper> = Vec::new();
        let mut i: usize = 0;
        while i < all.len()
            invariant
                i <= all@.len(),
                all@.map_values(|x: Looper| x@) == self@.loopers,
                r@.map_values(|x: PmxLooper| x@) == all@.subrange(0, i as int).map_values(|x: Looper| x@),
            decreases all.len() - i,
        {
            let ghost before = r@;
            let item = PmxLooper::from(&all[i]);
            r.push(item);
            proof {
                assert(all@.subrange(0, i + 1) =~= all@.subrange(0, i as int).push(all@[i as int]));
                assert(r@.map_values(|x: PmxLooper| x@) =~= before.map_values(|x: PmxLooper| x@).push(item@));
                assert(all@.subrange(0, i + 1).map_values(|x: Looper| x@) =~= all@.subrange(0, i as int).map_values(|x: Looper| x@).push(all@[i as int]@));
            }
            i = i + 1;
        }
        proof {
            assert(all@.subrange(0, i as int) =~= all@);
            assert(all@.map_values(|x: Looper| x@) =~= self@.loopers.map_values(|x: LooperView| x));
        }
        r
    }

    pub fn list_output_stages(&self) -> (r: Vec<PmxOutputStage>)
        ensures
            r@.map_values(|x: PmxOutputStage| x@) == self@.output_stages.map_values(|x: OutputStageView| x),
    {
        let all = self.registry.get_all_output_stages();
        let mut r: Vec<PmxOutputStage> = Vec::new();
        let mut i: usize = 0;
        while i < all.len()
            invariant
                i <= all@.len(),
                all@.map_values(|x: OutputStage| x@) == self@.output_stages,
                r@.map_values(|x: PmxOutputStage| x@) == all@.subrange(0, i as int).map_values(|x: OutputStage| x@),
            decreases all.len() - i,
        {
            let ghost before = r@;
            let item = PmxOutputStage::from(&all[i]);
            r.push(item);
            proof {
                assert(all@.subrange(0, i + 1) =~= all@.subrange(0, i as int).push(all@[i as int]));
                assert(r@.map_values(|x: PmxOutputStage| x@) =~= before.map_values(|x: PmxOutputStage| x@).push(item@));
                assert(all@.subrange(0, i + 1).map_values(|x: OutputStage| x@) =~= all@.subrange(0, i as int).map_values(|x: OutputStage| x@).push(all@[i as int]@));
            }
            i = i + 1;
        }
        proof {
            assert(all@.subrange(0, i as int) =~= all@);
            assert(all@.map_values(|x: OutputStage| x@) =~= self@.output_stages.map_values(|x: OutputStageView| x));
        }
        r
    }

    pub fn get_input(&self, id: u32) -> (r: Result<PmxInput, RegistryError>)
        ensures
            match self@.input_by_id(id) {
                None => r == Err::<PmxInput, RegistryError>(RegistryError::NotFound),
                Some(i) => r is Ok && r.unwrap()@ == input_record(i),
            },
    {
        match self.registry.input_by_id(id) {
            Some(input) => Ok(PmxInput::from(input)),
            None => Err(RegistryError::NotFound),
        }
    }

    /// Renames an input and shows it as it now stands.
    pub fn update_input_name(&mut self, id: u32, name: String) -> (r: Result<PmxInput, RegistryError>)
        ensures
            match old(self)@.with_input_name(id, name@) {
                None => r == Err::<PmxInput, RegistryError>(RegistryError::NotFound) && final(self)@ == old(self)@,
                Some(v) => match r {
                    Ok(shown) => final(self)@ == v.inputs_sent()
                        && shown@ == input_record(MixerInputView { name: name@, ..old(self)@.input_by_id(id).unwrap() }),
                    Err(e) => e == RegistryError::WriterGone && final(self)@ == v,
                },
            },
    {
        let ghost before = self@;
        let res = self.registry.update_input_name(id, name.as_str());
        match res {
            Err(e) => Err(e),
            Ok(()) => {
                proof {
                    lemma_rename_input_then_get(before, id, name@);
                }
                Ok(PmxInput::from(self.registry.input_by_id(id).unwrap()))
            },
        }
    }

    /// Rebinds an input as the request asks and shows it as it now stands. An
    /// inconsistent request is refused before anything is looked up.
    pub fn update_input_port_assignments(
        &mut self,
        id: u32,
        input_type: i32,
        left_port_path: Option<String>,
        right_port_path: Option<String>,
    ) -> (r: Result<PmxInput, RegistryError>)
        ensures
            match requested_input_ports(input_type, opt_view(left_port_path), opt_view(right_port_path)) {
                None => r == Err::<PmxInput, RegistryError>(RegistryError::InvalidArgument) && final(self)@ == old(self)@,
                Some(p) => match old(self)@.with_input_ports(id, p) {
                    None => r == Err::<PmxInput, RegistryError>(RegistryError::NotFound) && final(self)@ == old(self)@,
                    Some(v) => match r {
                        Ok(shown) => final(self)@ == v.inputs_sent()
                            && shown@ == input_record(MixerInputView { ports: p, ..old(self)@.input_by_id(id).unwrap() }),
                        Err(e) => e == RegistryError::WriterGone && final(self)@ == v,
                    },
                },
            },
    {
        let ghost before = self@;
        let ports = match input_ports_from_request(input_type, left_port_path, right_port_path) {
            Ok(p) => p,
            Err(e) => {
                return Err(e);
            },
        };
        let ghost p = ports@;
        match self.registry.update_input_ports(id, ports) {
            Err(e) => Err(e),
            Ok(()) => {
                proof {
                    lemma_rebind_input_then_get(before, id, p);
                }
                Ok(PmxInput::from(self.registry.input_by_id(id).unwrap()))
            },
        }
    }

    /// Rebinds an output to the paths given and shows it as it now stands.
    pub fn update_output_port_assignments(
        &mut self,
        id: u32,
        left_port_path: Option<String>,
        right_port_path: Option<String>,
    ) -> (r: Result<PmxOutput, RegistryError>)
        ensures
            match old(self)@.with_output_ports(id, requested_output_ports(opt_view(left_port_path), opt_view(right_port_path))) {
                None => r == Err::<PmxOutput, RegistryError>(RegistryError::NotFound) && final(self)@ == old(self)@,
                Some(v) => match r {
                    Ok(shown) => final(self)@ == v.outputs_sent() && shown@ == output_record(MixerOutputView {
                        ports: requested_output_ports(opt_view(left_port_path), opt_view(right_port_path)),
                        ..old(self)@.output_by_id(id).unwrap()
                    }),
                    Err(e) => e == RegistryError::WriterGone && final(self)@ == v,
                },
            },
    {
        let ghost before = self@;
        let ports = output_ports_from_request(left_port_path, right_port_path);
        let ghost p = ports@;
        match self.registry.update_output_ports(id, ports) {
            Err(e) => Err(e),
            Ok(()) => {
                proof {
                    lemma_rebind_output_then_get(before, id, p);
                }
                Ok(PmxOutput::from(self.registry.output_by_id(id).unwrap()))
            },
        }
    }

    /// Registers a channel strip and shows the copy that was stored. A cross-faded
    /// strip without a cross-fader is refused.
    pub fn register_channel_strip(&mut self, channel_strip: PmxChannelStrip) -> (r: Result<PmxChannelStrip, RegistryError>)
        ensures
            !strip_request_complete(channel_strip@) ==> r == Err::<PmxChannelStrip, RegistryError>(RegistryError::InvalidArgument)
                && final(self)@ == old(self)@,
            strip_request_complete(channel_strip@) ==> {
                let stored = ChannelStripView {
                    id: channel_strip.id,
                    name: channel_strip.name@,
                    strip_type: strip_type_of_request(channel_strip@),
                };
                &&& final(self)@ == (RegistryView { channel_strips: old(self)@.channel_strips.push(stored), ..old(self)@ })
                &&& r is Ok
                &&& r.unwrap()@ == strip_record(stored)
            },
    {
        let complete = match channel_strip.channel_strip_type {
            PmxChannelStripType::Basic => true,
            PmxChannelStripType::CrossFaded => channel_strip.cross_fader_plugin_id.is_some(),
        };
        if !complete {
            return Err(RegistryError::InvalidArgument);
        }
        self.registry.register_channel_strip(channel_strip);
        let all = self.registry.get_all_channel_strips();
        proof {
            assert(all@.len() == self@.channel_strips.len());
            assert(all@[all@.len() - 1]@ == self@.channel_strips[self@.channel_strips.len() - 1]);
        }
        Ok(PmxChannelStrip::from(&all[all.len() - 1]))
    }

    /// Registers a plugin and shows the copy that was stored.
    pub fn register_plugin(&mut self, plugin: PmxPlugin) -> (r: PmxPlugin)
        ensures
            ({
                let stored = PluginView {
                    id: plugin.id,
                    mod_host_id: plugin.mod_host_id,
                    name: plugin.name@,
                    uri: plugin.plugin_uri@,
                    plugin_type: PluginType::Lv2,
                };
                &&& final(self)@ == (RegistryView { plugins: old(self)@.plugins.push(stored), ..old(self)@ })
                &&& r@ == plugin_record(stored)
            }),
    {
        self.registry.register_plugin(plugin);
        let all = self.registry.get_all_plugins();
        proof {
            assert(all@.len() == self@.plugins.len());
            assert(all@[all@.len() - 1]@ == self@.plugins[self@.plugins.len() - 1]);
        }
        PmxPlugin::from(&all[all.len() - 1])
    }

    /// Registers the looper for a loop number (its id is the loop number and its
    /// name `loop_<n>`) and shows the copy that was stored.
    pub fn register_looper(&mut self, loop_number: u32) -> (r: PmxLooper)
        ensures
            ({
                let stored = LooperView { id: loop_number, name: looper_name(loop_number), loop_number };
                &&& final(self)@ == (RegistryView { loopers: old(self)@.loopers.push(stored), ..old(self)@ })
                &&& r@ == stored
            }),
    {
        let name = looper_name_of(loop_number);
        self.registry.register_looper(PmxLooper { id: loop_number, name, loop_number });
        let all = self.registry.get_all_loopers();
        proof {
            assert(all@.len() == self@.loopers.len());
            assert(all@[all@.len() - 1]@ == self@.loopers[self@.loopers.len() - 1]);
        }
        PmxLooper::from(&all[all.len() - 1])
    }

    /// Registers an output stage; every stage is stored, and shown, with id 0.
    pub fn register_output_stage(
        &mut self,
        name: String,
        left_channel_strip_id: u32,
        right_channel_strip_id: u32,
        cross_fader_plugin_id: u32,
    ) -> (r: PmxOutputStage)
        ensures
            r@ == (OutputStageView {
                id: 0,
                name: name@,
                left_strip: left_channel_strip_id,
                right_strip: right_channel_strip_id,
                cross_fader: cross_fader_plugin_id,
            }),
            final(self)@ == (RegistryView { output_stages: old(self)@.output_stages.push(r@), ..old(self)@ }),
    {
        self.registry.register_output_stage(PmxOutputStage {
            id: 0,
            name: name.clone(),
            left_channel_strip_id,
            right_channel_strip_id,
            cross_fader_plugin_id,
        });
        PmxOutputStage { id: 0, name, left_channel_strip_id, right_channel_strip_id, cross_fader_plugin_id }
    }
}

} // verus!
