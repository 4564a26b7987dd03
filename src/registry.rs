use vstd::prelude::*;

use tokio::sync::mpsc::UnboundedSender;

use crate::entities::{
    ChannelStrip, ChannelStripType, ChannelStripView, Looper, LooperView, MixerInput, MixerInputView, MixerOutput,
    MixerOutputView, OutputStage, OutputStageView, PipewirePorts, Plugin, PluginType, PluginView,
    PortsView,
};
use crate::pmx::{
    strip_request_complete, strip_type_of_request, PmxChannelStrip, PmxChannelStripType,
    PmxLooper, PmxOutputStage, PmxPlugin,
};

verus! {

/// tokio's `UnboundedSender`, held opaquely: the registry only hands snapshots to it.
#[verifier::external_type_specification]
#[verifier::external_body]
#[verifier::reject_recursive_types(T)]
pub struct ExUnboundedSender<T>(UnboundedSender<T>);

/// Relies on tokio's `UnboundedSender::send`: it queues the snapshot without
/// blocking, and reports whether the receiving half was still there to take it.
#[verifier::external_body]
fn queue_snapshot<T>(sender: &UnboundedSender<T>, snapshot: T) -> (sent: bool) {
    sender.send(snapshot).is_ok()
}

/// Why a registry operation did not succeed.
#[derive(Debug, Clone, Copy, PartialEq, Eq, Structural)]
pub enum RegistryError {
    /// No entity of the targeted kind has the requested id.
    NotFound,
    /// The request describes a binding or kind that is structurally inconsistent.
    InvalidArgument,
    /// The change was applied, but its snapshot could not be queued because the
    /// persistence writer has stopped; the stored state can no longer be made durable.
    WriterGone,
}

/// Index of the first `id` in `ids` at or after `k`, or -1 where there is none.
pub open spec fn first_from(ids: Seq<u32>, id: u32, k: int) -> int
    decreases ids.len() - k,
{
    if k < 0 || k >= ids.len() {
        -1
    } else if ids[k] == id {
        k
    } else {
        first_from(ids, id, k + 1)
    }
}

/// Index of the first `id` in `ids`, or -1 where there is none.
pub open spec fn position_of(ids: Seq<u32>, id: u32) -> int {
    first_from(ids, id, 0)
}

pub proof fn lemma_first_from(ids: Seq<u32>, id: u32, k: int)
    requires
        0 <= k <= ids.len(),
    ensures
        first_from(ids, id, k) == -1 ==> forall|j: int| k <= j < ids.len() ==> ids[j] != id,
        first_from(ids, id, k) != -1 ==> {
            &&& k <= first_from(ids, id, k) < ids.len()
            &&& ids[first_from(ids, id, k)] == id
            &&& forall|j: int| k <= j < first_from(ids, id, k) ==> ids[j] != id
        },
    decreases ids.len() - k,
{
    if k < ids.len() && ids[k] != id {
        lemma_first_from(ids, id, k + 1);
    }
}

/// Where `id` first stands in `ids`, or -1; in range whenever it is not -1.
pub proof fn lemma_position_of(ids: Seq<u32>, id: u32)
    ensures
        -1 <= position_of(ids, id) < ids.len(),
        position_of(ids, id) >= 0 ==> ids[position_of(ids, id)] == id,
        position_of(ids, id) == -1 <==> forall|j: int| 0 <= j < ids.len() ==> ids[j] != id,
{
    lemma_first_from(ids, id, 0);
}


pub open spec fn input_ids(s: Seq<MixerInputView>) -> Seq<u32> {
    s.map_values(|x: MixerInputView| x.id)
}

pub open spec fn output_ids(s: Seq<MixerOutputView>) -> Seq<u32> {
    s.map_values(|x: MixerOutputView| x.id)
}

pub open spec fn plugin_ids(s: Seq<PluginView>) -> Seq<u32> {
    s.map_values(|x: PluginView| x.id)
}

pub open spec fn strip_ids(s: Seq<ChannelStripView>) -> Seq<u32> {
    s.map_values(|x: ChannelStripView| x.id)
}

pub open spec fn looper_ids(s: Seq<LooperView>) -> Seq<u32> {
    s.map_values(|x: LooperView| x.id)
}

/// The mathematical state of a registry: its six collections in insertion order,
/// and every snapshot of inputs and of outputs that its writers' channels accepted,
/// in the order they were queued.
pub struct RegistryView {
    pub inputs: Seq<MixerInputView>,
    pub outputs: Seq<MixerOutputView>,
    pub plugins: Seq<PluginView>,
    pub channel_strips: Seq<ChannelStripView>,
    pub loopers: Seq<LooperView>,
    pub output_stages: Seq<OutputStageView>,
    pub sent_inputs: Seq<Seq<MixerInputView>>,
    pub sent_outputs: Seq<Seq<MixerOutputView>>,
}

impl RegistryView {
    pub open spec fn input_by_id(self, id: u32) -> Option<MixerInputView> {
        let i = position_of(input_ids(self.inputs), id);
        if i >= 0 {
            Some(self.inputs[i])
        } else {
            None
        }
    }

    pub open spec fn output_by_id(self, id: u32) -> Option<MixerOutputView> {
        let i = position_of(output_ids(self.outputs), id);
        if i >= 0 {
            Some(self.outputs[i])
        } else {
            None
        }
    }

    pub open spec fn plugin_by_id(self, id: u32) -> Option<PluginView> {
        let i = position_of(plugin_ids(self.plugins), id);
        if i >= 0 {
            Some(self.plugins[i])
        } else {
            None
        }
    }

    pub open spec fn channel_strip_by_id(self, id: u32) -> Option<ChannelStripView> {
        let i = position_of(strip_ids(self.channel_strips), id);
        if i >= 0 {
            Some(self.channel_strips[i])
        } else {
            None
        }
    }

    pub open spec fn looper_by_id(self, id: u32) -> Option<LooperView> {
        let i = position_of(looper_ids(self.loopers), id);
        if i >= 0 {
            Some(self.loopers[i])
        } else {
            None
        }
    }

    /// The state after the input `id` is renamed; `None` when no input has that id.
    pub open spec fn with_input_name(self, id: u32, name: Seq<char>) -> Option<RegistryView> {
        let i = position_of(input_ids(self.inputs), id);
        if i < 0 {
            None
        } else {
            let inputs = self.inputs.update(i, MixerInputView { name, ..self.inputs[i] });
            Some(RegistryView { inputs, ..self })
        }
    }

    /// The state after the input `id` is rebound; `None` when no input has that id.
    pub open spec fn with_input_ports(self, id: u32, ports: PortsView) -> Option<RegistryView> {
        let i = position_of(input_ids(self.inputs), id);
        if i < 0 {
            None
        } else {
            let inputs = self.inputs.update(i, MixerInputView { ports, ..self.inputs[i] });
            Some(RegistryView { inputs, ..self })
        }
    }

    /// The state after the output `id` is rebound; `None` when no output has that id.
    pub open spec fn with_output_ports(self, id: u32, ports: PortsView) -> Option<RegistryView> {
        let i = position_of(output_ids(self.outputs), id);
        if i < 0 {
            None
        } else {
            let outputs = self.outputs.update(i, MixerOutputView { ports, ..self.outputs[i] });
            Some(RegistryView { outputs, ..self })
        }
    }

    /// The state once the writer of inputs has accepted a snapshot of the current inputs.
    pub open spec fn inputs_sent(self) -> RegistryView {
        RegistryView { sent_inputs: self.sent_inputs.push(self.inputs), ..self }
    }

    /// The state once the writer of outputs has accepted a snapshot of the current outputs.
    pub open spec fn outputs_sent(self) -> RegistryView {
        RegistryView { sent_outputs: self.sent_outputs.push(self.outputs), ..self }
    }
}

/// An entity that is looked up by its id.
pub trait Identified {
    spec fn spec_id(&self) -> u32;

    fn id_of(&self) -> (r: u32)
        ensures
            r == self.spec_id(),
    ;
}

impl Identified for MixerInput {
    open spec fn spec_id(&self) -> u32 {
        self.id
    }

    fn id_of(&self) -> (r: u32) {
        self.id
    }
}

impl Identified for MixerOutput {
    open spec fn spec_id(&self) -> u32 {
        self.id
    }

    fn id_of(&self) -> (r: u32) {
        self.id
    }
}

impl Identified for Plugin {
    open spec fn spec_id(&self) -> u32 {
        self.id
    }

    fn id_of(&self) -> (r: u32) {
        self.id
    }
}

impl Identified for ChannelStrip {
    open spec fn spec_id(&self) -> u32 {
        self.id
    }

    fn id_of(&self) -> (r: u32) {
        self.id
    }
}

impl Identified for Looper {
    open spec fn spec_id(&self) -> u32 {
        self.id
    }

    fn id_of(&self) -> (r: u32) {
        self.id
    }
}

pub open spec fn ids_of<T: Identified>(s: Seq<T>) -> Seq<u32> {
    s.map_values(|x: T| x.spec_id())
}

/// Index of the first item with this id.
fn find_first<T: Identified>(items: &Vec<T>, id: u32) -> (r: Option<usize>)
    ensures
        match r {
            Some(i) => i < items@.len() && i as int == position_of(ids_of(items@), id),
            None => position_of(ids_of(items@), id) == -1,
        },
{
    let ghost ids = ids_of(items@);
    proof {
        lemma_position_of(ids, id);
    }
    let mut i: usize = 0;
    while i < items.len()
        invariant
            i <= items@.len(),
            ids == ids_of(items@),
            position_of(ids, id) == first_from(ids, id, i as int),
        decreases items.len() - i,
    {
        if items[i].id_of() == id {
            proof {
                assert(first_from(ids, id, i as int) == i);
            }
            return Some(i);
        }
        i = i + 1;
    }
    None
}

/// The store of every mixer entity, and the single point of mutation.
pub struct Registry {
    inputs: Vec<MixerInput>,
    outputs: Vec<MixerOutput>,
    inputs_sender: UnboundedSender<Vec<MixerInput>>,
    outputs_sender: UnboundedSender<Vec<MixerOutput>>,
    plugins: Vec<Plugin>,
    channel_strips: Vec<ChannelStrip>,
    loopers: Vec<Looper>,
    output_stages: Vec<OutputStage>,
    sent_inputs: Ghost<Seq<Seq<MixerInputView>>>,
    sent_outputs: Ghost<Seq<Seq<MixerOutputView>>>,
}

pub open spec fn inputs_view(s: Seq<MixerInput>) -> Seq<MixerInputView> {
    s.map_values(|x: MixerInput| x@)
}

pub open spec fn outputs_view(s: Seq<MixerOutput>) -> Seq<MixerOutputView> {
    s.map_values(|x: MixerOutput| x@)
}

impl View for Registry {
    type V = RegistryView;

    closed spec fn view(&self) -> RegistryView {
        RegistryView {
            inputs: inputs_view(self.inputs@),
            outputs: outputs_view(self.outputs@),
            plugins: self.plugins@.map_values(|x: Plugin| x@),
            channel_strips: self.channel_strips@.map_values(|x: ChannelStrip| x@),
            loopers: self.loopers@.map_values(|x: Looper| x@),
            output_stages: self.output_stages@.map_values(|x: OutputStage| x@),
            sent_inputs: self.sent_inputs@,
            sent_outputs: self.sent_outputs@,
        }
    }
}

impl Registry {
    pub fn new(
        inputs: Vec<MixerInput>,
        outputs: Vec<MixerOutput>,
        inputs_sender: UnboundedSender<Vec<MixerInput>>,
        outputs_sender: UnboundedSender<Vec<MixerOutput>>,
    ) -> (r: Self)
        ensures
            r@ == (RegistryView {
                inputs: inputs_view(inputs@),
                outputs: outputs_view(outputs@),
                plugins: Seq::empty(),
                channel_strips: Seq::empty(),
                loopers: Seq::empty(),
                output_stages: Seq::empty(),
                sent_inputs: Seq::empty(),
                sent_outputs: Seq::empty(),
            }),
    {
        let r = Registry {
            inputs,
            outputs,
            inputs_sender,
            outputs_sender,
            plugins: Vec::new(),
            channel_strips: Vec::new(),
            loopers: Vec::new(),
            output_stages: Vec::new(),
            sent_inputs: Ghost(Seq::empty()),
            sent_outputs: Ghost(Seq::empty()),
        };
        proof {
            assert(r@.plugins =~= Seq::empty());
            assert(r@.channel_strips =~= Seq::empty());
            assert(r@.loopers =~= Seq::empty());
            assert(r@.output_stages =~= Seq::empty());
        }
        r
    }

    /// Index of the first input with this id.
    fn find_input(&self, id: u32) -> (r: Option<usize>)
        ensures
            match r {
                Some(i) => i < self.inputs@.len() && i as int == position_of(input_ids(self@.inputs), id),
                None => position_of(input_ids(self@.inputs), id) == -1,
            },
    {
        proof {
            assert(ids_of(self.inputs@) =~= input_ids(self@.inputs));
        }
        find_first(&self.inputs, id)
    }

    /// Index of the first output with this id.
    fn find_output(&self, id: u32) -> (r: Option<usize>)
        ensures
            match r {
                Some(i) => i < self.outputs@.len() && i as int == position_of(output_ids(self@.outputs), id),
                None => position_of(output_ids(self@.outputs), id) == -1,
            },
    {
        proof {
            assert(ids_of(self.outputs@) =~= output_ids(self@.outputs));
        }
        find_first(&self.outputs, id)
    }

    /// A copy of the inputs, for the persistence writer.
    fn snapshot_inputs(&self) -> (r: Vec<MixerInput>)
        ensures
            inputs_view(r@) == self@.inputs,
    {
        let mut r: Vec<MixerInput> = Vec::new();
        let mut i: usize = 0;
        while i < self.inputs.len()
            invariant
                i <= self.inputs@.len(),
                inputs_view(r@) == inputs_view(self.inputs@.subrange(0, i as int)),
            decreases self.inputs.len() - i,
        {
            let ghost before = r@;
            let item = self.inputs[i].duplicate();
            r.push(item);
            proof {
                assert(self.inputs@.subrange(0, i + 1) =~= self.inputs@.subrange(0, i as int).push(self.inputs@[i as int]));
                assert(inputs_view(r@) =~= inputs_view(before).push(item@));
                assert(inputs_view(self.inputs@.subrange(0, i + 1)) =~= inputs_view(self.inputs@.subrange(0, i as int)).push(self.inputs@[i as int]@));
            }
            i = i + 1;
        }
        proof {
            assert(self.inputs@.subrange(0, i as int) =~= self.inputs@);
        }
        r
    }

    /// A copy of the outputs, for the persistence writer.
    fn snapshot_outputs(&self) -> (r: Vec<MixerOutput>)
        ensures
            outputs_view(r@) == self@.outputs,
    {
        let mut r: Vec<MixerOutput> = Vec::new();
        let mut i: usize = 0;
        while i < self.outputs.len()
            invariant
                i <= self.outputs@.len(),
                outputs_view(r@) == outputs_view(self.outputs@.subrange(0, i as int)),
            decreases self.outputs.len() - i,
        {
            let ghost before = r@;
            let item = self.outputs[i].duplicate();
            r.push(item);
            proof {
                assert(self.outputs@.subrange(0, i + 1) =~= self.outputs@.subrange(0, i as int).push(self.outputs@[i as int]));
                assert(outputs_view(r@) =~= outputs_view(before).push(item@));
                assert(outputs_view(self.outputs@.subrange(0, i + 1)) =~= outputs_view(self.outputs@.subrange(0, i as int)).push(self.outputs@[i as int]@));
            }
            i = i + 1;
        }
        proof {
            assert(self.outputs@.subrange(0, i as int) =~= self.outputs@);
        }
        r
    }

    /// Hands a copy of the current inputs to the inputs writer, and records it as sent
    /// when the writer's channel accepts it.
    fn send_inputs(&mut self) -> (r: Result<(), RegistryError>)
        ensures
            r is Ok ==> final(self)@ == old(self)@.inputs_sent(),
            !(r is Ok) ==> r == Err::<(), RegistryError>(RegistryError::WriterGone) && final(self)@ == old(self)@,
    {
        let snapshot = self.snapshot_inputs();
        let ghost sent = inputs_view(snapshot@);
        if queue_snapshot(&self.inputs_sender, snapshot) {
            self.sent_inputs = Ghost(self.sent_inputs@.push(sent));
            Ok(())
        } else {
            Err(RegistryError::WriterGone)
        }
    }

    /// Hands a copy of the current outputs to the outputs writer, and records it as sent
    /// when the writer's channel accepts it.
    fn send_outputs(&mut self) -> (r: Result<(), RegistryError>)
        ensures
            r is Ok ==> final(self)@ == old(self)@.outputs_sent(),
            !(r is Ok) ==> r == Err::<(), RegistryError>(RegistryError::WriterGone) && final(self)@ == old(self)@,
    {
        let snapshot = self.snapshot_outputs();
        let ghost sent = outputs_view(snapshot@);
        if queue_snapshot(&self.outputs_sender, snapshot) {
            self.sent_outputs = Ghost(self.sent_outputs@.push(sent));
            Ok(())
        } else {
            Err(RegistryError::WriterGone)
        }
    }

    /// Renames the first input with this id, then queues a snapshot of the inputs.
    pub fn update_input_name(&mut self, id: u32, name: &str) -> (r: Result<(), RegistryError>)
        ensures
            match old(self)@.with_input_name(id, name@) {
                None => r == Err::<(), RegistryError>(RegistryError::NotFound) && final(self)@ == old(self)@,
                Some(v) => {
                    ||| r is Ok && final(self)@ == v.inputs_sent()
                    ||| r == Err::<(), RegistryError>(RegistryError::WriterGone) && final(self)@ == v
                },
            },
    {
        match self.find_input(id) {
            None => Err(RegistryError::NotFound),
            Some(i) => {
                let mut input = self.inputs[i].duplicate();
                input.name = name.to_owned();
                self.inputs.set(i, input);
                proof {
                    assert(self@.inputs =~= old(self)@.inputs.update(i as int, MixerInputView { name: name@, ..old(self)@.inputs[i as int] }));
                }
                self.send_inputs()
            }
        }
    }

    /// Rebinds the first input with this id, then queues a snapshot of the inputs.
    pub fn update_input_ports(&mut self, id: u32, ports: PipewirePorts) -> (r: Result<(), RegistryError>)
        ensures
            match old(self)@.with_input_ports(id, ports@) {
                None => r == Err::<(), RegistryError>(RegistryError::NotFound) && final(self)@ == old(self)@,
                Some(v) => {
                    ||| r is Ok && final(self)@ == v.inputs_sent()
                    ||| r == Err::<(), RegistryError>(RegistryError::WriterGone) && final(self)@ == v
                },
            },
    {
        match self.find_input(id) {
            None => Err(RegistryError::NotFound),
            Some(i) => {
                let mut input = self.inputs[i].duplicate();
                input.pipewire_ports = ports;
                self.inputs.set(i, input);
                proof {
                    assert(self@.inputs =~= old(self)@.inputs.update(i as int, MixerInputView { ports: ports@, ..old(self)@.inputs[i as int] }));
                }
                self.send_inputs()
            }
        }
    }

    /// Rebinds the first output with this id, then queues a snapshot of the outputs.
    pub fn update_output_ports(&mut self, id: u32, ports: PipewirePorts) -> (r: Result<(), RegistryError>)
        ensures
            match old(self)@.with_output_ports(id, ports@) {
                None => r == Err::<(), RegistryError>(RegistryError::NotFound) && final(self)@ == old(self)@,
                Some(v) => {
                    ||| r is Ok && final(self)@ == v.outputs_sent()
                    ||| r == Err::<(), RegistryError>(RegistryError::WriterGone) && final(self)@ == v
                },
            },
    {
        match self.find_output(id) {
            None => Err(RegistryError::NotFound),
            Some(i) => {
                let mut output = self.outputs[i].duplicate();
                output.pipewire_ports = ports;
                self.outputs.set(i, output);
                proof {
                    assert(self@.outputs =~= old(self)@.outputs.update(i as int, MixerOutputView { ports: ports@, ..old(self)@.outputs[i as int] }));
                }
                self.send_outputs()
            }
        }
    }
    /// Index of the first plugin with this id.
    fn find_plugin(&self, id: u32) -> (r: Option<usize>)
        ensures
            match r {
                Some(i) => i < self.plugins@.len() && i as int == position_of(plugin_ids(self@.plugins), id),
                None => position_of(plugin_ids(self@.plugins), id) == -1,
            },
    {
        proof {
            assert(ids_of(self.plugins@) =~= plugin_ids(self@.plugins));
        }
        find_first(&self.plugins, id)
    }

    /// Index of the first channel strip with this id.
    fn find_strip(&self, id: u32) -> (r: Option<usize>)
        ensures
            match r {
                Some(i) => i < self.channel_strips@.len() && i as int == position_of(strip_ids(self@.channel_strips), id),
                None => position_of(strip_ids(self@.channel_strips), id) == -1,
            },
    {
        proof {
            assert(ids_of(self.channel_strips@) =~= strip_ids(self@.channel_strips));
        }
        find_first(&self.channel_strips, id)
    }

    /// Index of the first looper with this id.
    fn find_looper(&self, id: u32) -> (r: Option<usize>)
        ensures
            match r {
                Some(i) => i < self.loopers@.len() && i as int == position_of(looper_ids(self@.loopers), id),
                None => position_of(looper_ids(self@.loopers), id) == -1,
            },
    {
        proof {
            assert(ids_of(self.loopers@) =~= looper_ids(self@.loopers));
        }
        find_first(&self.loopers, id)
    }

    pub fn input_by_id(&self, id: u32) -> (r: Option<&MixerInput>)
        ensures
            match r {
                Some(x) => self@.input_by_id(id) == Some(x@),
                None => self@.input_by_id(id) is None,
            },
    {
        match self.find_input(id) {
            Some(i) => Some(&self.inputs[i]),
            None => None,
        }
    }

    pub fn output_by_id(&self, id: u32) -> (r: Option<&MixerOutput>)
        ensures
            match r {
                Some(x) => self@.output_by_id(id) == Some(x@),
                None => self@.output_by_id(id) is None,
            },
    {
        match self.find_output(id) {
            Some(i) => Some(&self.outputs[i]),
            None => None,
        }
    }

    pub fn get_plugin_by_id(&self, id: u32) -> (r: Option<&Plugin>)
        ensures
            match r {
                Some(x) => self@.plugin_by_id(id) == Some(x@),
                None => self@.plugin_by_id(id) is None,
            },
    {
        match self.find_plugin(id) {
            Some(i) => Some(&self.plugins[i]),
            None => None,
        }
    }

    pub fn get_channel_strip_by_id(&self, id: u32) -> (r: Option<&ChannelStrip>)
        ensures
            match r {
                Some(x) => self@.channel_strip_by_id(id) == Some(x@),
                None => self@.channel_strip_by_id(id) is None,
            },
    {
        match self.find_strip(id) {
            Some(i) => Some(&self.channel_strips[i]),
            None => None,
        }
    }

    pub fn get_looper_by_id(&self, id: u32) -> (r: Option<&Looper>)
        ensures
            match r {
                Some(x) => self@.looper_by_id(id) == Some(x@),
                None => self@.looper_by_id(id) is None,
            },
    {
        match self.find_looper(id) {
            Some(i) => Some(&self.loopers[i]),
            None => None,
        }
    }

    pub fn get_all_inputs(&self) -> (r: &[MixerInput])
        ensures
            inputs_view(r@) == self@.inputs,
    {
        self.inputs.as_slice()
    }

    pub fn get_all_outputs(&self) -> (r: &[MixerOutput])
        ensures
            outputs_view(r@) == self@.outputs,
    {
        self.outputs.as_slice()
    }

    pub fn get_all_plugins(&self) -> (r: &Vec<Plugin>)
        ensures
            r@.map_values(|x: Plugin| x@) == self@.plugins,
    {
        &self.plugins
    }

    pub fn get_all_channel_strips(&self) -> (r: &Vec<ChannelStrip>)
        ensures
            r@.map_values(|x: ChannelStrip| x@) == self@.channel_strips,
    {
        &self.channel_strips
    }

    pub fn get_all_loopers(&self) -> (r: &Vec<Looper>)
        ensures
            r@.map_values(|x: Looper| x@) == self@.loopers,
    {
        &self.loopers
    }

    pub fn get_all_output_stages(&self) -> (r: &[OutputStage])
        ensures
            r@.map_values(|x: OutputStage| x@) == self@.output_stages,
    {
        self.output_stages.as_slice()
    }

    /// Appends a plugin built from the record; an earlier plugin with the same id stays.
    pub fn register_plugin(&mut self, plugin: PmxPlugin)
        ensures
            final(self)@ == (RegistryView {
                plugins: old(self)@.plugins.push(PluginView {
                    id: plugin.id,
                    mod_host_id: plugin.mod_host_id,
                    name: plugin.name@,
                    uri: plugin.plugin_uri@,
                    plugin_type: PluginType::Lv2,
                }),
                ..old(self)@
            }),
    {
        self.plugins.push(Plugin {
            id: plugin.id,
            mod_host_id: plugin.mod_host_id,
            name: plugin.name,
            plugin_uri: plugin.plugin_uri,
            plugin_type: PluginType::Lv2,
        });
        proof {
            assert(self@.plugins =~= old(self)@.plugins.push(self.plugins@.last()@));
        }
    }

    /// Appends a channel strip built from a complete record; an earlier strip with
    /// the same id stays.
    pub fn register_channel_strip(&mut self, channel_strip: PmxChannelStrip)
        requires
            strip_request_complete(channel_strip@),
        ensures
            final(self)@ == (RegistryView {
                channel_strips: old(self)@.channel_strips.push(ChannelStripView {
                    id: channel_strip.id,
                    name: channel_strip.name@,
                    strip_type: strip_type_of_request(channel_strip@),
                }),
                ..old(self)@
            }),
    {
        let strip_type = match channel_strip.channel_strip_type {
            PmxChannelStripType::Basic => ChannelStripType::Basic {
                saturator_plugin_id: channel_strip.saturator_plugin_id,
                compressor_plugin_id: channel_strip.compressor_plugin_id,
                equalizer_plugin_id: channel_strip.equalizer_plugin_id,
                gain_plugin_id: channel_strip.gain_plugin_id,
            },
            PmxChannelStripType::CrossFaded => ChannelStripType::CrossFaded {
                cross_fader_plugin_id: channel_strip.cross_fader_plugin_id.unwrap(),
                saturator_plugin_id: channel_strip.saturator_plugin_id,
                compressor_plugin_id: channel_strip.compressor_plugin_id,
                equalizer_plugin_id: channel_strip.equalizer_plugin_id,
                gain_plugin_id: channel_strip.gain_plugin_id,
            },
        };
        self.channel_strips.push(ChannelStrip {
            id: channel_strip.id,
            name: channel_strip.name,
            channel_strip_type: strip_type,
        });
        proof {
            assert(self@.channel_strips =~= old(self)@.channel_strips.push(self.channel_strips@.last()@));
        }
    }

    /// Appends a looper taken from the record; an earlier looper with the same id stays.
    pub fn register_looper(&mut self, looper: PmxLooper)
        ensures
            final(self)@ == (RegistryView { loopers: old(self)@.loopers.push(looper@), ..old(self)@ }),
    {
        self.loopers.push(Looper { id: looper.id, name: looper.name, loop_number: looper.loop_number });
        proof {
            assert(self@.loopers =~= old(self)@.loopers.push(self.loopers@.last()@));
        }
    }

    /// Appends an output stage taken from the record.
    pub fn register_output_stage(&mut self, output_stage: PmxOutputStage)
        ensures
            final(self)@ == (RegistryView {
                output_stages: old(self)@.output_stages.push(output_stage@),
                ..old(self)@
            }),
    {
        self.output_stages.push(OutputStage {
            id: output_stage.id,
            name: output_stage.name,
            left_channel_strip_id: output_stage.left_channel_strip_id,
            right_channel_strip_id: output_stage.right_channel_strip_id,
            cross_fader_plugin_id: output_stage.cross_fader_plugin_id,
        });
        proof {
            assert(self@.output_stages =~= old(self)@.output_stages.push(self.output_stages@.last()@));
        }
    }
}

} // verus!
