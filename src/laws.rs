use vstd::prelude::*;

use crate::entities::{MixerInputView, MixerOutputView, PortsView};
use crate::registry::{
    input_ids, lemma_position_of, output_ids, position_of, RegistryView,
};

verus! {

/// Changing the fields of one input other than its id keeps every id where it stood.
proof fn lemma_input_ids_kept(inputs: Seq<MixerInputView>, i: int, x: MixerInputView)
    requires
        0 <= i < inputs.len(),
        x.id == inputs[i].id,
    ensures
        input_ids(inputs.update(i, x)) == input_ids(inputs),
{
    assert(input_ids(inputs.update(i, x)) =~= input_ids(inputs));
}

/// Changing the fields of one output other than its id keeps every id where it stood.
proof fn lemma_output_ids_kept(outputs: Seq<MixerOutputView>, i: int, x: MixerOutputView)
    requires
        0 <= i < outputs.len(),
        x.id == outputs[i].id,
    ensures
        output_ids(outputs.update(i, x)) == output_ids(outputs),
{
    assert(output_ids(outputs.update(i, x)) =~= output_ids(outputs));
}

/// After renaming a known input, looking it up gives the old input with the new
/// name and nothing else changed; every other id, and every other collection,
/// reads as before.
pub proof fn lemma_rename_input_then_get(v: RegistryView, id: u32, name: Seq<char>)
    requires
        v.input_by_id(id) is Some,
    ensures
        v.with_input_name(id, name) is Some,
        v.with_input_name(id, name).unwrap().input_by_id(id) == Some(
            MixerInputView { name, ..v.input_by_id(id).unwrap() },
        ),
        forall|other: u32|
            other != id ==> #[trigger] v.with_input_name(id, name).unwrap().input_by_id(other)
                == v.input_by_id(other),
        v.with_input_name(id, name).unwrap().outputs == v.outputs,
        v.with_input_name(id, name).unwrap().plugins == v.plugins,
        v.with_input_name(id, name).unwrap().channel_strips == v.channel_strips,
        v.with_input_name(id, name).unwrap().loopers == v.loopers,
        v.with_input_name(id, name).unwrap().output_stages == v.output_stages,
{
    let ids = input_ids(v.inputs);
    let i = position_of(ids, id);
    lemma_position_of(ids, id);
    lemma_input_ids_kept(v.inputs, i, MixerInputView { name, ..v.inputs[i] });
    assert forall|other: u32| other != id implies #[trigger] v.with_input_name(id, name).unwrap().input_by_id(other)
        == v.input_by_id(other) by {
        lemma_position_of(ids, other);
    }
}

/// After rebinding a known input, looking it up gives the old input with the new
/// binding and nothing else changed; every other id, and every other collection,
/// reads as before.
pub proof fn lemma_rebind_input_then_get(v: RegistryView, id: u32, ports: PortsView)
    requires
        v.input_by_id(id) is Some,
    ensures
        v.with_input_ports(id, ports) is Some,
        v.with_input_ports(id, ports).unwrap().input_by_id(id) == Some(
            MixerInputView { ports, ..v.input_by_id(id).unwrap() },
        ),
        forall|other: u32|
            other != id ==> #[trigger] v.with_input_ports(id, ports).unwrap().input_by_id(other)
                == v.input_by_id(other),
        v.with_input_ports(id, ports).unwrap().outputs == v.outputs,
        v.with_input_ports(id, ports).unwrap().plugins == v.plugins,
        v.with_input_ports(id, ports).unwrap().channel_strips == v.channel_strips,
        v.with_input_ports(id, ports).unwrap().loopers == v.loopers,
        v.with_input_ports(id, ports).unwrap().output_stages == v.output_stages,
{
    let ids = input_ids(v.inputs);
    let i = position_of(ids, id);
    lemma_position_of(ids, id);
    lemma_input_ids_kept(v.inputs, i, MixerInputView { ports, ..v.inputs[i] });
    assert forall|other: u32| other != id implies #[trigger] v.with_input_ports(id, ports).unwrap().input_by_id(other)
        == v.input_by_id(other) by {
        lemma_position_of(ids, other);
    }
}

/// After rebinding a known output, looking it up gives the old output with the new
/// binding and nothing else changed; every other id, and every other collection,
/// reads as before.
pub proof fn lemma_rebind_output_then_get(v: RegistryView, id: u32, ports: PortsView)
    requires
        v.output_by_id(id) is Some,
    ensures
        v.with_output_ports(id, ports) is Some,
        v.with_output_ports(id, ports).unwrap().output_by_id(id) == Some(
            MixerOutputView { ports, ..v.output_by_id(id).unwrap() },
        ),
        forall|other: u32|
            other != id ==> #[trigger] v.with_output_ports(id, ports).unwrap().output_by_id(other)
                == v.output_by_id(other),
        v.with_output_ports(id, ports).unwrap().inputs == v.inputs,
        v.with_output_ports(id, ports).unwrap().plugins == v.plugins,
        v.with_output_ports(id, ports).unwrap().channel_strips == v.channel_strips,
        v.with_output_ports(id, ports).unwrap().loopers == v.loopers,
        v.with_output_ports(id, ports).unwrap().output_stages == v.output_stages,
{
    let ids = output_ids(v.outputs);
    let i = position_of(ids, id);
    lemma_position_of(ids, id);
    lemma_output_ids_kept(v.outputs, i, MixerOutputView { ports, ..v.outputs[i] });
    assert forall|other: u32| other != id implies #[trigger] v.with_output_ports(id, ports).unwrap().output_by_id(other)
        == v.output_by_id(other) by {
        lemma_position_of(ids, other);
    }
}

/// An id that no input has is refused by every change to an input; an id that no
/// output has is refused by every change to an output. (The operations' own
/// contracts add that a refused change leaves the registry as it was.)
pub proof fn lemma_unknown_id_refused(v: RegistryView, id: u32, name: Seq<char>, ports: PortsView)
    ensures
        v.input_by_id(id) is None ==> v.with_input_name(id, name) is None,
        v.input_by_id(id) is None ==> v.with_input_ports(id, ports) is None,
        v.output_by_id(id) is None ==> v.with_output_ports(id, ports) is None,
{
    lemma_position_of(input_ids(v.inputs), id);
    lemma_position_of(output_ids(v.outputs), id);
}

/// Rebinding an input to the ports it was just given changes nothing: issuing the
/// same rebinding twice leaves the same state as issuing it once (the registry's
/// own contracts add one more accepted snapshot, equal to the last).
pub proof fn lemma_rebind_input_idempotent(v: RegistryView, id: u32, ports: PortsView)
    requires
        v.input_by_id(id) is Some,
    ensures
        v.with_input_ports(id, ports) is Some,
        v.with_input_ports(id, ports).unwrap().with_input_ports(id, ports) == v.with_input_ports(id, ports),
        v.with_input_ports(id, ports).unwrap().inputs_sent().with_input_ports(id, ports) == Some(
            v.with_input_ports(id, ports).unwrap().inputs_sent(),
        ),
{
    let ids = input_ids(v.inputs);
    let i = position_of(ids, id);
    lemma_position_of(ids, id);
    let once = v.with_input_ports(id, ports).unwrap();
    lemma_input_ids_kept(v.inputs, i, MixerInputView { ports, ..v.inputs[i] });
    assert(once.inputs.update(i, MixerInputView { ports, ..once.inputs[i] }) =~= once.inputs);
}

/// Rebinding an output to the ports it was just given changes nothing: issuing the
/// same rebinding twice leaves the same state as issuing it once (the registry's
/// own contracts add one more accepted snapshot, equal to the last).
pub proof fn lemma_rebind_output_idempotent(v: RegistryView, id: u32, ports: PortsView)
    requires
        v.output_by_id(id) is Some,
    ensures
        v.with_output_ports(id, ports) is Some,
        v.with_output_ports(id, ports).unwrap().with_output_ports(id, ports) == v.with_output_ports(id, ports),
        v.with_output_ports(id, ports).unwrap().outputs_sent().with_output_ports(id, ports) == Some(
            v.with_output_ports(id, ports).unwrap().outputs_sent(),
        ),
{
    let ids = output_ids(v.outputs);
    let i = position_of(ids, id);
    lemma_position_of(ids, id);
    let once = v.with_output_ports(id, ports).unwrap();
    lemma_output_ids_kept(v.outputs, i, MixerOutputView { ports, ..v.outputs[i] });
    assert(once.outputs.update(i, MixerOutputView { ports, ..once.outputs[i] }) =~= once.outputs);
}

} // verus!
