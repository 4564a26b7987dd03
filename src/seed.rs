use vstd::prelude::*;

use crate::entities::{
    MixerInput, MixerInputView, MixerOutput, MixerOutputType, MixerOutputView, PipewirePorts,
    PortsView,
};
use crate::registry::{inputs_view, outputs_view};

verus! {

/// The inputs that a registry starts with when no saved inputs are found.
pub open spec fn seed_inputs() -> Seq<MixerInputView> {
    seq![
        MixerInputView { name: "DSMPL"@, ports: PortsView::Unbound, id: 1, group: "Drums"@ },
        MixerInputView { name: "DFire"@, ports: PortsView::Unbound, id: 2, group: "Drums"@ },
        MixerInputView { name: "DEuro"@, ports: PortsView::Unbound, id: 3, group: "Drums"@ },
        MixerInputView { name: "Prophet rev2"@, ports: PortsView::Unbound, id: 4, group: "Melody"@ },
        MixerInputView { name: "SE02"@, ports: PortsView::Unbound, id: 5, group: "Bass"@ },
        MixerInputView { name: "Torso S4"@, ports: PortsView::Unbound, id: 6, group: "Atmos"@ },
        MixerInputView { name: "opsix"@, ports: PortsView::Unbound, id: 7, group: "Drums"@ },
        MixerInputView { name: "System 1m"@, ports: PortsView::Unbound, id: 8, group: "Drums"@ },
        MixerInputView { name: "Cobalt 8m"@, ports: PortsView::Unbound, id: 9, group: "Drums"@ },
    ]
}

/// The outputs that a registry starts with when no saved outputs are found.
pub open spec fn seed_outputs() -> Seq<MixerOutputView> {
    seq![
        MixerOutputView { name: "Main"@, ports: PortsView::Unbound, id: 1, output_type: MixerOutputType::Main },
        MixerOutputView { name: "Cue"@, ports: PortsView::Unbound, id: 2, output_type: MixerOutputType::Cue },
        MixerOutputView { name: "Main 2"@, ports: PortsView::Unbound, id: 3, output_type: MixerOutputType::Main },
    ]
}

pub fn default_inputs() -> (r: Vec<MixerInput>)
    ensures
        inputs_view(r@) == seed_inputs(),
{
    let mut r: Vec<MixerInput> = Vec::new();
    r.push(MixerInput::new("DSMPL", PipewirePorts::Unbound, 1, "Drums"));
    r.push(MixerInput::new("DFire", PipewirePorts::Unbound, 2, "Drums"));
    r.push(MixerInput::new("DEuro", PipewirePorts::Unbound, 3, "Drums"));
    r.push(MixerInput::new("Prophet rev2", PipewirePorts::Unbound, 4, "Melody"));
    r.push(MixerInput::new("SE02", PipewirePorts::Unbound, 5, "Bass"));
    r.push(MixerInput::new("Torso S4", PipewirePorts::Unbound, 6, "Atmos"));
    r.push(MixerInput::new("opsix", PipewirePorts::Unbound, 7, "Drums"));
    r.push(MixerInput::new("System 1m", PipewirePorts::Unbound, 8, "Drums"));
    r.push(MixerInput::new("Cobalt 8m", PipewirePorts::Unbound, 9, "Drums"));
    proof {
        assert(inputs_view(r@) =~= seed_inputs());
    }
    r
}

pub fn default_outputs() -> (r: Vec<MixerOutput>)
    ensures
        outputs_view(r@) == seed_outputs(),
{
    let mut r: Vec<MixerOutput> = Vec::new();
    r.push(MixerOutput::new("Main", PipewirePorts::Unbound, 1, MixerOutputType::Main));
    r.push(MixerOutput::new("Cue", PipewirePorts::Unbound, 2, MixerOutputType::Cue));
    r.push(MixerOutput::new("Main 2", PipewirePorts::Unbound, 3, MixerOutputType::Main));
    proof {
        assert(outputs_view(r@) =~= seed_outputs());
    }
    r
}

} // verus!
