use pmx_registry::entities::{
    ChannelStripType, MixerInput, MixerOutput, MixerOutputType, PipewirePorts, PluginType,
};
use pmx_registry::pmx::{PmxChannelStrip, PmxChannelStripType, PmxLooper, PmxOutputStage, PmxPlugin};
use pmx_registry::registry::{Registry, RegistryError};
use pmx_registry::seed::{default_inputs, default_outputs};
use tokio::sync::mpsc::{unbounded_channel, UnboundedReceiver};

fn seeded() -> (Registry, UnboundedReceiver<Vec<MixerInput>>, UnboundedReceiver<Vec<MixerOutput>>) {
    let (in_tx, in_rx) = unbounded_channel();
    let (out_tx, out_rx) = unbounded_channel();
    (Registry::new(default_inputs(), default_outputs(), in_tx, out_tx), in_rx, out_rx)
}

fn strip_request(kind: PmxChannelStripType, id: u32, cross_fader: Option<u32>) -> PmxChannelStrip {
    PmxChannelStrip {
        id,
        name: String::from("Strip"),
        channel_strip_type: kind,
        cross_fader_plugin_id: cross_fader,
        saturator_plugin_id: 1,
        compressor_plugin_id: 2,
        equalizer_plugin_id: 3,
        gain_plugin_id: 4,
    }
}

#[test]
fn mono_binding_on_seeded_input() {
    let (mut registry, mut in_rx, _out_rx) = seeded();
    let before = registry.input_by_id(1).unwrap().clone();
    assert_eq!(before.name, "DSMPL");
    assert_eq!(before.pipewire_ports, PipewirePorts::Unbound);
    assert_eq!(registry.update_input_ports(1, PipewirePorts::Mono(String::from("in:1"))), Ok(()));
    let after = registry.input_by_id(1).unwrap();
    assert_eq!(
        *after,
        MixerInput::new("DSMPL", PipewirePorts::Mono(String::from("in:1")), 1, "Drums")
    );
    let snapshot = in_rx.try_recv().unwrap();
    assert_eq!(snapshot.len(), 9);
    assert_eq!(snapshot[0], *after);
}

#[test]
fn rename_unknown_input_is_not_found() {
    let (mut registry, mut in_rx, _out_rx) = seeded();
    let before = registry.get_all_inputs().to_vec();
    assert_eq!(registry.update_input_name(99, "X"), Err(RegistryError::NotFound));
    assert_eq!(registry.get_all_inputs().to_vec(), before);
    assert!(in_rx.try_recv().is_err());
}

#[test]
fn every_by_id_operation_refuses_unknown_ids() {
    let (mut registry, mut in_rx, mut out_rx) = seeded();
    let inputs = registry.get_all_inputs().to_vec();
    let outputs = registry.get_all_outputs().to_vec();
    assert!(registry.input_by_id(42).is_none());
    assert!(registry.output_by_id(42).is_none());
    assert!(registry.get_plugin_by_id(42).is_none());
    assert!(registry.get_channel_strip_by_id(42).is_none());
    assert!(registry.get_looper_by_id(42).is_none());
    assert_eq!(registry.update_input_name(42, "X"), Err(RegistryError::NotFound));
    assert_eq!(
        registry.update_input_ports(42, PipewirePorts::Mono(String::from("a"))),
        Err(RegistryError::NotFound)
    );
    assert_eq!(
        registry.update_output_ports(42, PipewirePorts::Mono(String::from("a"))),
        Err(RegistryError::NotFound)
    );
    assert_eq!(registry.get_all_inputs().to_vec(), inputs);
    assert_eq!(registry.get_all_outputs().to_vec(), outputs);
    assert!(in_rx.try_recv().is_err());
    assert!(out_rx.try_recv().is_err());
}

#[test]
fn rename_changes_only_the_name() {
    let (mut registry, mut in_rx, _out_rx) = seeded();
    let before = registry.get_all_inputs().to_vec();
    assert_eq!(registry.update_input_name(4, "Rev2"), Ok(()));
    let after = registry.get_all_inputs().to_vec();
    for (old, new) in before.iter().zip(after.iter()) {
        if old.id == 4 {
            assert_eq!(new.name, "Rev2");
            assert_eq!(new.pipewire_ports, old.pipewire_ports);
            assert_eq!(new.group_channel_strip_name, "Melody");
        } else {
            assert_eq!(new, old);
        }
    }
    assert_eq!(in_rx.try_recv().unwrap(), after);
}

#[test]
fn rebinding_twice_equals_rebinding_once() {
    let (mut once, _rx1, _orx1) = seeded();
    let (mut twice, mut rx2, _orx2) = seeded();
    let ports = PipewirePorts::Stereo(String::from("l"), String::from("r"));
    assert_eq!(once.update_input_ports(3, ports.clone()), Ok(()));
    assert_eq!(twice.update_input_ports(3, ports.clone()), Ok(()));
    assert_eq!(twice.update_input_ports(3, ports), Ok(()));
    assert_eq!(once.get_all_inputs(), twice.get_all_inputs());
    let first = rx2.try_recv().unwrap();
    let second = rx2.try_recv().unwrap();
    assert_eq!(first, second);
}

#[test]
fn output_rebinding_is_queued_for_the_outputs_writer() {
    let (mut registry, mut in_rx, mut out_rx) = seeded();
    assert_eq!(
        registry.update_output_ports(2, PipewirePorts::Mono(String::from("cue:l"))),
        Ok(())
    );
    let cue = registry.output_by_id(2).unwrap();
    assert_eq!(cue.name, "Cue");
    assert_eq!(cue.output_type, MixerOutputType::Cue);
    assert_eq!(cue.pipewire_ports, PipewirePorts::Mono(String::from("cue:l")));
    assert_eq!(out_rx.try_recv().unwrap(), registry.get_all_outputs().to_vec());
    assert!(in_rx.try_recv().is_err());
}

#[test]
fn change_after_writer_stopped_reports_writer_gone() {
    let (mut registry, in_rx, _out_rx) = seeded();
    drop(in_rx);
    assert_eq!(registry.update_input_name(1, "Kick"), Err(RegistryError::WriterGone));
    assert_eq!(registry.input_by_id(1).unwrap().name, "Kick");
}

#[test]
fn cross_faded_strip_keeps_its_five_plugins() {
    let (mut registry, _in_rx, _out_rx) = seeded();
    let mut request = strip_request(PmxChannelStripType::CrossFaded, 7, Some(5));
    request.name = String::from("Deck A");
    registry.register_channel_strip(request);
    let strip = registry.get_channel_strip_by_id(7).unwrap();
    assert_eq!(strip.id, 7);
    assert_eq!(strip.name, "Deck A");
    assert_eq!(
        strip.channel_strip_type,
        ChannelStripType::CrossFaded {
            cross_fader_plugin_id: 5,
            saturator_plugin_id: 1,
            compressor_plugin_id: 2,
            equalizer_plugin_id: 3,
            gain_plugin_id: 4,
        }
    );
}

#[test]
fn basic_strip_has_no_cross_fader() {
    let (mut registry, _in_rx, _out_rx) = seeded();
    registry.register_channel_strip(strip_request(PmxChannelStripType::Basic, 8, Some(9)));
    assert_eq!(
        registry.get_channel_strip_by_id(8).unwrap().channel_strip_type,
        ChannelStripType::Basic {
            saturator_plugin_id: 1,
            compressor_plugin_id: 2,
            equalizer_plugin_id: 3,
            gain_plugin_id: 4,
        }
    );
    assert_eq!(registry.get_all_channel_strips().len(), 1);
}

#[test]
fn duplicate_registration_keeps_both_and_reads_the_first() {
    let (mut registry, _in_rx, _out_rx) = seeded();
    let plugin = |name: &str| PmxPlugin {
        id: 10,
        mod_host_id: 3,
        name: String::from(name),
        plugin_uri: String::from("urn:x"),
        plugin_type: pmx_registry::pmx::PmxPluginType::Lv2,
    };
    registry.register_plugin(plugin("first"));
    registry.register_plugin(plugin("second"));
    assert_eq!(registry.get_all_plugins().len(), 2);
    let found = registry.get_plugin_by_id(10).unwrap();
    assert_eq!(found.name, "first");
    assert_eq!(found.plugin_type, PluginType::Lv2);
    assert_eq!(found.mod_host_id, 3);
}

#[test]
fn loopers_and_output_stages_are_appended() {
    let (mut registry, _in_rx, _out_rx) = seeded();
    registry.register_looper(PmxLooper { id: 2, name: String::from("loop_2"), loop_number: 2 });
    registry.register_output_stage(PmxOutputStage {
        id: 0,
        name: String::from("Stage"),
        left_channel_strip_id: 1,
        right_channel_strip_id: 2,
        cross_fader_plugin_id: 3,
    });
    assert_eq!(registry.get_looper_by_id(2).unwrap().name, "loop_2");
    assert_eq!(registry.get_all_loopers().len(), 1);
    let stages = registry.get_all_output_stages();
    assert_eq!(stages.len(), 1);
    assert_eq!(stages[0].left_channel_strip_id, 1);
    assert_eq!(stages[0].right_channel_strip_id, 2);
    assert_eq!(stages[0].cross_fader_plugin_id, 3);
}

#[test]
fn seed_data_is_the_built_in_set() {
    let inputs = default_inputs();
    let ids: Vec<u32> = inputs.iter().map(|i| i.id).collect();
    assert_eq!(ids, vec![1, 2, 3, 4, 5, 6, 7, 8, 9]);
    assert_eq!(inputs[3].name, "Prophet rev2");
    assert_eq!(inputs[4].group_channel_strip_name, "Bass");
    assert_eq!(inputs[5].group_channel_strip_name, "Atmos");
    assert!(inputs.iter().all(|i| i.pipewire_ports == PipewirePorts::Unbound));
    let outputs = default_outputs();
    assert_eq!(outputs.len(), 3);
    assert_eq!(outputs[0].name, "Main");
    assert_eq!(outputs[1].output_type, MixerOutputType::Cue);
    assert_eq!(outputs[2].name, "Main 2");
    assert_eq!(outputs[2].id, 3);
}
