use pmx_registry::coalesce::{on_snapshot, WriterStep};
use pmx_registry::entities::{MixerInput, MixerOutput, PipewirePorts};
use pmx_registry::pmx::{
    PmxChannelStrip, PmxChannelStripType, PmxInput, PmxInputType, PmxOutputType, PmxPlugin,
    PmxPluginType, INPUT_TYPE_MONO, INPUT_TYPE_NONE, INPUT_TYPE_STEREO,
};
use pmx_registry::registry::RegistryError;
use pmx_registry::seed::{default_inputs, default_outputs};
use pmx_registry::service::{
    input_ports_from_request, looper_name_of, output_ports_from_request, PmxRegistryService,
};
use tokio::sync::mpsc::{unbounded_channel, UnboundedReceiver};

fn service() -> (PmxRegistryService, UnboundedReceiver<Vec<MixerInput>>, UnboundedReceiver<Vec<MixerOutput>>) {
    let (in_tx, in_rx) = unbounded_channel();
    let (out_tx, out_rx) = unbounded_channel();
    (PmxRegistryService::new(default_inputs(), default_outputs(), in_tx, out_tx), in_rx, out_rx)
}

fn s(v: &str) -> Option<String> {
    Some(String::from(v))
}

#[test]
fn stereo_with_left_path_only_is_invalid() {
    let (mut svc, mut in_rx, _out_rx) = service();
    let before = svc.list_inputs();
    assert_eq!(
        svc.update_input_port_assignments(1, INPUT_TYPE_STEREO, s("in:l"), None),
        Err(RegistryError::InvalidArgument)
    );
    assert_eq!(svc.list_inputs(), before);
    assert!(in_rx.try_recv().is_err());
}

#[test]
fn invalid_request_wins_over_unknown_id() {
    let (mut svc, _in_rx, _out_rx) = service();
    assert_eq!(
        svc.update_input_port_assignments(99, 7, None, None),
        Err(RegistryError::InvalidArgument)
    );
    assert_eq!(
        svc.update_input_port_assignments(99, INPUT_TYPE_MONO, None, s("r")),
        Err(RegistryError::InvalidArgument)
    );
    assert_eq!(
        svc.update_input_port_assignments(99, INPUT_TYPE_NONE, None, None),
        Err(RegistryError::NotFound)
    );
}

#[test]
fn input_assignments_show_the_new_binding() {
    let (mut svc, mut in_rx, _out_rx) = service();
    let shown = svc
        .update_input_port_assignments(2, INPUT_TYPE_STEREO, s("a:l"), s("a:r"))
        .unwrap();
    assert_eq!(shown.input_type, PmxInputType::StereoInput);
    assert_eq!(shown.left_port_path, s("a:l"));
    assert_eq!(shown.right_port_path, s("a:r"));
    assert_eq!(shown.name, "DFire");
    let shown = svc
        .update_input_port_assignments(2, INPUT_TYPE_MONO, s("m"), s("ignored"))
        .unwrap();
    assert_eq!(shown.input_type, PmxInputType::MonoInput);
    assert_eq!(shown.left_port_path, s("m"));
    assert_eq!(shown.right_port_path, None);
    let shown = svc.update_input_port_assignments(2, INPUT_TYPE_NONE, s("x"), s("y")).unwrap();
    assert_eq!(shown.input_type, PmxInputType::NoInput);
    assert_eq!(shown.left_port_path, None);
    assert_eq!(in_rx.try_recv().unwrap()[1].pipewire_ports, PipewirePorts::Stereo(String::from("a:l"), String::from("a:r")));
}

#[test]
fn renamed_input_is_shown_and_read_back() {
    let (mut svc, _in_rx, _out_rx) = service();
    let shown = svc.update_input_name(5, String::from("Bass 2")).unwrap();
    assert_eq!(shown.name, "Bass 2");
    assert_eq!(shown.group_channel_strip_name, "Bass");
    assert_eq!(svc.get_input(5).unwrap(), shown);
    assert_eq!(svc.update_input_name(50, String::from("x")), Err(RegistryError::NotFound));
    assert_eq!(svc.get_input(50), Err(RegistryError::NotFound));
}

#[test]
fn record_of_an_input_follows_its_binding() {
    let input = MixerInput::new("Synth", PipewirePorts::Stereo(String::from("l"), String::from("r")), 3, "Melody");
    let shown = PmxInput::from(&input);
    assert_eq!(shown.id, 3);
    assert_eq!(shown.input_type, PmxInputType::StereoInput);
    assert_eq!(shown.left_port_path, s("l"));
    assert_eq!(shown.right_port_path, s("r"));
    assert_eq!(shown.group_channel_strip_name, "Melody");
}

#[test]
fn output_assignments_map_paths_to_bindings() {
    assert_eq!(output_ports_from_request(None, None), PipewirePorts::Unbound);
    assert_eq!(output_ports_from_request(None, s("r")), PipewirePorts::Mono(String::from("r")));
    assert_eq!(output_ports_from_request(s("l"), None), PipewirePorts::Mono(String::from("l")));
    assert_eq!(
        output_ports_from_request(s("l"), s("r")),
        PipewirePorts::Stereo(String::from("l"), String::from("r"))
    );
    let (mut svc, _in_rx, mut out_rx) = service();
    let shown = svc.update_output_port_assignments(1, s("main:l"), None).unwrap();
    assert_eq!(shown.output_type, PmxOutputType::Main);
    assert_eq!(shown.left_port_path, s("main:l"));
    assert_eq!(shown.right_port_path, s("main:l"));
    assert_eq!(out_rx.try_recv().unwrap()[0].pipewire_ports, PipewirePorts::Mono(String::from("main:l")));
    assert_eq!(svc.update_output_port_assignments(9, None, None), Err(RegistryError::NotFound));
    assert_eq!(svc.list_outputs().len(), 3);
}

#[test]
fn input_request_decoding() {
    assert_eq!(input_ports_from_request(INPUT_TYPE_NONE, None, None), Ok(PipewirePorts::Unbound));
    assert_eq!(
        input_ports_from_request(INPUT_TYPE_MONO, s("p"), None),
        Ok(PipewirePorts::Mono(String::from("p")))
    );
    assert_eq!(input_ports_from_request(INPUT_TYPE_STEREO, None, s("r")), Err(RegistryError::InvalidArgument));
    assert_eq!(input_ports_from_request(-1, s("l"), s("r")), Err(RegistryError::InvalidArgument));
    assert_eq!(PmxInputType::from_code(INPUT_TYPE_MONO), Some(PmxInputType::MonoInput));
    assert_eq!(PmxInputType::from_code(3), None);
    assert_eq!(PmxInputType::StereoInput.code(), INPUT_TYPE_STEREO);
}

#[test]
fn channel_strip_registration_through_the_service() {
    let (mut svc, _in_rx, _out_rx) = service();
    let request = PmxChannelStrip {
        id: 4,
        name: String::from("Deck"),
        channel_strip_type: PmxChannelStripType::CrossFaded,
        cross_fader_plugin_id: Some(5),
        saturator_plugin_id: 1,
        compressor_plugin_id: 2,
        equalizer_plugin_id: 3,
        gain_plugin_id: 4,
    };
    assert_eq!(svc.register_channel_strip(request.clone()), Ok(request.clone()));
    let mut incomplete = request.clone();
    incomplete.cross_fader_plugin_id = None;
    assert_eq!(svc.register_channel_strip(incomplete), Err(RegistryError::InvalidArgument));
    let mut basic = request.clone();
    basic.id = 6;
    basic.channel_strip_type = PmxChannelStripType::Basic;
    let shown = svc.register_channel_strip(basic).unwrap();
    assert_eq!(shown.cross_fader_plugin_id, None);
    assert_eq!(svc.list_channel_strips().len(), 2);
}

#[test]
fn plugin_registration_through_the_service() {
    let (mut svc, _in_rx, _out_rx) = service();
    let plugin = PmxPlugin {
        id: 1,
        mod_host_id: 11,
        name: String::from("Comp"),
        plugin_uri: String::from("urn:comp"),
        plugin_type: PmxPluginType::Lv2,
    };
    assert_eq!(svc.register_plugin(plugin.clone()), plugin);
    assert_eq!(svc.list_plugins(), vec![plugin]);
}

#[test]
fn looper_takes_its_number_as_id_and_name() {
    assert_eq!(looper_name_of(0), "loop_0");
    assert_eq!(looper_name_of(4294967295), "loop_4294967295");
    let (mut svc, _in_rx, _out_rx) = service();
    let looper = svc.register_looper(12);
    assert_eq!(looper.id, 12);
    assert_eq!(looper.name, "loop_12");
    assert_eq!(looper.loop_number, 12);
    assert_eq!(svc.list_loopers(), vec![looper]);
}

#[test]
fn output_stages_are_shown_with_id_zero() {
    let (mut svc, _in_rx, _out_rx) = service();
    let stage = svc.register_output_stage(String::from("Stage"), 1, 2, 3);
    assert_eq!(stage.id, 0);
    assert_eq!(stage.name, "Stage");
    assert_eq!(svc.list_output_stages(), vec![stage]);
}

#[test]
fn writer_persists_only_when_queue_is_empty() {
    assert!(matches!(on_snapshot(5u32, true), WriterStep::Persist(5)));
    assert!(matches!(on_snapshot(5u32, false), WriterStep::Skip));
}

#[test]
fn burst_of_renames_persists_only_the_last_state() {
    let (mut svc, mut in_rx, _out_rx) = service();
    for name in ["S", "Sy", "Syn", "Synth"] {
        svc.update_input_name(1, String::from(name)).unwrap();
    }
    let mut written: Vec<Vec<MixerInput>> = Vec::new();
    while let Ok(snapshot) = in_rx.try_recv() {
        if let WriterStep::Persist(s) = on_snapshot(snapshot, in_rx.is_empty()) {
            written.push(s);
        }
    }
    assert_eq!(written.len(), 1);
    assert_eq!(written[0][0].name, "Synth");
    let mut expected = default_inputs();
    expected[0].name = String::from("Synth");
    assert_eq!(written[0], expected);
}

#[test]
fn registration_under_a_taken_id_shows_the_new_copy() {
    let (mut svc, _in_rx, _out_rx) = service();
    let first = PmxChannelStrip {
        id: 3,
        name: String::from("Old"),
        channel_strip_type: PmxChannelStripType::Basic,
        cross_fader_plugin_id: None,
        saturator_plugin_id: 1,
        compressor_plugin_id: 2,
        equalizer_plugin_id: 3,
        gain_plugin_id: 4,
    };
    let mut second = first.clone();
    second.name = String::from("New");
    second.gain_plugin_id = 9;
    assert_eq!(svc.register_channel_strip(first.clone()), Ok(first));
    assert_eq!(svc.register_channel_strip(second.clone()), Ok(second));
    assert_eq!(svc.list_channel_strips().len(), 2);

    let plugin = |name: &str| PmxPlugin {
        id: 8,
        mod_host_id: 1,
        name: String::from(name),
        plugin_uri: String::from("urn:p"),
        plugin_type: PmxPluginType::Lv2,
    };
    svc.register_plugin(plugin("a"));
    assert_eq!(svc.register_plugin(plugin("b")).name, "b");

    svc.register_looper(5);
    let again = svc.register_looper(5);
    assert_eq!(again.name, "loop_5");
    assert_eq!(svc.list_loopers().len(), 2);
}
