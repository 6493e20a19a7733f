use audio_host::{
    ChainError, DummyPlugin, PluginChain, PluginFormat, PluginMetadata, PluginState, Processor,
};

fn create_dummy_plugin(name: &str) -> Processor {
    Processor::Dummy(DummyPlugin::new(PluginMetadata {
        id: name.to_string(),
        name: name.to_string(),
        vendor: "Test".to_string(),
        version: "1.0".to_string(),
        path: "/test".to_string(),
        format: PluginFormat::AudioUnit,
        num_inputs: 2,
        num_outputs: 2,
    }))
}

#[test]
fn test_add_plugin() {
    let mut chain = PluginChain::new();
    assert_eq!(chain.len(), 0);

    chain.add_plugin(create_dummy_plugin("Plugin1")).unwrap();
    assert_eq!(chain.len(), 1);

    chain.add_plugin(create_dummy_plugin("Plugin2")).unwrap();
    assert_eq!(chain.len(), 2);
}

#[test]
fn test_max_plugins() {
    let mut chain = PluginChain::new();

    for i in 0..8 {
        chain.add_plugin(create_dummy_plugin(&format!("Plugin{}", i))).unwrap();
    }

    assert!(chain.add_plugin(create_dummy_plugin("Plugin9")).is_err());
}

#[test]
fn test_remove_plugin() {
    let mut chain = PluginChain::new();
    chain.add_plugin(create_dummy_plugin("Plugin1")).unwrap();
    chain.add_plugin(create_dummy_plugin("Plugin2")).unwrap();

    let removed = chain.remove_plugin(0).unwrap();
    assert_eq!(removed.get_info().name, "Plugin1");
    assert_eq!(chain.len(), 1);
}

#[test]
fn test_ninth_add_fails_full() {
    let mut chain = PluginChain::new();
    for i in 0..8 {
        assert!(chain.add_plugin(create_dummy_plugin(&format!("P{}", i))).is_ok());
    }
    assert_eq!(chain.len(), 8);
    let err = chain.add_plugin(create_dummy_plugin("P8")).unwrap_err();
    assert_eq!(err, ChainError::ChainFull);
    assert_eq!(chain.len(), 8);
}

#[test]
fn test_remove_leaves_second() {
    let mut chain = PluginChain::new();
    chain.add_plugin(create_dummy_plugin("First")).unwrap();
    chain.add_plugin(create_dummy_plugin("Second")).unwrap();

    let removed = chain.remove_plugin(0).unwrap();
    assert_eq!(removed.get_info().name, "First");
    assert_eq!(chain.len(), 1);
    let names = chain.get_plugin_names();
    assert_eq!(names, vec!["Second".to_string()]);
}

#[test]
fn test_insert_and_move() {
    let mut chain = PluginChain::new();
    chain.add_plugin(create_dummy_plugin("A")).unwrap();
    chain.add_plugin(create_dummy_plugin("C")).unwrap();
    chain.insert_plugin(1, create_dummy_plugin("B")).unwrap();
    assert_eq!(
        chain.get_plugin_names(),
        vec!["A".to_string(), "B".to_string(), "C".to_string()]
    );

    chain.move_plugin(0, 2).unwrap();
    assert_eq!(
        chain.get_plugin_names(),
        vec!["B".to_string(), "C".to_string(), "A".to_string()]
    );
}

#[test]
fn test_index_out_of_range() {
    let mut chain = PluginChain::new();
    chain.add_plugin(create_dummy_plugin("Only")).unwrap();

    assert_eq!(chain.insert_plugin(2, create_dummy_plugin("X")).unwrap_err(), ChainError::IndexOutOfRange);
    assert_eq!(chain.remove_plugin(1).unwrap_err(), ChainError::IndexOutOfRange);
    assert_eq!(chain.move_plugin(0, 1).unwrap_err(), ChainError::IndexOutOfRange);
    assert_eq!(chain.move_plugin(1, 0).unwrap_err(), ChainError::IndexOutOfRange);
    assert_eq!(chain.get_plugin_names(), vec!["Only".to_string()]);
}

#[test]
fn test_clear_and_is_empty() {
    let mut chain = PluginChain::new();
    assert!(chain.is_empty());
    chain.add_plugin(create_dummy_plugin("A")).unwrap();
    assert!(!chain.is_empty());
    chain.clear();
    assert!(chain.is_empty());
    assert_eq!(chain.len(), 0);
}

#[test]
fn test_chain_process_passes_through() {
    let mut chain = PluginChain::new();
    chain.add_plugin(create_dummy_plugin("A")).unwrap();
    chain.add_plugin(create_dummy_plugin("B")).unwrap();
    let mut buffer: Vec<u32> = vec![0.5f32.to_bits(), 0.25f32.to_bits(), (-1.5f32).to_bits()];
    let sent = buffer.clone();
    chain.process(&mut buffer);
    assert_eq!(buffer, sent);
    assert_eq!(chain.len(), 2);
}

#[test]
fn test_processor_surface_is_trivial() {
    let mut plugin = create_dummy_plugin("Thru");

    assert!(plugin.get_parameter(0).is_none());
    assert!(plugin.get_parameter(42).is_none());
    assert!(plugin.get_all_parameters().is_empty());

    let state = plugin.save_state();
    assert_eq!(state.plugin_id, "Thru");
    assert!(state.parameters.is_empty());
    assert_eq!(state.state_data, "");

    // Setting a parameter and loading state change nothing observable.
    plugin.set_parameter(7, 0.5f64.to_bits());
    plugin.load_state(&state);
    assert!(plugin.get_parameter(7).is_none());
    assert_eq!(plugin.save_state().plugin_id, "Thru");
}

#[test]
fn test_save_chain_state_ids() {
    let mut chain = PluginChain::new();
    chain.add_plugin(create_dummy_plugin("A")).unwrap();
    chain.add_plugin(create_dummy_plugin("B")).unwrap();
    let states = chain.save_chain_state();
    assert_eq!(states.len(), 2);
    assert_eq!(states[0].plugin_id, "A");
    assert_eq!(states[1].plugin_id, "B");
}

#[test]
fn test_load_chain_state_count_mismatch_is_noop() {
    let mut chain = PluginChain::new();
    chain.add_plugin(create_dummy_plugin("A")).unwrap();
    chain.add_plugin(create_dummy_plugin("B")).unwrap();

    let before: Vec<Vec<audio_host::PluginParameter>> = vec![
        chain_params(&chain, 0),
        chain_params(&chain, 1),
    ];

    // One state for a two-processor chain: nothing may be applied.
    let states = vec![PluginState {
        plugin_id: "A".to_string(),
        parameters: Vec::new(),
        state_data: String::new(),
    }];
    chain.load_chain_state(&states);

    assert_eq!(chain.len(), 2);
    assert_eq!(chain.get_plugin_names(), vec!["A".to_string(), "B".to_string()]);
    for (i, params) in before.iter().enumerate() {
        let after = chain_params(&chain, i);
        assert_eq!(params.len(), after.len());
    }
}

fn chain_params(chain: &PluginChain, index: usize) -> Vec<audio_host::PluginParameter> {
    // The chain exposes states rather than processors; parameters ride in
    // the saved state.
    let states = chain.save_chain_state();
    states[index].parameters.iter().map(|p| p.clone()).collect()
}
