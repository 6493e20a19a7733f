use audio_host::{
    file_stem, handle_input_block, stream_plan, AudioDeviceConfig, AudioProcessorEngine,
    DummyPlugin, EngineError, LevelMeter, PluginFormat, PluginMetadata, Processor, SampleFormat,
    SampleQueue,
};

#[test]
fn test_stream_plan_supported_formats() {
    for format in [SampleFormat::F32, SampleFormat::I16, SampleFormat::U16] {
        let plan = stream_plan(format, 48000).unwrap();
        assert_eq!(plan.format, format);
        assert_eq!(plan.queue_capacity, 96000);
    }
}

#[test]
fn test_stream_plan_unsupported_format() {
    let err = stream_plan(SampleFormat::Other, 44100).unwrap_err();
    assert_eq!(err, EngineError::UnsupportedFormat);
}

#[test]
fn test_handle_input_block_drives_meter_chain_and_queue() {
    let mut meter = LevelMeter::new();
    let mut engine = AudioProcessorEngine::new();
    engine
        .plugin_chain
        .add_plugin(Processor::Dummy(DummyPlugin::new(PluginMetadata {
            id: "au:Thru".to_string(),
            name: "Thru".to_string(),
            vendor: "Test".to_string(),
            version: "1.0".to_string(),
            path: "/test".to_string(),
            format: PluginFormat::AudioUnit,
            num_inputs: 2,
            num_outputs: 2,
        })))
        .unwrap();
    let mut queue = SampleQueue::with_capacity(3);
    let mut block: Vec<u32> = vec![
        0.5f32.to_bits(),
        (-0.75f32).to_bits(),
        0.25f32.to_bits(),
        0.1f32.to_bits(),
    ];
    let sent = block.clone();
    handle_input_block(&mut meter, &mut engine, &mut queue, &mut block);

    let (left_bits, right_bits) = meter.take_peak_bits();
    assert_eq!(f32::from_bits(left_bits), 0.5);
    assert_eq!(f32::from_bits(right_bits), 0.75);

    // The chain passed the block through, and the engine kept its shape.
    assert_eq!(block, sent);
    assert_eq!(engine.plugin_chain.len(), 1);

    // The queue took the first three processed samples; the fourth found
    // it full.
    let out = queue.pop_block(3);
    assert_eq!(out, sent[..3].to_vec());
}

#[test]
fn test_device_config_default() {
    let config = AudioDeviceConfig::default();
    assert_eq!(config.sample_rate, 48000);
    assert_eq!(config.buffer_size, 256);
    assert_eq!(config.channels, 2);
}

#[test]
fn test_file_stem_rules() {
    assert_eq!(file_stem("/a/b/Foo.component"), Some("Foo".to_string()));
    assert_eq!(file_stem("Foo"), Some("Foo".to_string()));
    assert_eq!(file_stem("a.b.c"), Some("a.b".to_string()));
    assert_eq!(file_stem(".hidden"), Some(".hidden".to_string()));
    assert_eq!(file_stem("dir/"), None);
    assert_eq!(file_stem(""), None);
}
