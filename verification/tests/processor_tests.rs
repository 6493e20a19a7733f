use audio_host::{AudioProcessorEngine, DummyPlugin, PluginFormat, PluginMetadata, Processor};

fn dummy(name: &str) -> Processor {
    Processor::Dummy(DummyPlugin::new(PluginMetadata {
        id: name.to_string(),
        name: name.to_string(),
        vendor: "Test".to_string(),
        version: "1.0".to_string(),
        path: "/test".to_string(),
        format: PluginFormat::AudioUnit,
        num_inputs: 2,
        num_outputs: 2,
    }))
}

#[test]
fn test_processor_creation() {
    let processor = AudioProcessorEngine::new();
    assert!(!processor.bypass);
}

#[test]
fn test_bypass() {
    let mut processor = AudioProcessorEngine::new();
    processor.set_bypass(true);
    assert!(processor.bypass);

    let mut buffer: Vec<u32> = vec![0.5f32, 0.3, 0.7, 0.2].iter().map(|s| s.to_bits()).collect();
    let original = buffer.clone();
    processor.process_audio(&mut buffer);
    assert_eq!(buffer, original);
}

#[test]
fn test_empty_chain() {
    let mut processor = AudioProcessorEngine::new();
    let mut buffer: Vec<u32> = vec![0.5f32, 0.3, 0.7, 0.2].iter().map(|s| s.to_bits()).collect();
    let original = buffer.clone();

    processor.process_audio(&mut buffer);
    assert_eq!(buffer, original);
}

#[test]
fn test_bypass_with_populated_chain() {
    let mut processor = AudioProcessorEngine::new();
    processor.plugin_chain.add_plugin(dummy("A")).unwrap();
    processor.set_bypass(true);

    let mut buffer: Vec<u32> = vec![1.5f32, -2.0, 0.0, 0.25].iter().map(|s| s.to_bits()).collect();
    let original = buffer.clone();
    processor.process_audio(&mut buffer);
    assert_eq!(buffer, original);
    assert_eq!(processor.get_plugin_chain().len(), 1);
}
