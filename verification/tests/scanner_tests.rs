use audio_host::{LoadError, PluginLoader, PluginScanner, ScanError};

#[test]
fn test_scan_plugin_valid() {
    let scanner = PluginScanner::new();
    let info = scanner
        .scan_plugin("/Library/Audio/Plug-Ins/Components/Delay.component", true)
        .unwrap();
    assert!(info.valid);
    assert!(info.error.is_none());
    assert_eq!(info.metadata.id, "au:Delay");
    assert_eq!(info.metadata.name, "Delay");
    assert_eq!(info.metadata.vendor, "Unknown");
    assert_eq!(info.metadata.version, "0.0.0");
    assert_eq!(
        info.metadata.path,
        "/Library/Audio/Plug-Ins/Components/Delay.component"
    );
}

#[test]
fn test_scan_plugin_missing_binary() {
    let scanner = PluginScanner::new();
    let err = scanner.scan_plugin("/x/Empty.component", false).unwrap_err();
    assert_eq!(err, ScanError::MissingBinary);
}

#[test]
fn test_scan_plugin_invalid_name() {
    let scanner = PluginScanner::new();
    let err = scanner.scan_plugin("/plugins/", true).unwrap_err();
    assert_eq!(err, ScanError::InvalidName);
}

#[test]
fn test_scanner_cache_location() {
    let scanner = PluginScanner::new();
    assert_eq!(scanner.cache_file, "plugin_cache.json");
}

#[test]
fn test_loader_records_and_forgets_ids() {
    let mut loader = PluginLoader::new();
    assert!(loader.get_loaded_plugins().is_empty());

    let p1 = loader.load_plugin("/c/Gain.component").unwrap();
    let _p2 = loader.load_plugin("/c/Verb.component").unwrap();
    assert_eq!(
        loader.get_loaded_plugins(),
        &vec!["au:Gain".to_string(), "au:Verb".to_string()]
    );

    loader.unload_plugin(p1);
    assert_eq!(loader.get_loaded_plugins(), &vec!["au:Verb".to_string()]);
}

#[test]
fn test_load_from_info() {
    let scanner = PluginScanner::new();
    let mut loader = PluginLoader::new();

    let good = scanner.scan_plugin("/c/Comp.component", true).unwrap();
    let plugin = loader.load_from_info(&good).unwrap();
    assert_eq!(plugin.get_info().id, "au:Comp");
    // The valid entry's id was recorded, exactly as load_plugin records it.
    assert_eq!(loader.get_loaded_plugins(), &vec!["au:Comp".to_string()]);

    let mut bad = scanner.scan_plugin("/c/Broken.component", true).unwrap();
    bad.valid = false;
    bad.error = Some("binary refused to load".to_string());
    // The refusal carries the reason the scan recorded, and nothing was
    // added to the id list.
    let LoadError::InvalidPlugin { reason } = loader.load_from_info(&bad).unwrap_err();
    assert_eq!(reason, Some("binary refused to load".to_string()));
    assert_eq!(loader.get_loaded_plugins(), &vec!["au:Comp".to_string()]);
}

#[test]
fn test_load_from_metadata() {
    let scanner = PluginScanner::new();
    let mut loader = PluginLoader::new();
    let info = scanner.scan_plugin("/c/Chorus.component", true).unwrap();
    let plugin = loader.load_from_metadata(&info.metadata).unwrap();
    assert_eq!(plugin.get_info().name, "Chorus");
}
