use phantomlink::catalog::{VstCategory, VstPluginInfo, VstScanner};

fn info(name: &str, category: VstCategory) -> VstPluginInfo {
    VstPluginInfo {
        path: format!("/usr/lib/vst/{}.so", name),
        name: name.to_string(),
        vendor: "acme".to_string(),
        category,
        unique_id: 1,
        version: 1,
        inputs: 2,
        outputs: 2,
        parameters: 0,
        is_synth: category == VstCategory::Synth,
    }
}

#[test]
fn scan_paths_with_home() {
    let s = VstScanner::with_home(Some("/home/ann".to_string()));
    let paths: Vec<&str> = s.get_scan_paths().iter().map(|p| p.as_str()).collect();
    assert_eq!(
        paths,
        vec![
            "/usr/lib/vst",
            "/usr/local/lib/vst",
            "/usr/lib/lxvst",
            "/usr/local/lib/lxvst",
            "/home/ann/.vst",
            "/home/ann/.local/lib/vst"
        ]
    );
    assert!(s.get_plugins().is_empty());
}

#[test]
fn scan_paths_without_home() {
    let s = VstScanner::with_home(None);
    assert_eq!(s.get_scan_paths().len(), 4);
    let n = VstScanner::new();
    assert!(n.get_scan_paths().len() == 4 || n.get_scan_paths().len() == 6);
}

#[test]
fn category_filter_keeps_order() {
    let mut s = VstScanner::with_home(None);
    s.scan(vec![
        info("a", VstCategory::Effect),
        info("b", VstCategory::Synth),
        info("c", VstCategory::Effect),
    ]);
    let effects: Vec<&str> = s.get_plugins_by_category(VstCategory::Effect).iter().map(|p| p.name.as_str()).collect();
    assert_eq!(effects, vec!["a", "c"]);
    assert!(s.get_plugins_by_category(VstCategory::Shell).is_empty());
    assert_eq!(s.get_plugins().len(), 3);
}

#[test]
fn find_by_name_returns_first_match() {
    let mut s = VstScanner::with_home(None);
    s.scan(vec![
        info("a", VstCategory::Effect),
        info("b", VstCategory::Synth),
        info("b", VstCategory::Effect),
    ]);
    let found = s.find_plugin_by_name("b").unwrap();
    assert_eq!(found.category, VstCategory::Synth);
    assert!(s.find_plugin_by_name("z").is_none());
}
