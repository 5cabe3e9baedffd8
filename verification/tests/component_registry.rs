use cluaiz::registry::registry_index::{
    default_schema, default_true, default_version, ComponentTable, ExecutionMode, ListFilter, LoadStrategy,
    MasterRegistry, RegistryEntry,
};

fn component(name: &str, enabled: bool, load: LoadStrategy) -> RegistryEntry {
    RegistryEntry {
        name: name.to_string(),
        id: name.to_string(),
        enabled,
        load_strategy: load,
        ..RegistryEntry::default()
    }
}

fn names(v: &[(String, &'static str, &RegistryEntry)]) -> Vec<(String, &'static str)> {
    v.iter().map(|(n, t, _)| (n.clone(), *t)).collect()
}

#[test]
fn registry_file_defaults() {
    assert!(default_true());
    assert_eq!(default_version(), "1.0.0");
    assert_eq!(default_schema(), "cluaiz-registry-v1");
    let e = RegistryEntry::default();
    assert_eq!(e.load_strategy, LoadStrategy::Lazy);
    assert_eq!(e.execution_mode, ExecutionMode::Auto);
    assert!(!e.enabled);
    assert_eq!(MasterRegistry::registry_path("/cfg"), "/cfg/registry.yaml");
    assert_eq!(MasterRegistry::registry_bin_path("/cfg"), "/cfg/registry.bin");
}

#[test]
fn component_table_operations() {
    let mut t = ComponentTable::new();
    t.insert("a".to_string(), component("a", true, LoadStrategy::Eager));
    t.insert("b".to_string(), component("b", false, LoadStrategy::Lazy));
    assert_eq!(t.len(), 2);
    assert_eq!(t.position("b"), Some(1));
    assert_eq!(t.position("z"), None);
    assert!(t.set_enabled_of("b", true));
    assert!(t.get("b").unwrap().enabled);
    assert!(!t.set_enabled_of("z", true));
    assert!(t.set_execution_mode_of("a", ExecutionMode::Manual));
    assert_eq!(t.get("a").unwrap().execution_mode, ExecutionMode::Manual);
    let removed = t.remove("a").unwrap();
    assert_eq!(removed.name, "a");
    assert!(t.remove("a").is_none());
    assert_eq!(t.entries().len(), 1);

    let mut u = ComponentTable::new();
    u.insert("x".to_string(), component("x", true, LoadStrategy::Eager));
    u.insert("y".to_string(), component("y", true, LoadStrategy::Lazy));
    u.insert("z".to_string(), component("z", true, LoadStrategy::Lazy));
    assert!(u.retain_live(&["z".to_string(), "x".to_string()]));
    let kept: Vec<String> = u.entries().iter().map(|(k, _)| k.clone()).collect();
    assert_eq!(kept, vec!["x".to_string(), "z".to_string()]);
    assert!(!u.retain_live(&["z".to_string(), "x".to_string()]));

    let mut out = Vec::new();
    u.list_into("plugin", ListFilter::EnabledLazy, &mut out);
    assert_eq!(names(&out), vec![("z".to_string(), "plugin")]);
}

#[test]
fn master_registry_toggles_and_lists() {
    let mut reg = MasterRegistry::default();
    assert!(reg.register_component("plugins", "p-eager", component("p-eager", true, LoadStrategy::Eager)).is_ok());
    assert!(reg.register_component("plugin", "p-lazy", component("p-lazy", true, LoadStrategy::Lazy)).is_ok());
    assert!(reg.register_component("mcp", "m-off", component("m-off", false, LoadStrategy::Eager)).is_ok());
    assert!(reg.register_component("skill", "s", component("s", true, LoadStrategy::Eager)).is_ok());

    assert_eq!(
        names(&reg.eager_components()),
        vec![("p-eager".to_string(), "plugin"), ("s".to_string(), "skill")]
    );
    assert!(reg.set_enabled("mcp", "m-off", true).is_ok());
    assert_eq!(
        names(&reg.eager_components()),
        vec![("p-eager".to_string(), "plugin"), ("m-off".to_string(), "mcp"), ("s".to_string(), "skill")]
    );
    assert_eq!(names(&reg.lazy_watch_list()), vec![("p-lazy".to_string(), "plugin")]);
    assert_eq!(reg.list_all().len(), 3);

    assert!(reg.set_execution_mode("skills", "s", ExecutionMode::Manual).is_ok());
    assert_eq!(reg.skills.get("s").unwrap().execution_mode, ExecutionMode::Manual);
    assert_eq!(
        reg.set_enabled("widget", "s", true).err().map(|e| e.message()),
        Some("Unknown component type: widget".to_string())
    );
    assert_eq!(
        reg.set_execution_mode("mcp", "nope", ExecutionMode::Auto).err().map(|e| e.message()),
        Some("Component 'nope' not found in registry".to_string())
    );

    let changed = reg.sync_with_filesystem(&["p-lazy".to_string()], &["m-off".to_string()], &[]);
    assert!(changed);
    assert!(reg.plugins.get("p-eager").is_none());
    assert!(reg.plugins.get("p-lazy").is_some());
    assert_eq!(reg.skills.len(), 0);
    assert!(!reg.sync_with_filesystem(&["p-lazy".to_string()], &["m-off".to_string()], &[]));
}
