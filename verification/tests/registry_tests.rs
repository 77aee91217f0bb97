use statusline::registry::McpRegistry;

#[test]
fn new_registry_is_empty() {
    let r = McpRegistry::new();
    assert!(r.enabled().is_empty());
    assert!(!r.is_enabled("docs"));
}

#[test]
fn set_enabled_reports_changes() {
    let mut r = McpRegistry::new();
    assert!(r.set_enabled("docs", true));
    assert!(!r.set_enabled("docs", true));
    assert!(r.set_enabled("docs", false));
    assert!(!r.set_enabled("docs", false));
}

#[test]
fn enabling_two_servers_yields_both() {
    let mut r = McpRegistry::new();
    assert!(r.set_enabled("docs", true));
    assert!(r.set_enabled("build", true));
    assert!(r.is_enabled("docs"));
    assert!(r.is_enabled("build"));
    assert!(!r.is_enabled("deploy"));
    let mut names = r.enabled().clone();
    names.sort();
    assert_eq!(names, vec!["build".to_string(), "docs".to_string()]);
}

#[test]
fn disabling_removes_only_that_server() {
    let mut r = McpRegistry::new();
    r.set_enabled("docs", true);
    r.set_enabled("build", true);
    assert!(r.set_enabled("docs", false));
    assert!(!r.is_enabled("docs"));
    assert!(r.is_enabled("build"));
    assert_eq!(r.enabled().len(), 1);
}

#[test]
fn reenabling_keeps_the_set_duplicate_free() {
    let mut r = McpRegistry::new();
    r.set_enabled("docs", true);
    r.set_enabled("docs", true);
    r.set_enabled("docs", false);
    assert!(!r.is_enabled("docs"));
    assert!(r.enabled().is_empty());
}

#[test]
fn enable_all_reconstructs_the_stored_set() {
    let mut r = McpRegistry::new();
    r.enable_all(&vec![
        "docs".to_string(),
        "build".to_string(),
        "docs".to_string(),
    ]);
    assert!(r.is_enabled("docs"));
    assert!(r.is_enabled("build"));
    assert_eq!(r.enabled().len(), 2);

    let mut preloaded = McpRegistry::new();
    preloaded.set_enabled("deploy", true);
    preloaded.enable_all(&vec!["docs".to_string()]);
    assert!(preloaded.is_enabled("deploy"));
    assert!(preloaded.is_enabled("docs"));
}

#[test]
fn clone_and_default_keep_the_set() {
    let mut r = McpRegistry::default();
    assert!(r.enabled().is_empty());
    r.set_enabled("docs", true);
    let copy = r.clone();
    assert_eq!(copy, r);
    assert!(copy.is_enabled("docs"));
}
