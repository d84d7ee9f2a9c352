use rusty::attr::DynamicEnvVar;
use rusty::config::Config;

#[test]
fn unregistered_name_is_not_found() {
    let c = Config::new();
    assert!(c.get_attribute("anything").is_none());
    let c = Config::standard();
    assert!(c.get_attribute("no_such_attribute").is_none());
}

#[test]
fn registered_attribute_is_found() {
    let mut c = Config::new();
    c.register(
        "token".to_string(),
        DynamicEnvVar::new("TOKEN_VAR".to_string(), None),
    );
    let a = c.get_attribute("token").expect("registered name must be found");
    assert_eq!(a.env_name().as_str(), "TOKEN_VAR");
}

#[test]
fn last_registration_wins() {
    let mut c = Config::new();
    c.register(
        "token".to_string(),
        DynamicEnvVar::new("OLD_VAR".to_string(), None),
    );
    c.register(
        "token".to_string(),
        DynamicEnvVar::new("NEW_VAR".to_string(), Some("newer".to_string())),
    );
    let a = c.get_attribute("token").expect("registered name must be found");
    assert_eq!(a.env_name().as_str(), "NEW_VAR");
    assert_eq!(a.resolve(None), Some("newer".to_string()));
    assert_eq!(c.len(), 2);
}

#[test]
fn re_registration_leaves_other_names_alone() {
    let mut c = Config::new();
    c.register(
        "token".to_string(),
        DynamicEnvVar::new("TOKEN_VAR".to_string(), None),
    );
    c.register(
        "agent".to_string(),
        DynamicEnvVar::new("AGENT_VAR".to_string(), Some("fallback".to_string())),
    );
    c.register(
        "token".to_string(),
        DynamicEnvVar::new("NEW_TOKEN_VAR".to_string(), None),
    );
    let a = c.get_attribute("agent").expect("registered name must be found");
    assert_eq!(a.env_name().as_str(), "AGENT_VAR");
}

#[test]
fn standard_config_registers_the_three_attributes() {
    let c = Config::standard();
    assert_eq!(c.len(), 3);
    let builder = c.get_attribute("builder_token").expect("must be registered");
    assert_eq!(builder.env_name().as_str(), "BUILDER_TOKEN");
    assert_eq!(builder.default_value().as_deref(), None);
    let agent = c.get_attribute("agent_type").expect("must be registered");
    assert_eq!(agent.env_name().as_str(), "CODEGEN_AGENT");
    assert_eq!(agent.default_value().as_deref(), Some("trpc_agent"));
    let bucket = c.get_attribute("snapshot_bucket").expect("must be registered");
    assert_eq!(bucket.env_name().as_str(), "SNAPSHOT_BUCKET");
    assert_eq!(bucket.default_value().as_deref(), None);
}

#[test]
fn builder_token_unset_is_absent() {
    let c = Config::standard();
    let a = c.get_attribute("builder_token").expect("must be registered");
    assert_eq!(a.resolve(None), None);
}

#[test]
fn builder_token_set_is_returned() {
    let c = Config::standard();
    let a = c.get_attribute("builder_token").expect("must be registered");
    assert_eq!(a.resolve(Some("abc123".to_string())), Some("abc123".to_string()));
}

#[test]
fn agent_type_unset_defaults_to_trpc_agent() {
    let c = Config::standard();
    let a = c.get_attribute("agent_type").expect("must be registered");
    assert_eq!(a.resolve(None), Some("trpc_agent".to_string()));
}

#[test]
fn agent_type_set_overrides_default() {
    let c = Config::standard();
    let a = c.get_attribute("agent_type").expect("must be registered");
    assert_eq!(
        a.resolve(Some("custom_agent".to_string())),
        Some("custom_agent".to_string())
    );
}

#[test]
fn snapshot_bucket_empty_string_is_kept() {
    let c = Config::standard();
    let a = c.get_attribute("snapshot_bucket").expect("must be registered");
    assert_eq!(a.resolve(Some(String::new())), Some(String::new()));
    assert_ne!(a.resolve(Some(String::new())), a.resolve(None));
}
