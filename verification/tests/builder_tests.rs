use codex_agent_loop::AgentBuilder;
use codex_agent_loop::AuthPlan;

#[test]
fn new_builder_uses_existing_auth_and_sets_nothing() {
    let b = AgentBuilder::new();
    assert_eq!(b.get_api_key(), None);
    assert!(b.use_existing_auth());
    assert_eq!(b.get_model(), None);
    assert_eq!(b.get_workspace(), None);
    assert_eq!(b.get_config_file(), None);
}

#[test]
fn default_builder_is_new_builder() {
    let b = AgentBuilder::default();
    assert_eq!(b.get_api_key(), None);
    assert!(b.use_existing_auth());
    assert_eq!(b.get_model(), None);
    assert_eq!(b.get_workspace(), None);
    assert_eq!(b.get_config_file(), None);
}

#[test]
fn api_key_replaces_existing_auth() {
    let b = AgentBuilder::new().with_api_key("sk-test");
    assert_eq!(b.get_api_key(), Some("sk-test"));
    assert!(!b.use_existing_auth());
}

#[test]
fn existing_auth_undoes_api_key() {
    let b = AgentBuilder::new().with_model("gpt-4").with_api_key("sk-test").with_existing_auth();
    assert_eq!(b.get_api_key(), None);
    assert!(b.use_existing_auth());
    assert_eq!(b.get_model(), Some("gpt-4"));
}

#[test]
fn last_api_key_wins() {
    let b = AgentBuilder::new().with_api_key("first").with_api_key("second");
    assert_eq!(b.get_api_key(), Some("second"));
    assert!(!b.use_existing_auth());
}

#[test]
fn setters_record_their_values() {
    let b = AgentBuilder::new()
        .with_model("gpt-5.1-codex-max")
        .with_workspace("./my-project")
        .with_config_file("/home/u/.codex/config.toml");
    assert_eq!(b.get_model(), Some("gpt-5.1-codex-max"));
    assert_eq!(b.get_workspace(), Some("./my-project"));
    assert_eq!(b.get_config_file(), Some("/home/u/.codex/config.toml"));
    assert!(b.use_existing_auth());
    assert_eq!(b.get_api_key(), None);
}

#[test]
fn later_model_wins() {
    let b = AgentBuilder::new().with_model("a").with_model("b");
    assert_eq!(b.get_model(), Some("b"));
}

#[test]
fn auth_plan_with_api_key_and_other_env_key() {
    let b = AgentBuilder::new().with_api_key("mine");
    assert_eq!(
        b.auth_plan(Some("theirs")),
        AuthPlan::ApiKey { api_key: "mine".to_string(), replaces_env_key: true }
    );
}

#[test]
fn auth_plan_with_api_key_and_same_env_key() {
    let b = AgentBuilder::new().with_api_key("mine");
    assert_eq!(
        b.auth_plan(Some("mine")),
        AuthPlan::ApiKey { api_key: "mine".to_string(), replaces_env_key: false }
    );
}

#[test]
fn auth_plan_with_api_key_and_no_env_key() {
    let b = AgentBuilder::new().with_api_key("mine");
    assert_eq!(
        b.auth_plan(None),
        AuthPlan::ApiKey { api_key: "mine".to_string(), replaces_env_key: false }
    );
}

#[test]
fn auth_plan_of_default_builder_is_existing_auth() {
    assert_eq!(AgentBuilder::new().auth_plan(Some("env-key")), AuthPlan::ExistingAuth);
    assert_eq!(
        AgentBuilder::new().with_api_key("k").with_existing_auth().auth_plan(None),
        AuthPlan::ExistingAuth
    );
}

#[test]
fn cli_overrides_name_the_model() {
    let b = AgentBuilder::new().with_model("gpt-4");
    assert_eq!(b.cli_overrides(), vec![("model".to_string(), "gpt-4".to_string())]);
}

#[test]
fn cli_overrides_empty_without_model() {
    assert!(AgentBuilder::new().with_workspace("/w").cli_overrides().is_empty());
}

#[test]
fn auth_settings_agree_after_any_steps() {
    let b = AgentBuilder::new()
        .with_model("m")
        .with_api_key("k1")
        .with_workspace("/w")
        .with_existing_auth()
        .with_config_file("/c.toml")
        .with_api_key("k2");
    assert_eq!(b.use_existing_auth(), b.get_api_key().is_none());
    let b = b.with_existing_auth().with_model("n");
    assert_eq!(b.use_existing_auth(), b.get_api_key().is_none());
}
