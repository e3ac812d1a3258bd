//! The settings of an agent, built step by step.
//!
//! Two authentication modes are supported: the credentials of an existing
//! login (the default), or an API key.
use vstd::prelude::*;
use vstd::string::StringExecFns;

use crate::protocol::clone_text;

verus! {

/// Builder for the settings of an agent, with sensible defaults.
pub struct AgentBuilder {
    api_key: Option<String>,
    model: Option<String>,
    workspace: Option<String>,
    config_file: Option<String>,
    use_existing_auth: bool,
}

/// The contents of an [`AgentBuilder`].
pub struct BuilderView {
    pub api_key: Option<Seq<char>>,
    pub model: Option<Seq<char>>,
    pub workspace: Option<Seq<char>>,
    pub config_file: Option<Seq<char>>,
    pub use_existing_auth: bool,
}

impl View for AgentBuilder {
    type V = BuilderView;

    closed spec fn view(&self) -> BuilderView {
        BuilderView {
            api_key: self.api_key.deep_view(),
            model: self.model.deep_view(),
            workspace: self.workspace.deep_view(),
            config_file: self.config_file.deep_view(),
            use_existing_auth: self.use_existing_auth,
        }
    }
}

/// The settings of a new builder: nothing set, existing credentials used.
pub open spec fn default_builder() -> BuilderView {
    BuilderView {
        api_key: None,
        model: None,
        workspace: None,
        config_file: None,
        use_existing_auth: true,
    }
}

/// `b` with the API key `key`, which replaces the existing credentials.
pub open spec fn builder_with_api_key(b: BuilderView, key: Seq<char>) -> BuilderView {
    BuilderView { api_key: Some(key), use_existing_auth: false, ..b }
}

/// `b` back on the existing credentials, without an API key.
pub open spec fn builder_with_existing_auth(b: BuilderView) -> BuilderView {
    BuilderView { api_key: None, use_existing_auth: true, ..b }
}

/// `b` with the model `model`.
pub open spec fn builder_with_model(b: BuilderView, model: Seq<char>) -> BuilderView {
    BuilderView { model: Some(model), ..b }
}

/// `b` with the workspace directory `path`.
pub open spec fn builder_with_workspace(b: BuilderView, path: Seq<char>) -> BuilderView {
    BuilderView { workspace: Some(path), ..b }
}

/// `b` with the configuration file `path`.
pub open spec fn builder_with_config_file(b: BuilderView, path: Seq<char>) -> BuilderView {
    BuilderView { config_file: Some(path), ..b }
}

/// The authentication settings agree: an API key is set exactly when the
/// existing credentials are not used.
pub open spec fn auth_consistent(b: BuilderView) -> bool {
    b.api_key is None <==> b.use_existing_auth
}

/// How an agent authenticates.
#[derive(Debug, Clone, PartialEq, Eq)]
pub enum AuthPlan {
    /// With the builder's API key, put in place of the key that the
    /// environment holds; `replaces_env_key` when the environment holds
    /// another key.
    ApiKey { api_key: String, replaces_env_key: bool },
    /// With the credentials of an existing login.
    ExistingAuth,
    /// Nothing was asked for: existing credentials are used if there are any.
    Unspecified,
}

/// `r` is the authentication that the settings `b` ask for, where the
/// environment holds the key `env_key`.
pub open spec fn auth_plan_result(b: BuilderView, env_key: Option<Seq<char>>, r: AuthPlan) -> bool {
    match b.api_key {
        Some(key) => r matches AuthPlan::ApiKey { api_key, replaces_env_key } && api_key@ == key
            && replaces_env_key == (env_key matches Some(e) && e != key),
        None => if b.use_existing_auth {
            r matches AuthPlan::ExistingAuth
        } else {
            r matches AuthPlan::Unspecified
        },
    }
}

fn str_option(o: &Option<String>) -> (r: Option<&str>)
    ensures
        r.deep_view() == o.deep_view(),
{
    match o {
        Some(s) => Some(s.as_str()),
        None => None,
    }
}

impl AgentBuilder {
    /// Create a new agent builder with default settings.
    ///
    /// By default, the credentials of an existing login are used.
    pub fn new() -> (r: Self)
        ensures
            r@ == default_builder(),
    {
        AgentBuilder {
            api_key: None,
            model: None,
            workspace: None,
            config_file: None,
            use_existing_auth: true,
        }
    }

    /// Set the API key for authentication; the existing credentials are no
    /// longer used.
    pub fn with_api_key(self, api_key: &str) -> (r: Self)
        ensures
            r@ == builder_with_api_key(self@, api_key@),
    {
        AgentBuilder { api_key: Some(String::from_str(api_key)), use_existing_auth: false, ..self }
    }

    /// Use the credentials of an existing login, and no API key. This is
    /// the default.
    pub fn with_existing_auth(self) -> (r: Self)
        ensures
            r@ == builder_with_existing_auth(self@),
    {
        AgentBuilder { api_key: None, use_existing_auth: true, ..self }
    }

    /// Set the model to use.
    pub fn with_model(self, model: &str) -> (r: Self)
        ensures
            r@ == builder_with_model(self@, model@),
    {
        AgentBuilder { model: Some(String::from_str(model)), ..self }
    }

    /// Set the workspace directory for the agent.
    pub fn with_workspace(self, path: &str) -> (r: Self)
        ensures
            r@ == builder_with_workspace(self@, path@),
    {
        AgentBuilder { workspace: Some(String::from_str(path)), ..self }
    }

    /// Set the configuration file; where no workspace is set, the
    /// workspace follows from where this file lives.
    pub fn with_config_file(self, path: &str) -> (r: Self)
        ensures
            r@ == builder_with_config_file(self@, path@),
    {
        AgentBuilder { config_file: Some(String::from_str(path)), ..self }
    }

    /// The API key, if one is set.
    pub fn get_api_key(&self) -> (r: Option<&str>)
        ensures
            r.deep_view() == self@.api_key,
    {
        str_option(&self.api_key)
    }

    /// Whether the credentials of an existing login are used.
    pub fn use_existing_auth(&self) -> (r: bool)
        ensures
            r == self@.use_existing_auth,
    {
        self.use_existing_auth
    }

    /// The model, if one is set.
    pub fn get_model(&self) -> (r: Option<&str>)
        ensures
            r.deep_view() == self@.model,
    {
        str_option(&self.model)
    }

    /// The workspace directory, if one is set.
    pub fn get_workspace(&self) -> (r: Option<&str>)
        ensures
            r.deep_view() == self@.workspace,
    {
        str_option(&self.workspace)
    }

    /// The configuration file, if one is set.
    pub fn get_config_file(&self) -> (r: Option<&str>)
        ensures
            r.deep_view() == self@.config_file,
    {
        str_option(&self.config_file)
    }

    /// How the agent authenticates, where the environment holds the API
    /// key `env_api_key`.
    pub fn auth_plan(&self, env_api_key: Option<&str>) -> (r: AuthPlan)
        ensures
            auth_plan_result(self@, env_api_key.deep_view(), r),
    {
        match &self.api_key {
            Some(key) => {
                let replaces_env_key = match env_api_key {
                    Some(existing) => !(existing.to_owned() == *key),
                    None => false,
                };
                AuthPlan::ApiKey { api_key: key.clone(), replaces_env_key }
            },
            None => if self.use_existing_auth {
                AuthPlan::ExistingAuth
            } else {
                AuthPlan::Unspecified
            },
        }
    }

    /// The configuration overrides that the settings ask for: the model,
    /// under the key `model`, if one is set.
    pub fn cli_overrides(&self) -> (r: Vec<(String, String)>)
        ensures
            self@.model is None ==> r@.len() == 0,
            self@.model matches Some(m) ==> r@.len() == 1 && r@[0].0@ == "model"@ && r@[0].1@
                == m,
    {
        let mut overrides: Vec<(String, String)> = Vec::new();
        match clone_text(&self.model) {
            Some(model) => overrides.push((String::from_str("model"), model)),
            None => {},
        }
        overrides
    }
}

impl Default for AgentBuilder {
    fn default() -> (r: Self)
        ensures
            r@ == default_builder(),
    {
        Self::new()
    }
}

/// The authentication settings agree in a new builder, and every step of
/// the builder keeps them in agreement.
pub proof fn law_builder_auth_consistent(b: BuilderView, text: Seq<char>)
    requires
        auth_consistent(b),
    ensures
        auth_consistent(default_builder()),
        auth_consistent(builder_with_api_key(b, text)),
        auth_consistent(builder_with_existing_auth(b)),
        auth_consistent(builder_with_model(b, text)),
        auth_consistent(builder_with_workspace(b, text)),
        auth_consistent(builder_with_config_file(b, text)),
{
}

/// One step of building an agent's settings.
pub enum BuilderStep {
    ApiKey(Seq<char>),
    ExistingAuth,
    Model(Seq<char>),
    Workspace(Seq<char>),
    ConfigFile(Seq<char>),
}

/// The settings `b` after the step `step`.
pub open spec fn builder_step(b: BuilderView, step: BuilderStep) -> BuilderView {
    match step {
        BuilderStep::ApiKey(key) => builder_with_api_key(b, key),
        BuilderStep::ExistingAuth => builder_with_existing_auth(b),
        BuilderStep::Model(model) => builder_with_model(b, model),
        BuilderStep::Workspace(path) => builder_with_workspace(b, path),
        BuilderStep::ConfigFile(path) => builder_with_config_file(b, path),
    }
}

/// The settings `b` after the steps `steps`, one after the other.
pub open spec fn builder_steps(b: BuilderView, steps: Seq<BuilderStep>) -> BuilderView
    decreases steps.len(),
{
    if steps.len() == 0 {
        b
    } else {
        builder_steps(builder_step(b, steps[0]), steps.drop_first())
    }
}

/// Whatever steps follow one another from a new builder, the authentication
/// settings agree: an API key is set exactly when the existing credentials
/// are not used.
pub proof fn law_built_settings_auth_consistent(steps: Seq<BuilderStep>)
    ensures
        auth_consistent(builder_steps(default_builder(), steps)),
{
    lemma_steps_keep_auth_consistent(default_builder(), steps);
}

proof fn lemma_steps_keep_auth_consistent(b: BuilderView, steps: Seq<BuilderStep>)
    requires
        auth_consistent(b),
    ensures
        auth_consistent(builder_steps(b, steps)),
    decreases steps.len(),
{
    if steps.len() > 0 {
        lemma_steps_keep_auth_consistent(builder_step(b, steps[0]), steps.drop_first());
    }
}

/// Where the authentication settings agree, the agent authenticates with
/// the API key or with existing credentials, never with nothing asked for.
pub proof fn law_consistent_auth_is_specified(b: BuilderView, env_key: Option<Seq<char>>, r: AuthPlan)
    requires
        auth_consistent(b),
        auth_plan_result(b, env_key, r),
    ensures
        !(r matches AuthPlan::Unspecified),
{
}

/// Going back to existing credentials undoes setting an API key.
pub proof fn law_existing_auth_undoes_api_key(b: BuilderView, key: Seq<char>)
    ensures
        builder_with_existing_auth(builder_with_api_key(b, key)) == builder_with_existing_auth(b),
{
}

/// Of two API keys set one after the other, the later one holds.
pub proof fn law_last_api_key_wins(b: BuilderView, first: Seq<char>, second: Seq<char>)
    ensures
        builder_with_api_key(builder_with_api_key(b, first), second) == builder_with_api_key(
            b,
            second,
        ),
{
}

} // verus!
