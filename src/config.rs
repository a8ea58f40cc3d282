use vstd::prelude::*;

verus! {

/// The fleet backend's production endpoint.
pub const API_BASE_URL: &'static str = "https://zkom-backend.abo.network";

/// The persisted configuration record.
#[derive(Debug, Clone)]
pub struct NodeConfig {
    pub device_code: Option<String>,
    pub user_code: Option<String>,
    pub access_token: Option<String>,
    pub refresh_token: Option<String>,
    pub node_id: Option<String>,
    pub base_url: String,
}

impl NodeConfig {
    /// The record of an agent that has never registered.
    pub open spec fn is_initial(self) -> bool {
        &&& self.device_code is None
        &&& self.user_code is None
        &&& self.access_token is None
        &&& self.refresh_token is None
        &&& self.node_id is None
        &&& self.base_url@ == API_BASE_URL@
    }
}

impl Default for NodeConfig {
    fn default() -> (r: NodeConfig)
        ensures
            r.is_initial(),
    {
        NodeConfig {
            device_code: None,
            user_code: None,
            access_token: None,
            refresh_token: None,
            node_id: None,
            base_url: String::from_str(API_BASE_URL),
        }
    }
}

/// The configuration record and the file it is stored in. Each setter
/// changes exactly the fields it names; writing the record out after each
/// change is left to the owner of the file.
#[derive(Debug, Clone)]
pub struct ConfigManager {
    config_path: String,
    config: NodeConfig,
}

impl ConfigManager {
    pub closed spec fn spec_config(&self) -> NodeConfig {
        self.config
    }

    pub closed spec fn spec_path(&self) -> Seq<char> {
        self.config_path@
    }

    /// A manager for the record `config`, stored at `config_path`.
    pub fn with_config(config_path: String, config: NodeConfig) -> (r: ConfigManager)
        ensures
            r.spec_config() == config,
            r.spec_path() == config_path@,
    {
        ConfigManager { config_path, config }
    }

    /// Where the record is stored.
    pub fn config_path(&self) -> (r: &String)
        ensures
            r@ == self.spec_path(),
    {
        &self.config_path
    }

    pub fn get_config(&self) -> (r: &NodeConfig)
        ensures
            *r == self.spec_config(),
    {
        &self.config
    }

    pub fn update_config(&mut self, new_config: NodeConfig)
        ensures
            final(self).spec_config() == new_config,
            final(self).spec_path() == old(self).spec_path(),
    {
        self.config = new_config;
    }

    pub fn set_device_code(&mut self, code: String)
        ensures
            final(self).spec_config() == (NodeConfig { device_code: Some(code), ..old(self).spec_config() }),
            final(self).spec_path() == old(self).spec_path(),
    {
        self.config.device_code = Some(code);
    }

    pub fn set_user_code(&mut self, code: String)
        ensures
            final(self).spec_config() == (NodeConfig { user_code: Some(code), ..old(self).spec_config() }),
            final(self).spec_path() == old(self).spec_path(),
    {
        self.config.user_code = Some(code);
    }

    pub fn set_tokens(&mut self, access_token: String, refresh_token: String)
        ensures
            final(self).spec_config() == (NodeConfig {
                access_token: Some(access_token),
                refresh_token: Some(refresh_token),
                ..old(self).spec_config()
            }),
            final(self).spec_path() == old(self).spec_path(),
    {
        self.config.access_token = Some(access_token);
        self.config.refresh_token = Some(refresh_token);
    }

    pub fn set_node_id(&mut self, id: String)
        ensures
            final(self).spec_config() == (NodeConfig { node_id: Some(id), ..old(self).spec_config() }),
            final(self).spec_path() == old(self).spec_path(),
    {
        self.config.node_id = Some(id);
    }

    pub fn update_access_token(&mut self, access_token: String)
        ensures
            final(self).spec_config() == (NodeConfig { access_token: Some(access_token), ..old(self).spec_config() }),
            final(self).spec_path() == old(self).spec_path(),
    {
        self.config.access_token = Some(access_token);
    }

    /// Whether a credential is stored, so that registration can be skipped.
    pub fn is_registered(&self) -> (r: bool)
        ensures
            r == self.spec_config().access_token is Some,
    {
        self.config.access_token.is_some()
    }
}

} // verus!
