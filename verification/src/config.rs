//! Client credentials, the description of the remote platform, and the rule
//! by which a stored configuration is accepted.

use crate::text::{has_content, is_blank};
use vstd::prelude::*;
use vstd::string::*;

verus! {

/// The credentials that a client presents to obtain an access token.
#[derive(Debug)]
pub struct AuthConfig {
    client_id: String,
    client_secret: String,
}

/// What an [`AuthConfig`] holds.
pub struct AuthConfigView {
    pub client_id: Seq<char>,
    pub client_secret: Seq<char>,
}

impl View for AuthConfig {
    type V = AuthConfigView;

    closed spec fn view(&self) -> AuthConfigView {
        AuthConfigView { client_id: self.client_id@, client_secret: self.client_secret@ }
    }
}

impl DeepView for AuthConfig {
    type V = AuthConfigView;

    open spec fn deep_view(&self) -> AuthConfigView {
        self@
    }
}

impl AuthConfig {
    pub fn client_id(&self) -> (r: &str)
        ensures
            r@ == self@.client_id,
    {
        self.client_id.as_str()
    }

    pub fn client_secret(&self) -> (r: &str)
        ensures
            r@ == self@.client_secret,
    {
        self.client_secret.as_str()
    }

    pub fn new(c_id: String, c_sec: String) -> (r: AuthConfig)
        ensures
            r@ == (AuthConfigView { client_id: c_id@, client_secret: c_sec@ }),
    {
        AuthConfig { client_id: c_id, client_secret: c_sec }
    }
}

impl Clone for AuthConfig {
    fn clone(&self) -> (r: Self)
        ensures
            r@ == self@,
    {
        AuthConfig { client_id: self.client_id.clone(), client_secret: self.client_secret.clone() }
    }
}

impl Default for AuthConfig {
    fn default() -> (r: AuthConfig)
        ensures
            r@ == (AuthConfigView { client_id: "123"@, client_secret: "123"@ }),
    {
        AuthConfig { client_id: String::from_str("123"), client_secret: String::from_str("123") }
    }
}

/// The remote platform: the host that serves its API and the value of the
/// `Platform` header that every call to it carries.
#[derive(Debug)]
pub struct PlatformConfig {
    platform_domain: String,
    platform: String,
}

/// What a [`PlatformConfig`] holds.
pub struct PlatformConfigView {
    pub platform_domain: Seq<char>,
    pub platform: Seq<char>,
}

impl PlatformConfigView {
    /// The platform that is addressed when nothing else is configured.
    pub open spec fn standard() -> PlatformConfigView {
        PlatformConfigView { platform_domain: "open-api.123pan.com"@, platform: "open_platform"@ }
    }
}

impl View for PlatformConfig {
    type V = PlatformConfigView;

    closed spec fn view(&self) -> PlatformConfigView {
        PlatformConfigView { platform_domain: self.platform_domain@, platform: self.platform@ }
    }
}

impl DeepView for PlatformConfig {
    type V = PlatformConfigView;

    open spec fn deep_view(&self) -> PlatformConfigView {
        self@
    }
}

impl PlatformConfig {
    pub fn new(platform_domain: String, platform: String) -> (r: PlatformConfig)
        ensures
            r@ == (PlatformConfigView { platform_domain: platform_domain@, platform: platform@ }),
    {
        PlatformConfig { platform_domain, platform }
    }

    pub fn platform_domain(&self) -> (r: &str)
        ensures
            r@ == self@.platform_domain,
    {
        self.platform_domain.as_str()
    }

    pub fn platform(&self) -> (r: &str)
        ensures
            r@ == self@.platform,
    {
        self.platform.as_str()
    }
}

impl Clone for PlatformConfig {
    fn clone(&self) -> (r: Self)
        ensures
            r@ == self@,
    {
        PlatformConfig {
            platform_domain: self.platform_domain.clone(),
            platform: self.platform.clone(),
        }
    }
}

impl Default for PlatformConfig {
    fn default() -> (r: PlatformConfig)
        ensures
            r@ == PlatformConfigView::standard(),
    {
        PlatformConfig {
            platform_domain: String::from_str("open-api.123pan.com"),
            platform: String::from_str("open_platform"),
        }
    }
}

/// A stored configuration: credentials and, optionally, the platform that
/// they are for.
#[derive(Debug)]
pub struct Config {
    client_id: String,
    client_secret: String,
    server: Option<PlatformConfig>,
}

/// What a [`Config`] holds.
pub struct ConfigView {
    pub client_id: Seq<char>,
    pub client_secret: Seq<char>,
    pub server: Option<PlatformConfigView>,
}

impl ConfigView {
    /// A configuration is accepted when neither credential is blank.
    pub open spec fn valid(self) -> bool {
        has_content(self.client_id) && has_content(self.client_secret)
    }

    /// The configuration that two environment values give: both must be
    /// there, the platform is the standard one, and the result must be valid.
    pub open spec fn of_env(client_id: Option<Seq<char>>, client_secret: Option<Seq<char>>) -> Option<
        ConfigView,
    > {
        if client_id is Some && client_secret is Some {
            let c = ConfigView {
                client_id: client_id->0,
                client_secret: client_secret->0,
                server: Some(PlatformConfigView::standard()),
            };
            if c.valid() {
                Some(c)
            } else {
                None
            }
        } else {
            None
        }
    }

    /// The first acceptable configuration among, in this order: the file in
    /// the home directory, the file in the working directory, the
    /// environment.
    pub open spec fn pick(
        home_file: Option<ConfigView>,
        local_file: Option<ConfigView>,
        client_id: Option<Seq<char>>,
        client_secret: Option<Seq<char>>,
    ) -> Option<ConfigView> {
        if home_file is Some && home_file->0.valid() {
            home_file
        } else if local_file is Some && local_file->0.valid() {
            local_file
        } else {
            ConfigView::of_env(client_id, client_secret)
        }
    }
}

/// The message with which [`Config::load`] fails.
pub open spec fn no_config_message() -> Seq<char> {
    "无法找到合法的配置: 请检查 ~/.config/netdisk/config.toml, ./config.toml, 或设置 NETDISK_CLIENT_ID / NETDISK_CLIENT_SECRET"@
}

impl View for Config {
    type V = ConfigView;

    closed spec fn view(&self) -> ConfigView {
        ConfigView {
            client_id: self.client_id@,
            client_secret: self.client_secret@,
            server: self.server.deep_view(),
        }
    }
}

impl DeepView for Config {
    type V = ConfigView;

    open spec fn deep_view(&self) -> ConfigView {
        self@
    }
}

impl Config {
    pub fn client_id(&self) -> (r: &str)
        ensures
            r@ == self@.client_id,
    {
        self.client_id.as_str()
    }

    pub fn client_secret(&self) -> (r: &str)
        ensures
            r@ == self@.client_secret,
    {
        self.client_secret.as_str()
    }

    /// The platform that the configuration names, if it names one.
    pub fn server(&self) -> (r: Option<&PlatformConfig>)
        ensures
            r.deep_view() == self@.server,
    {
        self.server.as_ref()
    }

    pub fn new(c_id: String, c_sec: String, service: Option<PlatformConfig>) -> (r: Config)
        ensures
            r@ == (ConfigView {
                client_id: c_id@,
                client_secret: c_sec@,
                server: service.deep_view(),
            }),
    {
        Config { client_id: c_id, client_secret: c_sec, server: service }
    }

    /// Whether the configuration is accepted: neither credential is blank.
    pub fn is_valid(&self) -> (r: bool)
        ensures
            r == self@.valid(),
    {
        !is_blank(self.client_id.as_str()) && !is_blank(self.client_secret.as_str())
    }

    /// Accepts what was decoded from a configuration file, if anything was
    /// and it is valid. `decoded` is `None` where the file is absent,
    /// unreadable or not a configuration.
    pub fn from_file(decoded: Option<Config>) -> (r: Option<Config>)
        ensures
            r == if decoded is Some && decoded->0@.valid() {
                decoded
            } else {
                None
            },
    {
        match decoded {
            Some(conf) => {
                if conf.is_valid() {
                    Some(conf)
                } else {
                    None
                }
            },
            None => None,
        }
    }

    /// Builds a configuration for the standard platform from the two
    /// environment values, if both are set and neither is blank.
    pub fn from_env(client_id: Option<String>, client_secret: Option<String>) -> (r: Option<Config>)
        ensures
            r.deep_view() == ConfigView::of_env(client_id.deep_view(), client_secret.deep_view()),
    {
        match (client_id, client_secret) {
            (Some(id), Some(secret)) => {
                let conf = Config {
                    client_id: id,
                    client_secret: secret,
                    server: Some(PlatformConfig::default()),
                };
                if conf.is_valid() {
                    Some(conf)
                } else {
                    None
                }
            },
            _ => None,
        }
    }

    /// Picks the configuration to run with. The candidates are consulted in
    /// a fixed order: the file in the home directory, the file in the working
    /// directory, then the environment; the first valid one wins.
    pub fn load(
        home_file: Option<Config>,
        local_file: Option<Config>,
        client_id: Option<String>,
        client_secret: Option<String>,
    ) -> (r: Result<Config, String>)
        ensures
            match r {
                Ok(c) => Some(c@),
                Err(_) => None,
            } == ConfigView::pick(
                home_file.deep_view(),
                local_file.deep_view(),
                client_id.deep_view(),
                client_secret.deep_view(),
            ),
            r is Err ==> r->Err_0@ == no_config_message(),
    {
        if let Some(conf) = Config::from_file(home_file) {
            return Ok(conf);
        }
        if let Some(conf) = Config::from_file(local_file) {
            return Ok(conf);
        }
        if let Some(conf) = Config::from_env(client_id, client_secret) {
            return Ok(conf);
        }
        Err(
            String::from_str(
                "无法找到合法的配置: 请检查 ~/.config/netdisk/config.toml, ./config.toml, 或设置 NETDISK_CLIENT_ID / NETDISK_CLIENT_SECRET",
            ),
        )
    }
}

impl Default for Config {
    fn default() -> (r: Config)
        ensures
            r@ == (ConfigView {
                client_id: "123"@,
                client_secret: "123"@,
                server: Some(PlatformConfigView::standard()),
            }),
    {
        Config {
            client_id: String::from_str("123"),
            client_secret: String::from_str("123"),
            server: Some(PlatformConfig::default()),
        }
    }
}

} // verus!
