//! The stored configuration of a host.

use crate::bridge::{HostConfig, StaticAuthorizer};
use vstd::prelude::*;

verus! {

/// Where a configuration is kept below the directory for configurations.
pub const CONFIG_FILE: &'static str = "qsonaut-hostbridge/config.json";

/// Where a configuration is kept below the home directory.
pub const HOME_CONFIG_FILE: &'static str = ".config/qsonaut-hostbridge/config.json";

/// The place of a configuration. `P` is a path of the host system.
#[derive(Debug, PartialEq, Eq)]
pub enum ConfigPlace<P> {
    /// The file that the user named.
    Given(P),
    /// `CONFIG_FILE` below this directory.
    InConfigHome(P),
    /// `HOME_CONFIG_FILE` below this directory.
    InHome(P),
    /// `CONFIG_FILE` below the working directory.
    Here,
}

/// Where the configuration is: in the file that the user named; else below the
/// directory for configurations, if there is one; else below the home
/// directory, if there is one; else below the working directory.
pub fn config_path<P>(given: Option<P>, config_home: Option<P>, home: Option<P>) -> (place:
    ConfigPlace<P>)
    ensures
        place == match (given, config_home, home) {
            (Some(path), _, _) => ConfigPlace::Given(path),
            (None, Some(directory), _) => ConfigPlace::InConfigHome(directory),
            (None, None, Some(directory)) => ConfigPlace::InHome(directory),
            (None, None, None) => ConfigPlace::Here,
        },
{
    match given {
        Some(path) => ConfigPlace::Given(path),
        None => match config_home {
            Some(directory) => ConfigPlace::InConfigHome(directory),
            None => match home {
                Some(directory) => ConfigPlace::InHome(directory),
                None => ConfigPlace::Here,
            },
        },
    }
}

/// Why a configuration cannot be used.
#[derive(Debug, Clone, Copy, PartialEq, Eq, Structural)]
pub enum ConfigError {
    /// The access key or the password is empty.
    MissingCredentials,
}

impl ConfigError {
    pub open spec fn text(self) -> Seq<char> {
        match self {
            ConfigError::MissingCredentials => "access key and password must be configured"@,
        }
    }

    pub fn message(&self) -> (message: String)
        ensures
            message@ == self.text(),
    {
        match self {
            ConfigError::MissingCredentials => {
                "access key and password must be configured".to_owned()
            },
        }
    }
}

/// What a host remembers between runs.
#[derive(Debug, PartialEq, Eq)]
pub struct StoredConfig {
    pub bind: String,
    pub host_name: String,
    pub access_key: String,
    pub password: String,
}

#[verifier::ext_equal]
pub struct StoredConfigView {
    pub bind: Seq<char>,
    pub host_name: Seq<char>,
    pub access_key: Seq<char>,
    pub password: Seq<char>,
}

impl View for StoredConfig {
    type V = StoredConfigView;

    open spec fn view(&self) -> StoredConfigView {
        StoredConfigView {
            bind: self.bind@,
            host_name: self.host_name@,
            access_key: self.access_key@,
            password: self.password@,
        }
    }
}

/// The configuration of a host that was never configured: it listens only on
/// its own machine and has no credentials.
pub open spec fn default_config() -> StoredConfigView {
    StoredConfigView {
        bind: "127.0.0.1:8765"@,
        host_name: "QSONaut HostBridge"@,
        access_key: ""@,
        password: ""@,
    }
}

impl Default for StoredConfig {
    fn default() -> (config: StoredConfig)
        ensures
            config@ == default_config(),
    {
        StoredConfig {
            bind: "127.0.0.1:8765".to_owned(),
            host_name: "QSONaut HostBridge".to_owned(),
            access_key: "".to_owned(),
            password: "".to_owned(),
        }
    }
}

impl StoredConfigView {
    /// Whether a host may run with this configuration.
    pub open spec fn complete(self) -> bool {
        self.access_key.len() > 0 && self.password.len() > 0
    }

    /// The configuration with new credentials, and with a new address or name
    /// where one is given.
    pub open spec fn updated(
        self,
        key: Seq<char>,
        password: Seq<char>,
        bind: Option<Seq<char>>,
        name: Option<Seq<char>>,
    ) -> StoredConfigView {
        StoredConfigView {
            bind: match bind {
                Some(bind) => bind,
                None => self.bind,
            },
            host_name: match name {
                Some(name) => name,
                None => self.host_name,
            },
            access_key: key,
            password,
        }
    }
}

impl StoredConfig {
    /// Takes new credentials, and a new address or name where one is given.
    pub fn update(
        &mut self,
        key: String,
        password: String,
        bind: Option<String>,
        name: Option<String>,
    )
        ensures
            final(self)@ == old(self)@.updated(
                key@,
                password@,
                crate::text::opt_text(bind),
                crate::text::opt_text(name),
            ),
    {
        self.access_key = key;
        self.password = password;
        if let Some(bind) = bind {
            self.bind = bind;
        }
        if let Some(name) = name {
            self.host_name = name;
        }
    }

    /// What a host needs in order to run: where to listen, what to call itself
    /// and whom to admit.
    pub fn into_host(self) -> (outcome: Result<(HostConfig, StaticAuthorizer), ConfigError>)
        ensures
            match outcome {
                Ok((config, authorizer)) => {
                    &&& self@.complete()
                    &&& config.bind@ == self@.bind
                    &&& config.host_name@ == self@.host_name
                    &&& forall|key: Seq<char>, password: Seq<char>| #[trigger]
                        authorizer.admits(key, password) <==> key == self@.access_key && password
                            == self@.password
                },
                Err(error) => !self@.complete() && error == ConfigError::MissingCredentials,
            },
    {
        if self.access_key.as_str().unicode_len() == 0 || self.password.as_str().unicode_len() == 0 {
            return Err(ConfigError::MissingCredentials);
        }
        Ok(
            (
                HostConfig { bind: self.bind, host_name: self.host_name },
                StaticAuthorizer::new(self.access_key, self.password),
            ),
        )
    }
}

/// A host that was never configured does not run, and listens on its own
/// machine until it is told otherwise.
pub proof fn law_default_is_closed()
    ensures
        !default_config().complete(),
        forall|key: Seq<char>, password: Seq<char>, name: Option<Seq<char>>|
            (#[trigger] default_config().updated(key, password, None, name)).bind
                == "127.0.0.1:8765"@,
{
    reveal_strlit("");
}

/// The last update counts: what it gives replaces what earlier updates gave,
/// and what it leaves open stays as it was.
pub proof fn law_last_update_counts(
    config: StoredConfigView,
    first: (Seq<char>, Seq<char>, Option<Seq<char>>, Option<Seq<char>>),
    second: (Seq<char>, Seq<char>, Option<Seq<char>>, Option<Seq<char>>),
)
    ensures
        config.updated(first.0, first.1, first.2, first.3).updated(
            second.0,
            second.1,
            second.2,
            second.3,
        ) == config.updated(
            second.0,
            second.1,
            if second.2 is Some {
                second.2
            } else {
                first.2
            },
            if second.3 is Some {
                second.3
            } else {
                first.3
            },
        ),
{
}

/// A host whose key or password was set to nothing does not run, whatever else
/// was set.
pub proof fn law_empty_credentials_never_run(
    config: StoredConfigView,
    other: Seq<char>,
    bind: Option<Seq<char>>,
    name: Option<Seq<char>>,
)
    ensures
        !config.updated(other, ""@, bind, name).complete(),
        !config.updated(""@, other, bind, name).complete(),
{
    reveal_strlit("");
}

/// An update sets the key and the password to what is given, and the address
/// and the name only where one is given.
pub proof fn law_update_sets_what_is_given(
    config: StoredConfigView,
    key: Seq<char>,
    password: Seq<char>,
    bind: Option<Seq<char>>,
    name: Option<Seq<char>>,
)
    ensures
        ({
            let updated = config.updated(key, password, bind, name);
            &&& updated.access_key == key
            &&& updated.password == password
            &&& bind matches Some(address) ==> updated.bind == address
            &&& bind is None ==> updated.bind == config.bind
            &&& name matches Some(name) ==> updated.host_name == name
            &&& name is None ==> updated.host_name == config.host_name
            &&& updated.complete() <==> key.len() > 0 && password.len() > 0
        }),
{
}

/// A configuration is seen as it is, and one that was never made is the
/// default.
pub proof fn law_configuration_is_kept(config: StoredConfig)
    ensures
        config@.bind == config.bind@,
        config@.host_name == config.host_name@,
        config@.access_key == config.access_key@,
        config@.password == config.password@,
        default_config().bind == "127.0.0.1:8765"@,
        default_config().host_name == "QSONaut HostBridge"@,
        default_config().access_key == ""@,
        default_config().password == ""@,
        CONFIG_FILE@ == "qsonaut-hostbridge/config.json"@,
        HOME_CONFIG_FILE@ == ".config/qsonaut-hostbridge/config.json"@,
        ConfigError::MissingCredentials.text() == "access key and password must be configured"@,
{
}

/// Where the configuration is: the first of these places that is known.
pub proof fn law_configuration_is_found_in_order<P>(
    given: Option<P>,
    config_home: Option<P>,
    home: Option<P>,
    place: ConfigPlace<P>,
)
    requires
        call_ensures(config_path::<P>, (given, config_home, home), place),
    ensures
        given matches Some(path) ==> place == ConfigPlace::Given(path),
        given is None && config_home is Some ==> place == ConfigPlace::InConfigHome(
            config_home->0,
        ),
        given is None && config_home is None && home is Some ==> place == ConfigPlace::InHome(
            home->0,
        ),
        given is None && config_home is None && home is None ==> place == ConfigPlace::<P>::Here,
{
}

/// What a host runs with: its own address and name, and a gatekeeper that
/// admits exactly its own key and password, neither of which is empty.
pub proof fn law_host_runs_with_its_configuration(
    config: StoredConfig,
    outcome: Result<(HostConfig, StaticAuthorizer), ConfigError>,
    key: Seq<char>,
    password: Seq<char>,
)
    requires
        call_ensures(StoredConfig::into_host, (config,), outcome),
    ensures
        outcome is Ok <==> config.access_key@.len() > 0 && config.password@.len() > 0,
        outcome matches Ok(host) ==> {
            &&& host.0.bind@ == config.bind@
            &&& host.0.host_name@ == config.host_name@
            &&& host.1.admits(key, password) <==> key == config.access_key@ && password
                == config.password@
        },
{
}

} // verus!
