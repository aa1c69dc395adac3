//! The configuration model and its defaults.
use vstd::prelude::*;

verus! {

/// The network binding: an interface address or host name, and a port.
#[derive(Debug, Clone)]
pub struct InterfaceConfig {
    pub interface: String,
    pub port: u16,
}

/// The whole configuration: the network binding and the store's file path.
#[derive(Debug, Clone)]
pub struct Config {
    pub network: InterfaceConfig,
    pub database_path: String,
}

/// The mathematical value of a configuration, field for field.
pub struct ConfigView {
    pub interface: Seq<char>,
    pub port: u16,
    pub database_path: Seq<char>,
}

impl View for Config {
    type V = ConfigView;

    open spec fn view(&self) -> ConfigView {
        ConfigView {
            interface: self.network.interface@,
            port: self.network.port,
            database_path: self.database_path@,
        }
    }
}

pub const DEFAULT_PORT: u16 = 3250;

pub open spec fn default_interface() -> Seq<char> {
    seq!['0', '.', '0', '.', '0', '.', '0']
}

pub open spec fn default_database_path() -> Seq<char> {
    seq!['d', 'a', 't', 'a', 'b', 'a', 's', 'e', '.', 'd', 'b']
}

/// The documented defaults: every field has one.
pub open spec fn default_view() -> ConfigView {
    ConfigView {
        interface: default_interface(),
        port: DEFAULT_PORT,
        database_path: default_database_path(),
    }
}

impl Default for InterfaceConfig {
    /// Binds every interface on the default port.
    fn default() -> (r: Self)
        ensures
            r.interface@ == default_interface(),
            r.port == DEFAULT_PORT,
    {
        proof {
            reveal_strlit("0.0.0.0");
        }
        let interface = "0.0.0.0".to_owned();
        assert(interface@ =~= default_interface());
        InterfaceConfig { interface, port: DEFAULT_PORT }
    }
}

impl Default for Config {
    /// The default binding, and a store file in the working directory.
    fn default() -> (r: Self)
        ensures
            r@ == default_view(),
    {
        proof {
            reveal_strlit("database.db");
        }
        let database_path = "database.db".to_owned();
        assert(database_path@ =~= default_database_path());
        Config { network: InterfaceConfig::default(), database_path }
    }
}

/// A user of the service, as the store's schema declares it.
pub struct User {
    pub username: String,
    pub password_hash: String,
    pub salt: String,
    pub permissions: u16,
}

} // verus!

verus! {

/// Why the configuration could not be produced, by the step that failed.
#[derive(Debug, Clone, Copy, PartialEq, Eq, Structural)]
pub enum ConfigError {
    /// The directories above the file could not be created.
    CreateDirectory,
    /// The default configuration could not be written out as text. Printing
    /// a document never fails, so the library itself does not return this.
    Serialize,
    /// The file could not be written.
    Write,
    /// The file could not be read.
    Read,
    /// The file's text is not a configuration document.
    Parse,
}

} // verus!
