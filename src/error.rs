use vstd::prelude::*;

verus! {

/// The failures of the startup pipeline. Each one ends the process.
#[derive(Clone, Copy, Debug, PartialEq, Eq, Structural)]
pub enum BootstrapError {
    /// The configuration file is malformed or does not match the schema.
    ConfigParseError,
    /// The global configuration file is malformed or does not match the schema.
    GlobalConfigParseError,
    /// No external address source yielded an address.
    AddressUnavailable,
    /// The only external address found is not an IPv4 address.
    UnsupportedAddressFamily,
    /// The node settings could not be resolved into a runtime configuration.
    IndexerConfigBuildError,
    /// The runtime could not be constructed.
    EngineStartError,
    /// The runtime could not begin operating.
    EngineRuntimeError,
    /// The logging settings could not be installed.
    LoggerInitError,
}

/// The exit code of the process after any failure.
pub const EXIT_FAILURE: i32 = 1;

impl BootstrapError {
    /// The context line printed in front of the underlying cause.
    pub fn description(&self) -> (r: &'static str)
        ensures
            *self == BootstrapError::AddressUnavailable ==> r@ == "External ip not found"@,
            *self == BootstrapError::UnsupportedAddressFamily ==> r@ == "IPv6 not supported"@,
            *self == BootstrapError::IndexerConfigBuildError ==> r@ == "Failed to build node config"@,
            *self == BootstrapError::EngineStartError ==> r@ == "Failed to start TON node"@,
            *self == BootstrapError::ConfigParseError ==> r@ == "Failed to read config"@,
            *self == BootstrapError::GlobalConfigParseError ==> r@ == "Failed to read global config"@,
            *self == BootstrapError::EngineRuntimeError ==> r@ == "Failed to run TON node"@,
            *self == BootstrapError::LoggerInitError ==> r@ == "Failed to initialize logger"@,
    {
        match self {
            BootstrapError::ConfigParseError => "Failed to read config",
            BootstrapError::GlobalConfigParseError => "Failed to read global config",
            BootstrapError::AddressUnavailable => "External ip not found",
            BootstrapError::UnsupportedAddressFamily => "IPv6 not supported",
            BootstrapError::IndexerConfigBuildError => "Failed to build node config",
            BootstrapError::EngineStartError => "Failed to start TON node",
            BootstrapError::EngineRuntimeError => "Failed to run TON node",
            BootstrapError::LoggerInitError => "Failed to initialize logger",
        }
    }
}

} // verus!
