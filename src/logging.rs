use vstd::prelude::*;

verus! {

/// The target of the chain-sync runtime's log records.
pub const RUNTIME_TARGET: &'static str = "ton_indexer";

/// The name of the console appender of the default settings.
pub const CONSOLE_APPENDER: &'static str = "stdout";

/// The line layout of the default console appender: UTC timestamp, level,
/// module and message.
pub const CONSOLE_PATTERN: &'static str = "{d(%Y-%m-%d %H:%M:%S %Z)(utc)} - {h({l})} {M} = {m} {n}";

/// A log level, from the most quiet to the most verbose.
#[derive(Clone, Copy, Debug, PartialEq, Eq, Structural)]
pub enum LogLevel {
    Off,
    Error,
    Warn,
    Info,
    Debug,
    Trace,
}

/// An appender that writes to the console with the given pattern.
pub struct ConsoleAppender {
    pub name: String,
    pub pattern: String,
}

/// A level override for the records of one target, routed to the named
/// appenders; with `additive` off the records do not reach the root too.
pub struct LoggerRule {
    pub target: String,
    pub level: LogLevel,
    pub appenders: Vec<String>,
    pub additive: bool,
}

/// Declarative logging settings: the appenders, the root level with its
/// appenders, and the per-target overrides.
pub struct LoggerSettings {
    pub appenders: Vec<ConsoleAppender>,
    pub root_level: LogLevel,
    pub root_appenders: Vec<String>,
    pub loggers: Vec<LoggerRule>,
}

/// Whether `names` lists exactly the one appender `name`.
pub open spec fn routes_only_to(names: Seq<String>, name: Seq<char>) -> bool {
    names.len() == 1 && names[0]@ == name
}

/// Whether an appender named `name` is defined in `s`.
pub open spec fn defines_appender(s: LoggerSettings, name: Seq<char>) -> bool {
    exists|i: int| 0 <= i < s.appenders@.len() && (#[trigger] s.appenders@[i]).name@ == name
}

/// Every appender that the root or an override routes to is defined.
pub open spec fn references_defined_appenders(s: LoggerSettings) -> bool {
    &&& forall|i: int|
        0 <= i < s.root_appenders@.len() ==> defines_appender(s, (#[trigger] s.root_appenders@[i])@)
    &&& forall|i: int, j: int|
        0 <= i < s.loggers@.len() && 0 <= j < s.loggers@[i].appenders@.len() ==> defines_appender(
            s,
            (#[trigger] s.loggers@[i].appenders@[j])@,
        )
}

/// The settings that a generated configuration carries: errors only at the
/// root, debug records for the runtime's target, both on one console
/// appender, and the runtime's records kept from the root.
pub fn default_logger_settings() -> (r: LoggerSettings)
    ensures
        r.root_level == LogLevel::Error,
        r.appenders@.len() == 1,
        r.appenders@[0].name@ == CONSOLE_APPENDER@,
        r.appenders@[0].pattern@ == CONSOLE_PATTERN@,
        routes_only_to(r.root_appenders@, CONSOLE_APPENDER@),
        r.loggers@.len() == 1,
        r.loggers@[0].target@ == RUNTIME_TARGET@,
        r.loggers@[0].level == LogLevel::Debug,
        routes_only_to(r.loggers@[0].appenders@, CONSOLE_APPENDER@),
        !r.loggers@[0].additive,
        references_defined_appenders(r),
{
    let console = ConsoleAppender {
        name: CONSOLE_APPENDER.to_string(),
        pattern: CONSOLE_PATTERN.to_string(),
    };
    let runtime = LoggerRule {
        target: RUNTIME_TARGET.to_string(),
        level: LogLevel::Debug,
        appenders: vec![CONSOLE_APPENDER.to_string()],
        additive: false,
    };
    let r = LoggerSettings {
        appenders: vec![console],
        root_level: LogLevel::Error,
        root_appenders: vec![CONSOLE_APPENDER.to_string()],
        loggers: vec![runtime],
    };
    assert(r.appenders@[0].name@ == CONSOLE_APPENDER@);
    assert(defines_appender(r, CONSOLE_APPENDER@));
    r
}

} // verus!
