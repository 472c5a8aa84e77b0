//! Logging configuration: levels, outputs and per-module levels, and the
//! filter directives they give.

use vstd::prelude::*;

verus! {

/// Severity level of log records.
#[derive(Debug, Clone, Copy, PartialEq, Eq, Structural)]
pub enum LogLevel {
    Trace,
    Debug,
    Info,
    Warn,
    Error,
}

impl LogLevel {
    /// The level as a filter names it.
    pub open spec fn spec_label(self) -> Seq<char> {
        match self {
            LogLevel::Trace => "TRACE"@,
            LogLevel::Debug => "DEBUG"@,
            LogLevel::Info => "INFO"@,
            LogLevel::Warn => "WARN"@,
            LogLevel::Error => "ERROR"@,
        }
    }

    /// The level as a filter names it.
    pub fn label(&self) -> (s: &'static str)
        ensures
            s@ == self.spec_label(),
    {
        match self {
            LogLevel::Trace => "TRACE",
            LogLevel::Debug => "DEBUG",
            LogLevel::Info => "INFO",
            LogLevel::Warn => "WARN",
            LogLevel::Error => "ERROR",
        }
    }
}

/// Logging configuration.
#[derive(Debug, Clone)]
pub struct LoggingConfig {
    /// Log level
    pub level: LogLevel,
    /// Whether to log to stdout
    pub log_to_stdout: bool,
    /// Whether to log to file
    pub log_to_file: bool,
    /// Log file directory
    pub log_dir: Option<String>,
    /// Log file prefix
    pub log_file_prefix: Option<String>,
    /// Whether to use JSON format
    pub json_format: bool,
    /// Whether to log spans
    pub log_spans: bool,
    /// Module-specific log levels, each module once
    pub module_levels: Vec<(String, LogLevel)>,
    /// Whether to include source code information
    pub include_source_code: bool,
    /// Whether to include line numbers
    pub include_line_numbers: bool,
    /// Whether to include thread IDs
    pub include_thread_ids: bool,
}

/// The module levels as plain values.
pub open spec fn module_level_view(v: Seq<(String, LogLevel)>) -> Seq<(Seq<char>, LogLevel)> {
    v.map_values(|e: (String, LogLevel)| (e.0@, e.1))
}

impl Default for LoggingConfig {
    fn default() -> (c: Self)
        ensures
            c.level == LogLevel::Info,
            c.log_to_stdout,
            !c.log_to_file,
            c.log_dir is None,
            c.log_file_prefix is None,
            !c.json_format,
            c.log_spans,
            c.module_levels@.len() == 0,
            c.include_source_code,
            c.include_line_numbers,
            c.include_thread_ids,
    {
        LoggingConfig {
            level: LogLevel::Info,
            log_to_stdout: true,
            log_to_file: false,
            log_dir: None,
            log_file_prefix: None,
            json_format: false,
            log_spans: true,
            module_levels: Vec::new(),
            include_source_code: true,
            include_line_numbers: true,
            include_thread_ids: true,
        }
    }
}

/// The modules given their own level by the development and production
/// configurations, with whether each is one of the project's own modules.
pub open spec fn configured_modules() -> Seq<(Seq<char>, bool)> {
    seq![
        ("investment_management"@, true),
        ("investment_management::api"@, true),
        ("investment_management::portfolio"@, true),
        ("investment_management::tax"@, true),
        ("investment_management::analytics"@, true),
        ("hyper"@, false),
        ("aws_sdk"@, false),
    ]
}

/// The module levels giving the project's modules one level and the
/// libraries another.
pub open spec fn split_levels(own: LogLevel, libraries: LogLevel) -> Seq<(Seq<char>, LogLevel)> {
    configured_modules().map_values(|m: (Seq<char>, bool)| (m.0, if m.1 { own } else { libraries }))
}

fn module_levels_for(own: LogLevel, libraries: LogLevel) -> (v: Vec<(String, LogLevel)>)
    ensures
        module_level_view(v@) == split_levels(own, libraries),
{
    let mut v: Vec<(String, LogLevel)> = Vec::new();
    v.push((String::from_str("investment_management"), own));
    v.push((String::from_str("investment_management::api"), own));
    v.push((String::from_str("investment_management::portfolio"), own));
    v.push((String::from_str("investment_management::tax"), own));
    v.push((String::from_str("investment_management::analytics"), own));
    v.push((String::from_str("hyper"), libraries));
    v.push((String::from_str("aws_sdk"), libraries));
    assert(module_level_view(v@) =~= split_levels(own, libraries));
    v
}

/// A configuration for development: debug level, plain text with spans,
/// source, line and thread information, to standard output; the project's
/// modules at debug level, the libraries at info level.
pub fn development_config() -> (c: LoggingConfig)
    ensures
        c.level == LogLevel::Debug,
        c.log_to_stdout,
        !c.log_to_file,
        c.log_dir is None,
        c.log_file_prefix is None,
        !c.json_format,
        c.log_spans,
        c.include_source_code,
        c.include_line_numbers,
        c.include_thread_ids,
        module_level_view(c.module_levels@) == split_levels(LogLevel::Debug, LogLevel::Info),
{
    let mut config = LoggingConfig::default();
    config.level = LogLevel::Debug;
    config.json_format = false;
    config.log_spans = true;
    config.include_source_code = true;
    config.include_line_numbers = true;
    config.include_thread_ids = true;
    config.module_levels = module_levels_for(LogLevel::Debug, LogLevel::Info);
    config
}

/// A configuration for production: info level, JSON with spans, line and
/// thread information but no source, to standard output and to daily files
/// `logs/investment-management`; the project's modules at info level, the
/// libraries at warning level.
pub fn production_config() -> (c: LoggingConfig)
    ensures
        c.level == LogLevel::Info,
        c.log_to_stdout,
        c.log_to_file,
        c.log_dir is Some && c.log_dir->0@ == "logs"@,
        c.log_file_prefix is Some && c.log_file_prefix->0@ == "investment-management"@,
        c.json_format,
        c.log_spans,
        !c.include_source_code,
        c.include_line_numbers,
        c.include_thread_ids,
        module_level_view(c.module_levels@) == split_levels(LogLevel::Info, LogLevel::Warn),
{
    let mut config = LoggingConfig::default();
    config.level = LogLevel::Info;
    config.json_format = true;
    config.log_spans = true;
    config.include_source_code = false;
    config.include_line_numbers = true;
    config.include_thread_ids = true;
    config.log_to_file = true;
    config.log_dir = Some(String::from_str("logs"));
    config.log_file_prefix = Some(String::from_str("investment-management"));
    config.module_levels = module_levels_for(LogLevel::Info, LogLevel::Warn);
    config
}

/// The filter directives of module levels: `module=LEVEL` each.
pub open spec fn directives_of(levels: Seq<(Seq<char>, LogLevel)>) -> Seq<Seq<char>> {
    levels.map_values(|e: (Seq<char>, LogLevel)| e.0 + "="@ + e.1.spec_label())
}

/// The filter directives of the configuration's module levels, in order.
pub fn module_directives(config: &LoggingConfig) -> (r: Vec<String>)
    ensures
        r@.map_values(|s: String| s@) == directives_of(module_level_view(config.module_levels@)),
{
    let mut r: Vec<String> = Vec::new();
    let mut i: usize = 0;
    while i < config.module_levels.len()
        invariant
            i <= config.module_levels@.len(),
            r@.len() == i,
            forall|k: int| 0 <= k < i ==> #[trigger] r@[k]@ == directives_of(module_level_view(config.module_levels@))[k],
        decreases config.module_levels@.len() - i,
    {
        let (module, level) = (&config.module_levels[i].0, config.module_levels[i].1);
        let mut d = module.clone();
        d.append("=");
        d.append(level.label());
        r.push(d);
        i = i + 1;
    }
    assert(r@.map_values(|s: String| s@) =~= directives_of(module_level_view(config.module_levels@)));
    r
}

} // verus!
