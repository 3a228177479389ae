//! Routing of log records to CEF's logging.
//!
//! A [Logger] holds a default level filter and a list of per-module-path
//! filters. A record is handed to CEF only if its level passes CEF's minimum
//! severity and, where the record names its module path, the filter of the
//! first listed module path that prefixes it (or the default filter when none
//! does). Note that CEF's log level is configured separately: only if a
//! message's level passes both filters is it actually logged.

use vstd::prelude::*;
use vstd::utf8::encode_utf8;

verus! {

/// Severity of a log record, from most to least severe.
#[derive(Debug, Clone, Copy, PartialEq, Eq, Hash)]
pub enum Level {
    Error,
    Warn,
    Info,
    Debug,
    Trace,
}

/// A level filter: `Off` lets nothing through, any other filter lets through
/// the records at its level and at every more severe level.
#[derive(Debug, Clone, Copy, PartialEq, Eq, Hash)]
pub enum LevelFilter {
    Off,
    Error,
    Warn,
    Info,
    Debug,
    Trace,
}

/// The rank of a level: 1 for the most severe (`Error`) up to 5 (`Trace`).
pub open spec fn level_rank(level: Level) -> int {
    match level {
        Level::Error => 1,
        Level::Warn => 2,
        Level::Info => 3,
        Level::Debug => 4,
        Level::Trace => 5,
    }
}

/// The rank of a filter: 0 for `Off`, otherwise the rank of its level.
pub open spec fn filter_rank(filter: LevelFilter) -> int {
    match filter {
        LevelFilter::Off => 0,
        LevelFilter::Error => 1,
        LevelFilter::Warn => 2,
        LevelFilter::Info => 3,
        LevelFilter::Debug => 4,
        LevelFilter::Trace => 5,
    }
}

/// Whether a record of the given level passes the filter.
pub open spec fn level_passes(level: Level, filter: LevelFilter) -> bool {
    level_rank(level) <= filter_rank(filter)
}

/// The `cef_log_severity_t` code that disables logging.
pub const LOGSEVERITY_DISABLE: i32 = 99;

/// The `cef_log_severity_t` code of debug (verbose) logging.
pub const LOGSEVERITY_DEBUG: i32 = 1;

/// The `cef_log_severity_t` code of informational logging.
pub const LOGSEVERITY_INFO: i32 = 2;

/// The `cef_log_severity_t` code of warnings.
pub const LOGSEVERITY_WARNING: i32 = 3;

/// The least severe level that CEF's minimum severity lets through.
pub open spec fn level_of_severity(severity: i32) -> Level {
    if severity == LOGSEVERITY_DEBUG {
        Level::Debug
    } else if severity == LOGSEVERITY_INFO {
        Level::Info
    } else if severity == LOGSEVERITY_WARNING {
        Level::Warn
    } else {
        Level::Error
    }
}

/// The severity code that CEF's `cef_log` takes for a record level: 2 for
/// errors, 1 for warnings, 0 otherwise.
pub open spec fn cef_level_of(level: Level) -> i32 {
    match level {
        Level::Error => 2,
        Level::Warn => 1,
        _ => 0,
    }
}

/// Whether CEF's minimum severity lets a record of the given level through.
pub open spec fn cef_allows(min_severity: i32, level: Level) -> bool {
    min_severity != LOGSEVERITY_DISABLE && level_rank(level) <= level_rank(level_of_severity(min_severity))
}

/// CEF's log severities and the codes `cef_log` takes: a minimum severity of
/// verbose/debug (1) lets through debug records, info (2) info records,
/// warning (3) warnings and error (4) only errors; records are handed to
/// `cef_log` as 2 for errors, 1 for warnings and 0 otherwise. Levels rank from
/// the most severe, errors, to the least, traces.
pub proof fn lemma_cef_severity_codes()
    ensures
        LOGSEVERITY_DEBUG == 1 && LOGSEVERITY_INFO == 2 && LOGSEVERITY_WARNING == 3 && LOGSEVERITY_DISABLE == 99,
        level_of_severity(1) == Level::Debug,
        level_of_severity(2) == Level::Info,
        level_of_severity(3) == Level::Warn,
        level_of_severity(4) == Level::Error,
        cef_level_of(Level::Error) == 2,
        cef_level_of(Level::Warn) == 1,
        cef_level_of(Level::Info) == 0,
        cef_level_of(Level::Debug) == 0,
        cef_level_of(Level::Trace) == 0,
        level_rank(Level::Error) < level_rank(Level::Warn) < level_rank(Level::Info) < level_rank(Level::Debug)
            < level_rank(Level::Trace),
        filter_rank(LevelFilter::Off) < filter_rank(LevelFilter::Error),
        level_passes(Level::Warn, LevelFilter::Warn) && !level_passes(Level::Info, LevelFilter::Warn),
{
}

/// The filter for a module path (as UTF-8 bytes): that of the first entry
/// whose path is a prefix of it, or the default filter where none is.
pub open spec fn module_filter(entries: Seq<(Seq<char>, LevelFilter)>, path: Seq<u8>, default: LevelFilter) -> LevelFilter
    decreases entries.len(),
{
    if entries.len() == 0 {
        default
    } else if encode_utf8(entries[0].0).is_prefix_of(path) {
        entries[0].1
    } else {
        module_filter(entries.drop_first(), path, default)
    }
}

/// The per-module entries of a list, with each module path as its text.
pub open spec fn entries_view(entries: Seq<(String, LevelFilter)>) -> Seq<(Seq<char>, LevelFilter)> {
    entries.map_values(|e: (String, LevelFilter)| (e.0@, e.1))
}

/// A log record as the logger sees it.
#[derive(Debug, Clone, PartialEq, Eq)]
pub struct Record {
    pub level: Level,
    pub module: Option<String>,
    pub file: Option<String>,
    pub line: Option<u32>,
    /// The formatted message.
    pub message: String,
}

/// What to hand to `cef_log`: file, line, CEF severity and message text.
#[derive(Debug, Clone, PartialEq, Eq)]
pub struct CefLogMessage {
    pub file: String,
    pub line: i32,
    pub severity: i32,
    pub text: String,
}

/// Whether a text can be handed to C as a string: it holds no NUL byte.
pub open spec fn c_string_compatible(text: Seq<char>) -> bool {
    !encode_utf8(text).contains(0u8)
}

/// The file name handed to CEF: the record's, where it has one that C can
/// take, and `<unknown>` otherwise.
pub open spec fn log_file_name(file: Option<String>) -> Seq<char> {
    match file {
        Some(f) => if c_string_compatible(f@) { f@ } else { "<unknown>"@ },
        None => "<unknown>"@,
    }
}

/// Integration of a logging facade with CEF. Example usage:
///
/// ```rust
///  let logger = cef::logging::Logger::builder()
///      .level(cef::logging::LevelFilter::Warn)
///      .level_for_module_path("mycrate", cef::logging::LevelFilter::Debug)
///      .build();
/// ```
///
/// Note that CEF must be initialized before logging can be used. Also, don't
/// forget to configure CEF's log level, which is separate from the one
/// managed here. Only if a message's level passes both filters, it will
/// actually be logged.
#[derive(Debug, Clone)]
pub struct Logger {
    level: LevelFilter,
    module_path_levels: Vec<(String, LevelFilter)>,
}

/// Builds a [Logger].
#[derive(Debug, Clone)]
pub struct LoggerBuilder {
    level: LevelFilter,
    module_path_levels: Vec<(String, LevelFilter)>,
}

impl LoggerBuilder {
    /// The default filter of the logger being built.
    pub closed spec fn default_level(&self) -> LevelFilter {
        self.level
    }

    /// The per-module filters of the logger being built, in the order given.
    pub closed spec fn module_levels(&self) -> Seq<(Seq<char>, LevelFilter)> {
        entries_view(self.module_path_levels@)
    }

    /// A builder whose default filter lets nothing through and that has no
    /// per-module filter.
    pub fn new() -> (b: LoggerBuilder)
        ensures
            b.default_level() == LevelFilter::Off,
            b.module_levels() == Seq::<(Seq<char>, LevelFilter)>::empty(),
    {
        let b = LoggerBuilder { level: LevelFilter::Off, module_path_levels: Vec::new() };
        assert(b.module_levels() =~= Seq::<(Seq<char>, LevelFilter)>::empty());
        b
    }

    /// Sets the default filter.
    pub fn level(self, level: LevelFilter) -> (b: LoggerBuilder)
        ensures
            b.default_level() == level,
            b.module_levels() == self.module_levels(),
    {
        let mut s = self;
        s.level = level;
        s
    }

    /// Adds a filter for the module paths that start with `module`. Earlier
    /// entries take precedence over later ones.
    pub fn level_for_module_path(self, module: &str, level: LevelFilter) -> (b: LoggerBuilder)
        ensures
            b.default_level() == self.default_level(),
            b.module_levels() == self.module_levels().push((module@, level)),
    {
        let mut s = self;
        let ghost before = s.module_path_levels@;
        s.module_path_levels.push((module.to_owned(), level));
        assert(entries_view(s.module_path_levels@) =~= entries_view(before).push((module@, level)));
        s
    }

    /// The logger with the filters given so far.
    pub fn build(self) -> (l: Logger)
        ensures
            l.default_level() == self.default_level(),
            l.module_levels() == self.module_levels(),
    {
        Logger { level: self.level, module_path_levels: self.module_path_levels }
    }
}

/// Whether `prefix` is a prefix of `s`, byte by byte.
fn bytes_start_with(s: &[u8], prefix: &[u8]) -> (b: bool)
    ensures
        b == prefix@.is_prefix_of(s@),
{
    if prefix.len() > s.len() {
        return false;
    }
    let mut i: usize = 0;
    while i < prefix.len()
        invariant
            prefix.len() <= s.len(),
            i <= prefix.len(),
            forall|j: int| 0 <= j < i ==> prefix@[j] == s@[j],
        decreases prefix.len() - i,
    {
        if prefix[i] != s[i] {
            assert(prefix@ != s@.subrange(0, prefix@.len() as int)) by {
                assert(prefix@[i as int] != s@.subrange(0, prefix@.len() as int)[i as int]);
            }
            return false;
        }
        i = i + 1;
    }
    assert(prefix@ =~= s@.subrange(0, prefix@.len() as int));
    true
}

/// Whether a byte string holds a NUL byte.
fn has_nul(bytes: &[u8]) -> (b: bool)
    ensures
        b == bytes@.contains(0u8),
{
    let mut i: usize = 0;
    while i < bytes.len()
        invariant
            i <= bytes.len(),
            forall|j: int| 0 <= j < i ==> bytes@[j] != 0u8,
        decreases bytes.len() - i,
    {
        if bytes[i] == 0 {
            return true;
        }
        i = i + 1;
    }
    false
}

impl Logger {
    /// The default filter of this logger.
    pub closed spec fn default_level(&self) -> LevelFilter {
        self.level
    }

    /// The per-module filters of this logger, in the order given.
    pub closed spec fn module_levels(&self) -> Seq<(Seq<char>, LevelFilter)> {
        entries_view(self.module_path_levels@)
    }

    /// A builder for a logger.
    pub fn builder() -> (b: LoggerBuilder)
        ensures
            b.default_level() == LevelFilter::Off,
            b.module_levels() == Seq::<(Seq<char>, LevelFilter)>::empty(),
    {
        LoggerBuilder::new()
    }

    /// The severity code that CEF's `cef_log` takes for a record level.
    pub fn cef_level(level: Level) -> (severity: i32)
        ensures
            severity == cef_level_of(level),
    {
        match level {
            Level::Error => 2,
            Level::Warn => 1,
            Level::Info => 0,
            Level::Debug => 0,
            Level::Trace => 0,
        }
    }

    /// The least severe level that CEF's minimum severity lets through.
    pub fn log_level(severity: i32) -> (level: Level)
        ensures
            level == level_of_severity(severity),
    {
        if severity == LOGSEVERITY_DEBUG {
            Level::Debug
        } else if severity == LOGSEVERITY_INFO {
            Level::Info
        } else if severity == LOGSEVERITY_WARNING {
            Level::Warn
        } else {
            Level::Error
        }
    }

    /// Whether CEF, with the given minimum severity, takes records of the
    /// given level.
    pub fn enabled(&self, min_severity: i32, level: Level) -> (b: bool)
        ensures
            b == cef_allows(min_severity, level),
    {
        if min_severity == LOGSEVERITY_DISABLE {
            false
        } else {
            let least = Logger::log_level(min_severity);
            level_rank_of(level) <= level_rank_of(least)
        }
    }

    /// The filter for a module path: that of the first per-module entry whose
    /// path is a prefix of it, or the default filter.
    pub fn module_level(&self, module: &str) -> (filter: LevelFilter)
        ensures
            filter == module_filter(self.module_levels(), encode_utf8(module@), self.default_level()),
    {
        let path = module.as_bytes();
        let ghost entries = self.module_levels();
        let mut i: usize = 0;
        assert(entries.skip(0) =~= entries);
        while i < self.module_path_levels.len()
            invariant
                i <= self.module_path_levels.len(),
                entries == self.module_levels(),
                entries.len() == self.module_path_levels@.len(),
                path@ == encode_utf8(module@),
                module_filter(entries, path@, self.level) == module_filter(entries.skip(i as int), path@, self.level),
            decreases self.module_path_levels.len() - i,
        {
            let entry = &self.module_path_levels[i];
            let prefix = entry.0.as_str().as_bytes();
            assert(entries.skip(i as int)[0] == entries[i as int]);
            if bytes_start_with(path, prefix) {
                return entry.1;
            }
            assert(entries.skip(i as int).drop_first() =~= entries.skip(i + 1));
            i = i + 1;
        }
        self.level
    }

    /// What to hand to `cef_log` for a record, given CEF's minimum severity;
    /// `None` where the record is filtered out or its text cannot be handed to
    /// C.
    pub fn log(&self, min_severity: i32, record: &Record) -> (m: Option<CefLogMessage>)
        ensures
            m is Some <==> {
                &&& cef_allows(min_severity, record.level)
                &&& (record.module matches Some(p) ==> level_passes(
                    record.level,
                    module_filter(self.module_levels(), encode_utf8(p@), self.default_level()),
                ))
                &&& c_string_compatible(record.message@)
            },
            m matches Some(msg) ==> {
                &&& msg.text@ == record.message@
                &&& msg.file@ == log_file_name(record.file)
                &&& msg.line == (match record.line { Some(l) => l as i32, None => 0i32 })
                &&& msg.severity == cef_level_of(record.level)
            },
    {
        if !self.enabled(min_severity, record.level) {
            return None;
        }
        match &record.module {
            Some(p) => {
                let active = self.module_level(p.as_str());
                if level_rank_of(record.level) > filter_rank_of(active) {
                    return None;
                }
            },
            None => {},
        }
        if has_nul(record.message.as_str().as_bytes()) {
            return None;
        }
        let file = match &record.file {
            Some(f) => {
                if has_nul(f.as_str().as_bytes()) {
                    unknown_file()
                } else {
                    f.clone()
                }
            },
            None => unknown_file(),
        };
        let line: i32 = match record.line {
            Some(l) => l as i32,
            None => 0,
        };
        Some(CefLogMessage {
            file,
            line,
            severity: Logger::cef_level(record.level),
            text: record.message.clone(),
        })
    }
}

/// The filter of a module path is that of the first entry whose path prefixes
/// it.
pub proof fn lemma_first_matching_module_filter(entries: Seq<(Seq<char>, LevelFilter)>, path: Seq<u8>, default: LevelFilter, i: int)
    requires
        0 <= i < entries.len(),
        encode_utf8(entries[i].0).is_prefix_of(path),
        forall|j: int| 0 <= j < i ==> !#[trigger] encode_utf8(entries[j].0).is_prefix_of(path),
    ensures
        module_filter(entries, path, default) == entries[i].1,
    decreases i,
{
    if i > 0 {
        let rest = entries.drop_first();
        assert forall|j: int| 0 <= j < i - 1 implies !#[trigger] encode_utf8(rest[j].0).is_prefix_of(path) by {
            assert(rest[j] == entries[j + 1]);
        }
        assert(!encode_utf8(entries[0].0).is_prefix_of(path));
        lemma_first_matching_module_filter(rest, path, default, i - 1);
    }
}

/// The filter of a module path where no entry prefixes it is the default
/// filter.
pub proof fn lemma_unmatched_module_filter(entries: Seq<(Seq<char>, LevelFilter)>, path: Seq<u8>, default: LevelFilter)
    requires
        forall|j: int| 0 <= j < entries.len() ==> !#[trigger] encode_utf8(entries[j].0).is_prefix_of(path),
    ensures
        module_filter(entries, path, default) == default,
    decreases entries.len(),
{
    if entries.len() > 0 {
        let rest = entries.drop_first();
        assert forall|j: int| 0 <= j < rest.len() implies !#[trigger] encode_utf8(rest[j].0).is_prefix_of(path) by {
            assert(rest[j] == entries[j + 1]);
        }
        assert(!encode_utf8(entries[0].0).is_prefix_of(path));
        lemma_unmatched_module_filter(rest, path, default);
    }
}

/// Adding a per-module filter never changes the filter of a module path that
/// an earlier entry already covers: earlier entries take precedence.
pub proof fn lemma_added_module_filter_keeps_earlier(entries: Seq<(Seq<char>, LevelFilter)>, added: (Seq<char>, LevelFilter), path: Seq<u8>, default: LevelFilter, i: int)
    requires
        0 <= i < entries.len(),
        encode_utf8(entries[i].0).is_prefix_of(path),
    ensures
        module_filter(entries.push(added), path, default) == module_filter(entries, path, default),
    decreases entries.len(),
{
    let longer = entries.push(added);
    assert(longer[0] == entries[0]);
    if !encode_utf8(entries[0].0).is_prefix_of(path) {
        assert(longer.drop_first() =~= entries.drop_first().push(added));
        assert(entries.drop_first()[i - 1] == entries[i]);
        lemma_added_module_filter_keeps_earlier(entries.drop_first(), added, path, default, i - 1);
    }
}

fn unknown_file() -> (s: String)
    ensures
        s@ == "<unknown>"@,
{
    "<unknown>".to_owned()
}

fn level_rank_of(level: Level) -> (r: u8)
    ensures
        r == level_rank(level),
{
    match level {
        Level::Error => 1,
        Level::Warn => 2,
        Level::Info => 3,
        Level::Debug => 4,
        Level::Trace => 5,
    }
}

fn filter_rank_of(filter: LevelFilter) -> (r: u8)
    ensures
        r == filter_rank(filter),
{
    match filter {
        LevelFilter::Off => 0,
        LevelFilter::Error => 1,
        LevelFilter::Warn => 2,
        LevelFilter::Info => 3,
        LevelFilter::Debug => 4,
        LevelFilter::Trace => 5,
    }
}

} // verus!
