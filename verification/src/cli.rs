use vstd::prelude::*;

pub use crate::plain::format_services_plain;

use crate::numbers::{i64_parse, parse_i64_text, parse_u64_text, u64_parse};
use crate::keys::{
    event_key_message, event_key_of, service_key_message, service_key_of, EventKey, PluginKind, ProgramSearchQuery, ProgramSearchQueryModel,
    ServiceKey,
};
use crate::error::{error_text, EdcbError};
use crate::types::SearchDateInfo;
use crate::settings::{
    env_lookup, port_setting, timeout_setting, DEFAULT_PORT, DEFAULT_TIMEOUT_SECONDS,
};
use crate::text::{
    split_chars, split_on,
    chars_of, find_char, find_char_from, lemma_find_char, parse_i32, parse_i32_spec,
    parse_unsigned, parse_unsigned_spec, string_from_chars, decimal, signed_decimal, push_decimal,
    push_signed_decimal, push_str,
};

verus! {

/// How a command prints its result.
#[derive(Debug, Clone, Copy, PartialEq, Eq, Structural)]
pub enum OutputMode {
    Human,
    Json,
    Plain,
}

/// A command of the `edcb` command line.
#[derive(Debug, Clone, PartialEq, Eq)]
pub enum CliCommand {
    Services,
    Reserves,
    RecordedList,
    RecordedGet(i32),
    ProgramsSearch(ProgramSearchQuery),
    ReserveGet(i32),
    ReservePreview(EventKey),
    ReserveCreate(EventKey),
    ReserveDelete(i32),
    TunerReserves,
    TunerProcesses,
    Plugins(PluginKind),
    NotifyStatus,
}

/// What a `CliCommand` holds, with the search keyword as characters.
pub enum CliCommandModel {
    Services,
    Reserves,
    RecordedList,
    RecordedGet(i32),
    ProgramsSearch(ProgramSearchQueryModel),
    ReserveGet(i32),
    ReservePreview(EventKey),
    ReserveCreate(EventKey),
    ReserveDelete(i32),
    TunerReserves,
    TunerProcesses,
    Plugins(PluginKind),
    NotifyStatus,
}

impl DeepView for CliCommand {
    type V = CliCommandModel;

    open spec fn deep_view(&self) -> CliCommandModel {
        match self {
            CliCommand::Services => CliCommandModel::Services,
            CliCommand::Reserves => CliCommandModel::Reserves,
            CliCommand::RecordedList => CliCommandModel::RecordedList,
            CliCommand::RecordedGet(id) => CliCommandModel::RecordedGet(*id),
            CliCommand::ProgramsSearch(q) => CliCommandModel::ProgramsSearch(q.deep_view()),
            CliCommand::ReserveGet(id) => CliCommandModel::ReserveGet(*id),
            CliCommand::ReservePreview(k) => CliCommandModel::ReservePreview(*k),
            CliCommand::ReserveCreate(k) => CliCommandModel::ReserveCreate(*k),
            CliCommand::ReserveDelete(id) => CliCommandModel::ReserveDelete(*id),
            CliCommand::TunerReserves => CliCommandModel::TunerReserves,
            CliCommand::TunerProcesses => CliCommandModel::TunerProcesses,
            CliCommand::Plugins(k) => CliCommandModel::Plugins(*k),
            CliCommand::NotifyStatus => CliCommandModel::NotifyStatus,
        }
    }
}

/// A command with the connection settings and output mode it runs with.
#[derive(Debug, Clone, PartialEq, Eq)]
pub struct CliInvocation {
    pub host: String,
    pub port: u16,
    pub timeout_seconds: u64,
    pub output: OutputMode,
    pub command: CliCommand,
}

/// What a `CliInvocation` holds, with strings as characters.
pub struct CliInvocationModel {
    pub host: Seq<char>,
    pub port: u16,
    pub timeout_seconds: u64,
    pub output: OutputMode,
    pub command: CliCommandModel,
}

impl DeepView for CliInvocation {
    type V = CliInvocationModel;

    open spec fn deep_view(&self) -> CliInvocationModel {
        CliInvocationModel {
            host: self.host@,
            port: self.port,
            timeout_seconds: self.timeout_seconds,
            output: self.output,
            command: self.command.deep_view(),
        }
    }
}

/// What the command line asks for: a command to run, the help text or the version.
#[derive(Debug, Clone, PartialEq, Eq)]
pub enum CliAction {
    Run(CliInvocation),
    Help,
    Version,
}

/// A failure of the command line, with the process exit code it ends with.
#[derive(Debug, Clone, PartialEq, Eq)]
pub struct CliError {
    pub exit_code: i32,
    pub message: String,
}

/// Exit code of a command line that cannot be understood.
pub const EXIT_USAGE: i32 = 2;

/// Exit code of a command that failed while it ran.
pub const EXIT_RUNTIME: i32 = 1;

/// Where in the command tree the arguments read so far have led.
#[derive(Debug, Clone, Copy, PartialEq, Eq, Structural)]
pub enum Level {
    Top,
    Services,
    Reserves,
    ReservesGet,
    ReservesPreview,
    ReservesCreate,
    ReservesDelete,
    Recorded,
    RecordedList,
    RecordedGet,
    Programs,
    ProgramsSearch,
    TunerReserves,
    TunerProcesses,
    Plugins,
    NotifyStatus,
}

/// The options a command line can hold.
#[derive(Debug, Clone, Copy, PartialEq, Eq, Structural)]
pub enum OptKind {
    Help,
    Version,
    Json,
    Plain,
    Yes,
    TitleOnly,
    Host,
    Port,
    Timeout,
    Event,
    Keyword,
    Service,
    Unknown,
}

/// Which option an option name stands for where the command line has reached `level`.
pub open spec fn option_kind(name: Seq<char>, level: Level) -> OptKind {
    if name == "--help"@ || name == "-h"@ {
        OptKind::Help
    } else if (name == "--version"@ || name == "-V"@) && level == Level::Top {
        OptKind::Version
    } else if name == "--json"@ {
        OptKind::Json
    } else if name == "--plain"@ {
        OptKind::Plain
    } else if name == "--host"@ {
        OptKind::Host
    } else if name == "--port"@ {
        OptKind::Port
    } else if name == "--timeout-seconds"@ {
        OptKind::Timeout
    } else if name == "--yes"@ && (level == Level::ReservesCreate || level == Level::ReservesDelete) {
        OptKind::Yes
    } else if name == "--event"@ && (level == Level::ReservesPreview || level == Level::ReservesCreate) {
        OptKind::Event
    } else if name == "--keyword"@ && level == Level::ProgramsSearch {
        OptKind::Keyword
    } else if name == "--title-only"@ && level == Level::ProgramsSearch {
        OptKind::TitleOnly
    } else if name == "--service"@ && level == Level::ProgramsSearch {
        OptKind::Service
    } else {
        OptKind::Unknown
    }
}

/// How an option is named in messages.
pub open spec fn option_display(k: OptKind) -> Seq<char> {
    match k {
        OptKind::Help => "--help"@,
        OptKind::Version => "--version"@,
        OptKind::Json => "--json"@,
        OptKind::Plain => "--plain"@,
        OptKind::Yes => "--yes"@,
        OptKind::TitleOnly => "--title-only"@,
        OptKind::Host => "--host <host>"@,
        OptKind::Port => "--port <port>"@,
        OptKind::Timeout => "--timeout-seconds <n>"@,
        OptKind::Event => "--event <onid:tsid:sid:eid>"@,
        OptKind::Keyword => "--keyword <KEYWORD>"@,
        OptKind::Service => "--service <onid:tsid:sid>"@,
        OptKind::Unknown => Seq::empty(),
    }
}

/// Whether an argument is an option: a `-` and at least one more character.
pub open spec fn is_option(tok: Seq<char>) -> bool {
    tok.len() > 1 && tok[0] == '-'
}

/// Where a long option written `--name=value` splits into name and value.
pub open spec fn option_split(tok: Seq<char>) -> Option<int> {
    if tok.len() >= 2 && tok[0] == '-' && tok[1] == '-' {
        find_char(tok, '=')
    } else {
        None
    }
}

/// The name part of an option.
pub open spec fn option_name(tok: Seq<char>) -> Seq<char> {
    match option_split(tok) {
        Some(p) => tok.take(p),
        None => tok,
    }
}

/// The value written into an option after `=`, if any.
pub open spec fn option_inline(tok: Seq<char>) -> Option<Seq<char>> {
    match option_split(tok) {
        Some(p) => Some(tok.skip(p + 1)),
        None => None,
    }
}

/// The arguments read so far.
pub struct ArgScanModel {
    pub host: Option<Seq<char>>,
    pub port: Option<u16>,
    pub timeout: Option<u64>,
    pub json: bool,
    pub plain: bool,
    pub level: Level,
    pub id: Option<i32>,
    pub kind: Option<PluginKind>,
    pub event: Option<EventKey>,
    pub keyword: Option<Seq<char>>,
    pub title_only: bool,
    pub service: Option<ServiceKey>,
    pub yes: bool,
}

/// Nothing read yet.
pub open spec fn scan_start() -> ArgScanModel {
    ArgScanModel {
        host: None,
        port: None,
        timeout: None,
        json: false,
        plain: false,
        level: Level::Top,
        id: None,
        kind: None,
        event: None,
        keyword: None,
        title_only: false,
        service: None,
        yes: false,
    }
}

/// The outcome of reading one argument, or of reading all of them.
pub enum Scanned {
    Next(ArgScanModel, nat),
    Finished(ArgScanModel),
    Help,
    Version,
    Usage(Seq<char>),
}

pub open spec fn quoted(a: Seq<char>, v: Seq<char>, b: Seq<char>) -> Seq<char> {
    a + v + b
}

pub open spec fn unexpected_argument_msg(tok: Seq<char>) -> Seq<char> {
    quoted("unexpected argument '"@, tok, "' found"@)
}

pub open spec fn unexpected_value_msg(v: Seq<char>, name: Seq<char>) -> Seq<char> {
    quoted("unexpected value '"@, v, "' for '"@) + quoted(name, Seq::empty(), "' found; no more were expected"@)
}

pub open spec fn repeated_msg(display: Seq<char>) -> Seq<char> {
    quoted("the argument '"@, display, "' cannot be used multiple times"@)
}

pub open spec fn missing_value_msg(display: Seq<char>) -> Seq<char> {
    quoted("a value is required for '"@, display, "' but none was supplied"@)
}

pub open spec fn unrecognized_msg(tok: Seq<char>) -> Seq<char> {
    quoted("unrecognized subcommand '"@, tok, "'"@)
}

/// The line that every error of the command line's grammar ends with.
pub open spec fn help_hint() -> Seq<char> {
    "\n\nFor more information, try '--help'.\n"@
}

/// The command's name at a level.
pub open spec fn level_name(l: Level) -> Seq<char> {
    match l {
        Level::Top => "edcb"@,
        Level::Services => "edcb services"@,
        Level::Reserves => "edcb reserves"@,
        Level::ReservesGet => "edcb reserves get"@,
        Level::ReservesPreview => "edcb reserves preview"@,
        Level::ReservesCreate => "edcb reserves create"@,
        Level::ReservesDelete => "edcb reserves delete"@,
        Level::Recorded => "edcb recorded"@,
        Level::RecordedList => "edcb recorded list"@,
        Level::RecordedGet => "edcb recorded get"@,
        Level::Programs => "edcb programs"@,
        Level::ProgramsSearch => "edcb programs search"@,
        Level::TunerReserves => "edcb tuner-reserves"@,
        Level::TunerProcesses => "edcb tuner-processes"@,
        Level::Plugins => "edcb plugins"@,
        Level::NotifyStatus => "edcb notify-status"@,
    }
}

/// The usage line of a level, as its help shows it: the name, `[OPTIONS]`, the required
/// option and positional argument, and the subcommand where there are subcommands.
pub open spec fn level_usage(l: Level) -> Seq<char> {
    match l {
        Level::Top => "edcb [OPTIONS] <COMMAND>"@,
        Level::Services => "edcb services [OPTIONS]"@,
        Level::Reserves => "edcb reserves [OPTIONS] [COMMAND]"@,
        Level::ReservesGet => "edcb reserves get [OPTIONS] <reserve-id>"@,
        Level::ReservesPreview => "edcb reserves preview [OPTIONS] --event <onid:tsid:sid:eid>"@,
        Level::ReservesCreate => "edcb reserves create [OPTIONS] --event <onid:tsid:sid:eid>"@,
        Level::ReservesDelete => "edcb reserves delete [OPTIONS] <reserve-id>"@,
        Level::Recorded => "edcb recorded [OPTIONS] <COMMAND>"@,
        Level::RecordedList => "edcb recorded list [OPTIONS]"@,
        Level::RecordedGet => "edcb recorded get [OPTIONS] <info-id>"@,
        Level::Programs => "edcb programs [OPTIONS] <COMMAND>"@,
        Level::ProgramsSearch => "edcb programs search [OPTIONS]"@,
        Level::TunerReserves => "edcb tuner-reserves [OPTIONS]"@,
        Level::TunerProcesses => "edcb tuner-processes [OPTIONS]"@,
        Level::Plugins => "edcb plugins [OPTIONS] <write|rec_name>"@,
        Level::NotifyStatus => "edcb notify-status [OPTIONS]"@,
    }
}

/// An error with the usage line of the level it was found at and the help hint.
pub open spec fn with_usage(core: Seq<char>, l: Level) -> Seq<char> {
    core + "\n\nUsage: "@ + level_usage(l) + help_hint()
}

/// An error followed by the help hint alone.
pub open spec fn with_hint(core: Seq<char>) -> Seq<char> {
    core + help_hint()
}

/// A required argument that is missing: listed on a line of its own, with the usage that
/// names it.
pub open spec fn required_error(l: Level, display: Seq<char>) -> Seq<char> {
    "the following required arguments were not provided:\n  "@ + display + "\n\nUsage: "@ + level_name(l)
        + " "@ + display + help_hint()
}

/// The subcommands a level offers, `help` last.
pub open spec fn subcommand_names(l: Level) -> Seq<char> {
    match l {
        Level::Recorded => "list, get, help"@,
        Level::Programs => "search, help"@,
        _ => "services, reserves, recorded, programs, tuner-reserves, tuner-processes, plugins, notify-status, help"@,
    }
}

/// A level that needs a subcommand was left without one.
pub open spec fn missing_subcommand_msg(l: Level) -> Seq<char> {
    with_usage(
        "'"@ + level_name(l) + "' requires a subcommand but one was not provided\n  [subcommands: "@
            + subcommand_names(l) + "]"@,
        l,
    )
}

/// Why a reservation or recording id is no id: what parsing it as an `i64` says, or that the
/// number is out of the range of an `i32`.
pub open spec fn id_reason(v: Seq<char>) -> Seq<char> {
    match i64_parse(v) {
        Err(m) => m,
        Ok(n) => signed_decimal(n) + " is not in -2147483648..=2147483647"@,
    }
}

/// Why an option's value is no value of that option.
pub open spec fn value_reason(k: OptKind, v: Seq<char>) -> Seq<char> {
    match k {
        OptKind::Port => match i64_parse(v) {
            Err(m) => m,
            Ok(n) => signed_decimal(n) + " is not in 0..=65535"@,
        },
        OptKind::Timeout => match u64_parse(v) {
            Err(m) => m,
            Ok(n) => decimal(n) + " is not in 1..18446744073709551615"@,
        },
        OptKind::Event => event_key_message(v),
        OptKind::Service => service_key_message(v),
        _ => Seq::empty(),
    }
}

/// Whether a flag option was given already.
pub open spec fn flag_seen(st: ArgScanModel, k: OptKind) -> bool {
    match k {
        OptKind::Json => st.json,
        OptKind::Plain => st.plain,
        OptKind::Yes => st.yes,
        OptKind::TitleOnly => st.title_only,
        _ => false,
    }
}

/// The state after a flag option.
pub open spec fn flag_set(st: ArgScanModel, k: OptKind) -> ArgScanModel {
    match k {
        OptKind::Json => ArgScanModel { json: true, ..st },
        OptKind::Plain => ArgScanModel { plain: true, ..st },
        OptKind::Yes => ArgScanModel { yes: true, ..st },
        OptKind::TitleOnly => ArgScanModel { title_only: true, ..st },
        _ => st,
    }
}

/// Whether an option that takes a value was given already.
pub open spec fn value_seen(st: ArgScanModel, k: OptKind) -> bool {
    match k {
        OptKind::Host => st.host is Some,
        OptKind::Port => st.port is Some,
        OptKind::Timeout => st.timeout is Some,
        OptKind::Event => st.event is Some,
        OptKind::Keyword => st.keyword is Some,
        OptKind::Service => st.service is Some,
        _ => false,
    }
}

/// The state after an option with value `v`, or `None` where `v` is no valid value.
pub open spec fn value_set(st: ArgScanModel, k: OptKind, v: Seq<char>) -> Option<ArgScanModel> {
    match k {
        OptKind::Host => Some(ArgScanModel { host: Some(v), ..st }),
        OptKind::Port => match i64_parse(v) {
            Ok(p) => if 0 <= p <= 65535 {
                Some(ArgScanModel { port: Some(p as u16), ..st })
            } else {
                None
            },
            Err(_) => None,
        },
        OptKind::Timeout => match parse_unsigned_spec(v, 18446744073709551615) {
            Some(t) => if t >= 1 {
                Some(ArgScanModel { timeout: Some(t as u64), ..st })
            } else {
                None
            },
            None => None,
        },
        OptKind::Event => match event_key_of(v) {
            Some(e) => Some(ArgScanModel { event: Some(e), ..st }),
            None => None,
        },
        OptKind::Keyword => Some(ArgScanModel { keyword: Some(v), ..st }),
        OptKind::Service => match service_key_of(v) {
            Some(s) => Some(ArgScanModel { service: Some(s), ..st }),
            None => None,
        },
        _ => None,
    }
}

/// The value of the option at `i`: written after `=`, or the next argument where that is no
/// option; with the number of arguments the option takes up.
pub open spec fn option_value(toks: Seq<Seq<char>>, i: int) -> Option<(Seq<char>, nat)> {
    match option_inline(toks[i]) {
        Some(v) => Some((v, 1)),
        None => if i + 1 < toks.len() && !is_option(toks[i + 1]) {
            Some((toks[i + 1], 2))
        } else {
            None
        },
    }
}

/// The subcommand a word names at a level that takes subcommands.
pub open spec fn subcommand(level: Level, tok: Seq<char>) -> Option<Level> {
    match level {
        Level::Top => if tok == "services"@ {
            Some(Level::Services)
        } else if tok == "reserves"@ {
            Some(Level::Reserves)
        } else if tok == "recorded"@ {
            Some(Level::Recorded)
        } else if tok == "programs"@ {
            Some(Level::Programs)
        } else if tok == "tuner-reserves"@ {
            Some(Level::TunerReserves)
        } else if tok == "tuner-processes"@ {
            Some(Level::TunerProcesses)
        } else if tok == "plugins"@ {
            Some(Level::Plugins)
        } else if tok == "notify-status"@ {
            Some(Level::NotifyStatus)
        } else {
            None
        },
        Level::Reserves => if tok == "get"@ {
            Some(Level::ReservesGet)
        } else if tok == "preview"@ {
            Some(Level::ReservesPreview)
        } else if tok == "create"@ {
            Some(Level::ReservesCreate)
        } else if tok == "delete"@ {
            Some(Level::ReservesDelete)
        } else {
            None
        },
        Level::Recorded => if tok == "list"@ {
            Some(Level::RecordedList)
        } else if tok == "get"@ {
            Some(Level::RecordedGet)
        } else {
            None
        },
        Level::Programs => if tok == "search"@ {
            Some(Level::ProgramsSearch)
        } else {
            None
        },
        _ => None,
    }
}

/// Whether a level chooses among subcommands.
pub open spec fn has_subcommands(level: Level) -> bool {
    level == Level::Top || level == Level::Reserves || level == Level::Recorded || level
        == Level::Programs
}

/// Whether a level takes a numeric id.
pub open spec fn takes_id(level: Level) -> bool {
    level == Level::ReservesGet || level == Level::ReservesDelete || level == Level::RecordedGet
}

/// How the id argument of a level is named.
pub open spec fn id_display(level: Level) -> Seq<char> {
    if level == Level::RecordedGet {
        "<info-id>"@
    } else {
        "<reserve-id>"@
    }
}

/// Reads a word that is no option.
pub open spec fn scan_positional(tok: Seq<char>, st: ArgScanModel) -> Scanned {
    if has_subcommands(st.level) {
        match subcommand(st.level, tok) {
            Some(l) => Scanned::Next(ArgScanModel { level: l, ..st }, 1),
            None => if tok == "help"@ {
                Scanned::Help
            } else {
                Scanned::Usage(with_usage(unrecognized_msg(tok), st.level))
            },
        }
    } else if takes_id(st.level) && st.id is None {
        match parse_i32_spec(tok) {
            Some(v) => Scanned::Next(ArgScanModel { id: Some(v as i32), ..st }, 1),
            None => Scanned::Usage(
                with_hint(
                    quoted("invalid value '"@, tok, "' for '"@) + quoted(id_display(st.level), Seq::empty(), "': "@)
                        + id_reason(tok),
                ),
            ),
        }
    } else if st.level == Level::Plugins && st.kind is None {
        if tok == "write"@ {
            Scanned::Next(ArgScanModel { kind: Some(PluginKind::Write), ..st }, 1)
        } else if tok == "rec_name"@ {
            Scanned::Next(ArgScanModel { kind: Some(PluginKind::RecName), ..st }, 1)
        } else {
            Scanned::Usage(
                with_hint(
                    quoted("invalid value '"@, tok, "' for '"@) + quoted(
                        "<write|rec_name>"@,
                        Seq::empty(),
                        "'\n  [possible values: write, rec_name]"@,
                    ),
                ),
            )
        }
    } else {
        Scanned::Usage(with_usage(unexpected_argument_msg(tok), st.level))
    }
}

/// Reads the argument at `i`.
pub open spec fn scan_step(toks: Seq<Seq<char>>, i: int, st: ArgScanModel) -> Scanned {
    let tok = toks[i];
    if is_option(tok) {
        let name = option_name(tok);
        let k = option_kind(name, st.level);
        match k {
            OptKind::Unknown => Scanned::Usage(with_usage(unexpected_argument_msg(tok), st.level)),
            OptKind::Help | OptKind::Version | OptKind::Json | OptKind::Plain | OptKind::Yes
            | OptKind::TitleOnly => match option_inline(tok) {
                Some(v) => Scanned::Usage(with_usage(unexpected_value_msg(v, name), st.level)),
                None => if k == OptKind::Help {
                    Scanned::Help
                } else if k == OptKind::Version {
                    Scanned::Version
                } else if flag_seen(st, k) {
                    Scanned::Usage(with_usage(repeated_msg(option_display(k)), st.level))
                } else {
                    Scanned::Next(flag_set(st, k), 1)
                },
            },
            _ => if value_seen(st, k) {
                Scanned::Usage(with_usage(repeated_msg(option_display(k)), st.level))
            } else {
                match option_value(toks, i) {
                    None => Scanned::Usage(with_hint(missing_value_msg(option_display(k)))),
                    Some((v, n)) => match value_set(st, k, v) {
                        Some(s2) => Scanned::Next(s2, n),
                        None => Scanned::Usage(
                            with_hint(
                                quoted("invalid value '"@, v, "' for '"@) + quoted(option_display(k), Seq::empty(), "': "@)
                                    + value_reason(k, v),
                            ),
                        ),
                    },
                }
            },
        }
    } else {
        scan_positional(tok, st)
    }
}

/// Reads the arguments from `i` on.
pub open spec fn scan_from(toks: Seq<Seq<char>>, i: int, st: ArgScanModel) -> Scanned
    decreases toks.len() - i,
{
    if i < 0 || i >= toks.len() {
        Scanned::Finished(st)
    } else {
        match scan_step(toks, i, st) {
            Scanned::Next(s2, n) => if n >= 1 {
                scan_from(toks, i + n, s2)
            } else {
                Scanned::Finished(s2)
            },
            other => other,
        }
    }
}


/// The arguments read so far.
pub struct ArgScan {
    pub host: Option<String>,
    pub port: Option<u16>,
    pub timeout: Option<u64>,
    pub json: bool,
    pub plain: bool,
    pub level: Level,
    pub id: Option<i32>,
    pub kind: Option<PluginKind>,
    pub event: Option<EventKey>,
    pub keyword: Option<String>,
    pub title_only: bool,
    pub service: Option<ServiceKey>,
    pub yes: bool,
}

/// The characters of an optional string.
pub open spec fn opt_chars(s: Option<String>) -> Option<Seq<char>> {
    match s {
        Some(v) => Some(v@),
        None => None,
    }
}

impl DeepView for ArgScan {
    type V = ArgScanModel;

    open spec fn deep_view(&self) -> ArgScanModel {
        ArgScanModel {
            host: opt_chars(self.host),
            port: self.port,
            timeout: self.timeout,
            json: self.json,
            plain: self.plain,
            level: self.level,
            id: self.id,
            kind: self.kind,
            event: self.event,
            keyword: opt_chars(self.keyword),
            title_only: self.title_only,
            service: self.service,
            yes: self.yes,
        }
    }
}

impl ArgScan {
    /// Nothing read yet.
    pub fn new() -> (r: ArgScan)
        ensures
            r.deep_view() == scan_start(),
    {
        ArgScan {
            host: None,
            port: None,
            timeout: None,
            json: false,
            plain: false,
            level: Level::Top,
            id: None,
            kind: None,
            event: None,
            keyword: None,
            title_only: false,
            service: None,
            yes: false,
        }
    }
}

/// The outcome of reading one argument.
pub enum Step {
    Next(ArgScan, usize),
    Help,
    Version,
    Usage(String),
}

/// Whether `tok` is the word `s`.
pub fn is_word(tok: &Vec<char>, s: &str) -> (b: bool)
    ensures
        b == (tok@ == s@),
{
    let w = chars_of(s);
    if tok.len() != w.len() {
        return false;
    }
    let n = tok.len();
    for i in 0..n
        invariant
            n == tok@.len(),
            n == w@.len(),
            w@ == s@,
            forall|j: int| 0 <= j < i ==> tok@[j] == w@[j],
    {
        if tok[i] != w[i] {
            return false;
        }
    }
    assert(tok@ =~= w@);
    true
}

/// The text `a`, then `v`, then `b`.
pub fn text_around(a: &str, v: &Vec<char>, b: &str) -> (s: String)
    ensures
        s@ == quoted(a@, v@, b@),
{
    let mut cs = chars_of(a);
    let mut mid = v.clone();
    cs.append(&mut mid);
    let mut tail = chars_of(b);
    cs.append(&mut tail);
    string_from_chars(cs.as_slice())
}

fn option_kind_of(name: &Vec<char>, level: Level) -> (k: OptKind)
    ensures
        k == option_kind(name@, level),
{
    if is_word(name, "--help") || is_word(name, "-h") {
        OptKind::Help
    } else if (is_word(name, "--version") || is_word(name, "-V")) && level == Level::Top {
        OptKind::Version
    } else if is_word(name, "--json") {
        OptKind::Json
    } else if is_word(name, "--plain") {
        OptKind::Plain
    } else if is_word(name, "--host") {
        OptKind::Host
    } else if is_word(name, "--port") {
        OptKind::Port
    } else if is_word(name, "--timeout-seconds") {
        OptKind::Timeout
    } else if is_word(name, "--yes") && (level == Level::ReservesCreate || level
        == Level::ReservesDelete) {
        OptKind::Yes
    } else if is_word(name, "--event") && (level == Level::ReservesPreview || level
        == Level::ReservesCreate) {
        OptKind::Event
    } else if is_word(name, "--keyword") && level == Level::ProgramsSearch {
        OptKind::Keyword
    } else if is_word(name, "--title-only") && level == Level::ProgramsSearch {
        OptKind::TitleOnly
    } else if is_word(name, "--service") && level == Level::ProgramsSearch {
        OptKind::Service
    } else {
        OptKind::Unknown
    }
}

fn option_display_of(k: OptKind) -> (s: &'static str)
    ensures
        s@ == option_display(k),
{
    match k {
        OptKind::Help => "--help",
        OptKind::Version => "--version",
        OptKind::Json => "--json",
        OptKind::Plain => "--plain",
        OptKind::Yes => "--yes",
        OptKind::TitleOnly => "--title-only",
        OptKind::Host => "--host <host>",
        OptKind::Port => "--port <port>",
        OptKind::Timeout => "--timeout-seconds <n>",
        OptKind::Event => "--event <onid:tsid:sid:eid>",
        OptKind::Keyword => "--keyword <KEYWORD>",
        OptKind::Service => "--service <onid:tsid:sid>",
        OptKind::Unknown => {
            proof {
                reveal_strlit("");
            }
            ""
        },
    }
}

/// The name of an option and the value written into it after `=`.
fn option_parts(tok: &Vec<char>) -> (r: (Vec<char>, Option<Vec<char>>))
    ensures
        r.0@ == option_name(tok@),
        match option_inline(tok@) {
            Some(v) => r.1 matches Some(x) && x@ == v,
            None => r.1 is None,
        },
{
    if tok.len() >= 2 && tok[0] == '-' && tok[1] == '-' {
        proof {
            lemma_find_char(tok@, '=');
            assert(tok@.skip(0) =~= tok@);
        }
        match find_char_from(tok.as_slice(), 0, '=') {
            Some(p) => {
                let name = crate::text::copy_range(tok.as_slice(), 0, p);
                let value = crate::text::copy_range(tok.as_slice(), p + 1, tok.len());
                assert(name@ =~= tok@.take(p as int));
                assert(value@ =~= tok@.skip(p + 1));
                (name, Some(value))
            },
            None => (tok.clone(), None),
        }
    } else {
        (tok.clone(), None)
    }
}

fn is_option_exec(tok: &Vec<char>) -> (b: bool)
    ensures
        b == is_option(tok@),
{
    tok.len() > 1 && tok[0] == '-'
}


fn chars_to_string(v: &Vec<char>) -> (s: String)
    ensures
        s@ == v@,
{
    string_from_chars(v.as_slice())
}

/// The state after an option with value `v`, or `None` where `v` is no valid value.
fn apply_value(st: ArgScan, k: OptKind, v: &Vec<char>) -> (r: Option<ArgScan>)
    ensures
        match value_set(st.deep_view(), k, v@) {
            Some(m) => r matches Some(s2) && s2.deep_view() == m,
            None => r is None,
        },
{
    let mut s2 = st;
    match k {
        OptKind::Host => {
            s2.host = Some(chars_to_string(v));
            Some(s2)
        },
        OptKind::Port => match parse_i64_text(v.as_slice()) {
            Ok(p) => if 0 <= p && p <= 65535 {
                s2.port = Some(p as u16);
                Some(s2)
            } else {
                None
            },
            Err(_) => None,
        },
        OptKind::Timeout => match parse_unsigned(v.as_slice(), 18446744073709551615) {
            Some(t) => if t >= 1 {
                s2.timeout = Some(t);
                Some(s2)
            } else {
                None
            },
            None => None,
        },
        OptKind::Event => {
            let text = chars_to_string(v);
            match EventKey::parse(text.as_str()) {
                Ok(e) => {
                    s2.event = Some(e);
                    Some(s2)
                },
                Err(_) => None,
            }
        },
        OptKind::Keyword => {
            s2.keyword = Some(chars_to_string(v));
            Some(s2)
        },
        OptKind::Service => {
            let text = chars_to_string(v);
            match ServiceKey::parse(text.as_str()) {
                Ok(sk) => {
                    s2.service = Some(sk);
                    Some(s2)
                },
                Err(_) => None,
            }
        },
        _ => None,
    }
}

fn subcommand_of(level: Level, tok: &Vec<char>) -> (r: Option<Level>)
    ensures
        r == subcommand(level, tok@),
{
    match level {
        Level::Top => if is_word(tok, "services") {
            Some(Level::Services)
        } else if is_word(tok, "reserves") {
            Some(Level::Reserves)
        } else if is_word(tok, "recorded") {
            Some(Level::Recorded)
        } else if is_word(tok, "programs") {
            Some(Level::Programs)
        } else if is_word(tok, "tuner-reserves") {
            Some(Level::TunerReserves)
        } else if is_word(tok, "tuner-processes") {
            Some(Level::TunerProcesses)
        } else if is_word(tok, "plugins") {
            Some(Level::Plugins)
        } else if is_word(tok, "notify-status") {
            Some(Level::NotifyStatus)
        } else {
            None
        },
        Level::Reserves => if is_word(tok, "get") {
            Some(Level::ReservesGet)
        } else if is_word(tok, "preview") {
            Some(Level::ReservesPreview)
        } else if is_word(tok, "create") {
            Some(Level::ReservesCreate)
        } else if is_word(tok, "delete") {
            Some(Level::ReservesDelete)
        } else {
            None
        },
        Level::Recorded => if is_word(tok, "list") {
            Some(Level::RecordedList)
        } else if is_word(tok, "get") {
            Some(Level::RecordedGet)
        } else {
            None
        },
        Level::Programs => if is_word(tok, "search") {
            Some(Level::ProgramsSearch)
        } else {
            None
        },
        _ => None,
    }
}

fn level_name_exec(l: Level) -> (s: &'static str)
    ensures
        s@ == level_name(l),
{
    match l {
        Level::Top => "edcb",
        Level::Services => "edcb services",
        Level::Reserves => "edcb reserves",
        Level::ReservesGet => "edcb reserves get",
        Level::ReservesPreview => "edcb reserves preview",
        Level::ReservesCreate => "edcb reserves create",
        Level::ReservesDelete => "edcb reserves delete",
        Level::Recorded => "edcb recorded",
        Level::RecordedList => "edcb recorded list",
        Level::RecordedGet => "edcb recorded get",
        Level::Programs => "edcb programs",
        Level::ProgramsSearch => "edcb programs search",
        Level::TunerReserves => "edcb tuner-reserves",
        Level::TunerProcesses => "edcb tuner-processes",
        Level::Plugins => "edcb plugins",
        Level::NotifyStatus => "edcb notify-status",
    }
}

fn level_usage_exec(l: Level) -> (s: &'static str)
    ensures
        s@ == level_usage(l),
{
    match l {
        Level::Top => "edcb [OPTIONS] <COMMAND>",
        Level::Services => "edcb services [OPTIONS]",
        Level::Reserves => "edcb reserves [OPTIONS] [COMMAND]",
        Level::ReservesGet => "edcb reserves get [OPTIONS] <reserve-id>",
        Level::ReservesPreview => "edcb reserves preview [OPTIONS] --event <onid:tsid:sid:eid>",
        Level::ReservesCreate => "edcb reserves create [OPTIONS] --event <onid:tsid:sid:eid>",
        Level::ReservesDelete => "edcb reserves delete [OPTIONS] <reserve-id>",
        Level::Recorded => "edcb recorded [OPTIONS] <COMMAND>",
        Level::RecordedList => "edcb recorded list [OPTIONS]",
        Level::RecordedGet => "edcb recorded get [OPTIONS] <info-id>",
        Level::Programs => "edcb programs [OPTIONS] <COMMAND>",
        Level::ProgramsSearch => "edcb programs search [OPTIONS]",
        Level::TunerReserves => "edcb tuner-reserves [OPTIONS]",
        Level::TunerProcesses => "edcb tuner-processes [OPTIONS]",
        Level::Plugins => "edcb plugins [OPTIONS] <write|rec_name>",
        Level::NotifyStatus => "edcb notify-status [OPTIONS]",
    }
}

fn with_usage_exec(core: String, l: Level) -> (s: String)
    ensures
        s@ == with_usage(core@, l),
{
    let mut out = chars_of(core.as_str());
    push_str(&mut out, "\n\nUsage: ");
    push_str(&mut out, level_usage_exec(l));
    push_str(&mut out, "\n\nFor more information, try '--help'.\n");
    string_from_chars(out.as_slice())
}

fn with_hint_exec(core: String) -> (s: String)
    ensures
        s@ == with_hint(core@),
{
    let mut out = chars_of(core.as_str());
    push_str(&mut out, "\n\nFor more information, try '--help'.\n");
    string_from_chars(out.as_slice())
}

fn missing_subcommand_exec(l: Level) -> (s: String)
    ensures
        s@ == missing_subcommand_msg(l),
{
    let names = match l {
        Level::Recorded => "list, get, help",
        Level::Programs => "search, help",
        _ => "services, reserves, recorded, programs, tuner-reserves, tuner-processes, plugins, notify-status, help",
    };
    assert(names@ == subcommand_names(l));
    let mut out = chars_of("'");
    push_str(&mut out, level_name_exec(l));
    push_str(&mut out, "' requires a subcommand but one was not provided\n  [subcommands: ");
    push_str(&mut out, names);
    push_str(&mut out, "]");
    with_usage_exec(string_from_chars(out.as_slice()), l)
}

/// The text of why `v` is no id.
fn id_reason_exec(v: &Vec<char>) -> (s: String)
    ensures
        s@ == id_reason(v@),
{
    match parse_i64_text(v.as_slice()) {
        Err(m) => m,
        Ok(n) => {
            let mut out: Vec<char> = Vec::new();
            push_signed_decimal(&mut out, n);
            push_str(&mut out, " is not in -2147483648..=2147483647");
            string_from_chars(out.as_slice())
        },
    }
}

/// The text of why `v` is no value of the option `k`.
fn value_reason_exec(k: OptKind, v: &Vec<char>) -> (s: String)
    ensures
        s@ == value_reason(k, v@),
{
    match k {
        OptKind::Port => match parse_i64_text(v.as_slice()) {
            Err(m) => m,
            Ok(n) => {
                let mut out: Vec<char> = Vec::new();
                push_signed_decimal(&mut out, n);
                push_str(&mut out, " is not in 0..=65535");
                string_from_chars(out.as_slice())
            },
        },
        OptKind::Timeout => match parse_u64_text(v.as_slice()) {
            Err(m) => m,
            Ok(n) => {
                let mut out: Vec<char> = Vec::new();
                push_decimal(&mut out, n);
                push_str(&mut out, " is not in 1..18446744073709551615");
                string_from_chars(out.as_slice())
            },
        },
        OptKind::Event => {
            let text = string_from_chars(v.as_slice());
            crate::keys::message_with("event key must be onid:tsid:sid:eid: ", text.as_str())
        },
        OptKind::Service => {
            let text = string_from_chars(v.as_slice());
            crate::keys::message_with("service key must be onid:tsid:sid: ", text.as_str())
        },
        _ => String::new(),
    }
}

/// Reads a word that is no option.
fn scan_positional_exec(tok: &Vec<char>, st: ArgScan) -> (r: Step)
    ensures
        match scan_positional(tok@, st.deep_view()) {
            Scanned::Next(m, n) => r matches Step::Next(s2, k) && s2.deep_view() == m && k == n,
            Scanned::Help => r is Help,
            Scanned::Version => r is Version,
            Scanned::Usage(msg) => r matches Step::Usage(u) && u@ == msg,
            Scanned::Finished(_) => false,
        },
{
    proof {
        reveal_strlit("");
    }
    let level = st.level;
    if level == Level::Top || level == Level::Reserves || level == Level::Recorded || level
        == Level::Programs {
        match subcommand_of(level, tok) {
            Some(l) => {
                let mut s2 = st;
                s2.level = l;
                Step::Next(s2, 1)
            },
            None => if is_word(tok, "help") {
                Step::Help
            } else {
                Step::Usage(with_usage_exec(text_around("unrecognized subcommand '", tok, "'"), level))
            },
        }
    } else if (level == Level::ReservesGet || level == Level::ReservesDelete || level
        == Level::RecordedGet) && st.id.is_none() {
        match parse_i32(tok.as_slice()) {
            Some(v) => {
                let mut s2 = st;
                s2.id = Some(v);
                Step::Next(s2, 1)
            },
            None => {
                let display = if level == Level::RecordedGet {
                    "<info-id>"
                } else {
                    "<reserve-id>"
                };
                let head = text_around("invalid value '", tok, "' for '");
                let dv = chars_of(display);
                let tail = text_around("", &dv, "': ");
                let reason = id_reason_exec(tok);
                Step::Usage(with_hint_exec(concat(concat(head, tail), reason)))
            },
        }
    } else if level == Level::Plugins && st.kind.is_none() {
        if is_word(tok, "write") {
            let mut s2 = st;
            s2.kind = Some(PluginKind::Write);
            Step::Next(s2, 1)
        } else if is_word(tok, "rec_name") {
            let mut s2 = st;
            s2.kind = Some(PluginKind::RecName);
            Step::Next(s2, 1)
        } else {
            let head = text_around("invalid value '", tok, "' for '");
            let dv = chars_of("<write|rec_name>");
            let tail = text_around("", &dv, "'\n  [possible values: write, rec_name]");
            Step::Usage(with_hint_exec(concat(head, tail)))
        }
    } else {
        Step::Usage(with_usage_exec(text_around("unexpected argument '", tok, "' found"), level))
    }
}

/// `a` followed by `b`.
pub fn concat(a: String, b: String) -> (s: String)
    ensures
        s@ == a@ + b@,
{
    let mut cs = chars_of(a.as_str());
    let mut tail = chars_of(b.as_str());
    cs.append(&mut tail);
    string_from_chars(cs.as_slice())
}


fn flag_seen_exec(st: &ArgScan, k: OptKind) -> (b: bool)
    ensures
        b == flag_seen(st.deep_view(), k),
{
    match k {
        OptKind::Json => st.json,
        OptKind::Plain => st.plain,
        OptKind::Yes => st.yes,
        OptKind::TitleOnly => st.title_only,
        _ => false,
    }
}

fn flag_set_exec(st: ArgScan, k: OptKind) -> (r: ArgScan)
    ensures
        r.deep_view() == flag_set(st.deep_view(), k),
{
    let mut s2 = st;
    match k {
        OptKind::Json => s2.json = true,
        OptKind::Plain => s2.plain = true,
        OptKind::Yes => s2.yes = true,
        OptKind::TitleOnly => s2.title_only = true,
        _ => {},
    }
    s2
}

fn value_seen_exec(st: &ArgScan, k: OptKind) -> (b: bool)
    ensures
        b == value_seen(st.deep_view(), k),
{
    match k {
        OptKind::Host => st.host.is_some(),
        OptKind::Port => st.port.is_some(),
        OptKind::Timeout => st.timeout.is_some(),
        OptKind::Event => st.event.is_some(),
        OptKind::Keyword => st.keyword.is_some(),
        OptKind::Service => st.service.is_some(),
        _ => false,
    }
}

fn usage_about(a: &str, v: &Vec<char>, b: &str, d: &str, e: &str) -> (s: String)
    ensures
        s@ == quoted(a@, v@, b@) + quoted(d@, Seq::empty(), e@),
{
    let head = text_around(a, v, b);
    let empty: Vec<char> = Vec::new();
    let tail = text_around(d, &empty, e);
    concat(head, tail)
}

/// Reads the argument at `i`.
pub fn scan_step_exec(toks: &Vec<Vec<char>>, i: usize, st: ArgScan) -> (r: Step)
    requires
        i < toks@.len(),
    ensures
        match scan_step(toks.deep_view(), i as int, st.deep_view()) {
            Scanned::Next(m, n) => r matches Step::Next(s2, k) && s2.deep_view() == m && k == n,
            Scanned::Help => r is Help,
            Scanned::Version => r is Version,
            Scanned::Usage(msg) => r matches Step::Usage(u) && u@ == msg,
            Scanned::Finished(_) => false,
        },
{
    proof {
        reveal_strlit("");
    }
    let ghost ts = toks.deep_view();
    let tok = &toks[i];
    assert(ts[i as int] =~= tok@);
    if !is_option_exec(tok) {
        return scan_positional_exec(tok, st);
    }
    let (name, inline) = option_parts(tok);
    let k = option_kind_of(&name, st.level);
    match k {
        OptKind::Unknown => Step::Usage(with_usage_exec(text_around("unexpected argument '", tok, "' found"), st.level)),
        OptKind::Help | OptKind::Version | OptKind::Json | OptKind::Plain | OptKind::Yes
        | OptKind::TitleOnly => match inline {
            Some(v) => {
                let head = text_around("unexpected value '", &v, "' for '");
                let tail = text_around("", &name, "' found; no more were expected");
                Step::Usage(with_usage_exec(concat(head, tail), st.level))
            },
            None => if k == OptKind::Help {
                Step::Help
            } else if k == OptKind::Version {
                Step::Version
            } else if flag_seen_exec(&st, k) {
                Step::Usage(
                    with_usage_exec(
                        text_around("the argument '", &chars_of(option_display_of(k)), "' cannot be used multiple times"),
                        st.level,
                    ),
                )
            } else {
                Step::Next(flag_set_exec(st, k), 1)
            },
        },
        _ => {
            let display = option_display_of(k);
            if value_seen_exec(&st, k) {
                return Step::Usage(
                    with_usage_exec(text_around("the argument '", &chars_of(display), "' cannot be used multiple times"), st.level),
                );
            }
            let (value, used): (Vec<char>, usize) = match inline {
                Some(v) => (v, 1),
                None => {
                    if i < toks.len() - 1 && !is_option_exec(&toks[i + 1]) {
                        assert(ts[i + 1] =~= toks@[i + 1]@);
                        (toks[i + 1].clone(), 2)
                    } else {
                        return Step::Usage(
                            with_hint_exec(text_around("a value is required for '", &chars_of(display), "' but none was supplied")),
                        );
                    }
                },
            };
            let vcopy = value.clone();
            match apply_value(st, k, &value) {
                Some(s2) => Step::Next(s2, used),
                None => {
                    let head = usage_about("invalid value '", &vcopy, "' for '", display, "': ");
                    let reason = value_reason_exec(k, &vcopy);
                    Step::Usage(with_hint_exec(concat(head, reason)))
                },
            }
        },
    }
}


/// The command that the arguments name once all of them are read, with the message of a
/// mutation that was not confirmed; or the message of what the command line lacks.
pub open spec fn scan_finish(st: ArgScanModel) -> Result<(CliCommandModel, Option<Seq<char>>), Seq<char>> {
    if st.json && st.plain {
        Err(with_usage("the argument '--json' cannot be used with '--plain'"@, st.level))
    } else {
        match st.level {
            Level::Top => Err(missing_subcommand_msg(Level::Top)),
            Level::Services => Ok((CliCommandModel::Services, None)),
            Level::Reserves => Ok((CliCommandModel::Reserves, None)),
            Level::ReservesGet => match st.id {
                Some(v) => Ok((CliCommandModel::ReserveGet(v), None)),
                None => Err(required_error(st.level, "<reserve-id>"@)),
            },
            Level::ReservesPreview => match st.event {
                Some(e) => Ok((CliCommandModel::ReservePreview(e), None)),
                None => Err(required_error(st.level, "--event <onid:tsid:sid:eid>"@)),
            },
            Level::ReservesCreate => match st.event {
                Some(e) => Ok(
                    (
                        CliCommandModel::ReserveCreate(e),
                        if st.yes {
                            None
                        } else {
                            Some("reserves create requires --yes to confirm mutation"@)
                        },
                    ),
                ),
                None => Err(required_error(st.level, "--event <onid:tsid:sid:eid>"@)),
            },
            Level::ReservesDelete => match st.id {
                Some(v) => Ok(
                    (
                        CliCommandModel::ReserveDelete(v),
                        if st.yes {
                            None
                        } else {
                            Some("reserves delete requires --yes to confirm mutation"@)
                        },
                    ),
                ),
                None => Err(required_error(st.level, "<reserve-id>"@)),
            },
            Level::Recorded => Err(missing_subcommand_msg(Level::Recorded)),
            Level::RecordedList => Ok((CliCommandModel::RecordedList, None)),
            Level::RecordedGet => match st.id {
                Some(v) => Ok((CliCommandModel::RecordedGet(v), None)),
                None => Err(required_error(st.level, "<info-id>"@)),
            },
            Level::Programs => Err(missing_subcommand_msg(Level::Programs)),
            Level::ProgramsSearch => Ok(
                (
                    CliCommandModel::ProgramsSearch(
                        ProgramSearchQueryModel {
                            keyword: match st.keyword {
                                Some(k) => k,
                                None => Seq::empty(),
                            },
                            title_only: st.title_only,
                            service: st.service,
                        },
                    ),
                    None,
                ),
            ),
            Level::TunerReserves => Ok((CliCommandModel::TunerReserves, None)),
            Level::TunerProcesses => Ok((CliCommandModel::TunerProcesses, None)),
            Level::Plugins => match st.kind {
                Some(k) => Ok((CliCommandModel::Plugins(k), None)),
                None => Err(required_error(st.level, "<write|rec_name>"@)),
            },
            Level::NotifyStatus => Ok((CliCommandModel::NotifyStatus, None)),
        }
    }
}

/// What a command line asks for, or the message of why it cannot be understood.
pub enum CliOutcome {
    Run(CliInvocationModel),
    Help,
    Version,
    Usage(Seq<char>),
}

/// The output mode the flags ask for.
pub open spec fn output_of(st: ArgScanModel) -> OutputMode {
    if st.json {
        OutputMode::Json
    } else if st.plain {
        OutputMode::Plain
    } else {
        OutputMode::Human
    }
}

/// The arguments after the program's name.
pub open spec fn arguments_after_name(args: Seq<Seq<char>>) -> Seq<Seq<char>> {
    if args.len() > 0 {
        args.drop_first()
    } else {
        args
    }
}

/// What the command line `args`, the program's name first, asks for in the environment
/// `env`. Options win over the environment, which wins over the defaults; the arguments are
/// checked first, then the port and the timeout taken from the environment, then the
/// confirmation of a mutation.
pub open spec fn cli_outcome(args: Seq<Seq<char>>, env: Seq<(Seq<char>, Seq<char>)>) -> CliOutcome {
    match scan_from(arguments_after_name(args), 0, scan_start()) {
        Scanned::Help => CliOutcome::Help,
        Scanned::Version => CliOutcome::Version,
        Scanned::Usage(m) => CliOutcome::Usage(m),
        Scanned::Next(_, _) => CliOutcome::Usage(Seq::empty()),
        Scanned::Finished(st) => match scan_finish(st) {
            Err(m) => CliOutcome::Usage(m),
            Ok((command, unconfirmed)) => {
                let host = match st.host {
                    Some(h) => h,
                    None => match env_lookup(env, "EDCB_HOST"@) {
                        Some(h) => h,
                        None => "127.0.0.1"@,
                    },
                };
                let port = match st.port {
                    Some(p) => Ok(p),
                    None => match env_lookup(env, "EDCB_PORT"@) {
                        Some(v) => port_setting(v),
                        None => Ok(DEFAULT_PORT),
                    },
                };
                let timeout = match st.timeout {
                    Some(t) => Ok(t),
                    None => match env_lookup(env, "EDCB_TIMEOUT_SECONDS"@) {
                        Some(v) => timeout_setting(v),
                        None => Ok(DEFAULT_TIMEOUT_SECONDS),
                    },
                };
                match (port, timeout, unconfirmed) {
                    (Err(m), _, _) => CliOutcome::Usage(m),
                    (Ok(_), Err(m), _) => CliOutcome::Usage(m),
                    (Ok(_), Ok(_), Some(m)) => CliOutcome::Usage(m),
                    (Ok(p), Ok(t), None) => CliOutcome::Run(
                        CliInvocationModel {
                            host,
                            port: p,
                            timeout_seconds: t,
                            output: output_of(st),
                            command,
                        },
                    ),
                }
            },
        },
    }
}

proof fn lemma_scan_step_advances(toks: Seq<Seq<char>>, i: int, st: ArgScanModel)
    requires
        0 <= i < toks.len(),
    ensures
        scan_step(toks, i, st) matches Scanned::Next(_, n) ==> 1 <= n && i + n <= toks.len(),
        !(scan_step(toks, i, st) is Finished),
{
}

fn usage(message: String) -> (e: CliError)
    ensures
        e.exit_code == EXIT_USAGE,
        e.message == message,
{
    CliError::invalid_usage(message)
}

impl CliError {
    /// A command line that cannot be understood: exit code 2.
    pub fn invalid_usage(message: String) -> (e: CliError)
        ensures
            e.exit_code == EXIT_USAGE,
            e.message == message,
    {
        CliError { exit_code: EXIT_USAGE, message }
    }

    /// A command that failed while it ran: exit code 1.
    pub fn runtime(message: String) -> (e: CliError)
        ensures
            e.exit_code == EXIT_RUNTIME,
            e.message == message,
    {
        CliError { exit_code: EXIT_RUNTIME, message }
    }
}

/// The failure of a command that EDCB or the connection made fail.
pub fn runtime_error(error: &EdcbError) -> (e: CliError)
    ensures
        e.exit_code == EXIT_RUNTIME,
        e.message@ == error_text(*error),
{
    CliError::runtime(error.message())
}

fn finish_scan(st: &ArgScan) -> (r: Result<(CliCommand, Option<String>), String>)
    ensures
        match scan_finish(st.deep_view()) {
            Ok((c, u)) => r matches Ok((c2, u2)) && c2.deep_view() == c && opt_chars(u2) == u,
            Err(m) => r matches Err(s) && s@ == m,
        },
{
    if st.json && st.plain {
        return Err(with_usage_exec("the argument '--json' cannot be used with '--plain'".to_string(), st.level));
    }
    match st.level {
        Level::Top => Err(missing_subcommand_exec(Level::Top)),
        Level::Services => Ok((CliCommand::Services, None)),
        Level::Reserves => Ok((CliCommand::Reserves, None)),
        Level::ReservesGet => match st.id {
            Some(v) => Ok((CliCommand::ReserveGet(v), None)),
            None => Err(required(st.level, "<reserve-id>")),
        },
        Level::ReservesPreview => match st.event {
            Some(e) => Ok((CliCommand::ReservePreview(e), None)),
            None => Err(required(st.level, "--event <onid:tsid:sid:eid>")),
        },
        Level::ReservesCreate => match st.event {
            Some(e) => {
                let unconfirmed = if st.yes {
                    None
                } else {
                    Some("reserves create requires --yes to confirm mutation".to_string())
                };
                Ok((CliCommand::ReserveCreate(e), unconfirmed))
            },
            None => Err(required(st.level, "--event <onid:tsid:sid:eid>")),
        },
        Level::ReservesDelete => match st.id {
            Some(v) => {
                let unconfirmed = if st.yes {
                    None
                } else {
                    Some("reserves delete requires --yes to confirm mutation".to_string())
                };
                Ok((CliCommand::ReserveDelete(v), unconfirmed))
            },
            None => Err(required(st.level, "<reserve-id>")),
        },
        Level::Recorded => Err(missing_subcommand_exec(Level::Recorded)),
        Level::RecordedList => Ok((CliCommand::RecordedList, None)),
        Level::RecordedGet => match st.id {
            Some(v) => Ok((CliCommand::RecordedGet(v), None)),
            None => Err(required(st.level, "<info-id>")),
        },
        Level::Programs => Err(missing_subcommand_exec(Level::Programs)),
        Level::ProgramsSearch => {
            let keyword = match &st.keyword {
                Some(k) => k.clone(),
                None => String::new(),
            };
            Ok(
                (
                    CliCommand::ProgramsSearch(
                        ProgramSearchQuery { keyword, title_only: st.title_only, service: st.service },
                    ),
                    None,
                ),
            )
        },
        Level::TunerReserves => Ok((CliCommand::TunerReserves, None)),
        Level::TunerProcesses => Ok((CliCommand::TunerProcesses, None)),
        Level::Plugins => match st.kind {
            Some(k) => Ok((CliCommand::Plugins(k), None)),
            None => Err(required(st.level, "<write|rec_name>")),
        },
        Level::NotifyStatus => Ok((CliCommand::NotifyStatus, None)),
    }
}

fn required(l: Level, display: &str) -> (s: String)
    ensures
        s@ == required_error(l, display@),
{
    let mut out = chars_of("the following required arguments were not provided:\n  ");
    push_str(&mut out, display);
    push_str(&mut out, "\n\nUsage: ");
    push_str(&mut out, level_name_exec(l));
    push_str(&mut out, " ");
    push_str(&mut out, display);
    push_str(&mut out, "\n\nFor more information, try '--help'.\n");
    string_from_chars(out.as_slice())
}

impl CliAction {
    /// Reads a command line, the program's name first, in an environment of name and value
    /// pairs. Options win over `EDCB_HOST`, `EDCB_PORT` and `EDCB_TIMEOUT_SECONDS`, which win
    /// over host `127.0.0.1`, port 4510 and a timeout of 15 seconds. A command line that cannot
    /// be understood fails with exit code 2 and the message of what is wrong.
    pub fn from_args_and_env(args: &[&str], env: &[(&str, &str)]) -> (r: Result<CliAction, CliError>)
        ensures
            match cli_outcome(args.deep_view(), env.deep_view()) {
                CliOutcome::Run(m) => r matches Ok(CliAction::Run(inv)) && inv.deep_view() == m,
                CliOutcome::Help => r matches Ok(CliAction::Help),
                CliOutcome::Version => r matches Ok(CliAction::Version),
                CliOutcome::Usage(msg) => r matches Err(e) && e.exit_code == EXIT_USAGE && e.message@
                    == msg,
            },
    {
        let ghost a = args.deep_view();
        let mut toks: Vec<Vec<char>> = Vec::new();
        let n = args.len();
        if n > 0 {
            for j in 1..n
                invariant
                    n == args@.len(),
                    a == args.deep_view(),
                    toks@.len() == j - 1,
                    forall|k: int| 0 <= k < j - 1 ==> #[trigger] toks@[k]@ == a[k + 1],
            {
                let t = chars_of(args[j]);
                toks.push(t);
            }
        }
        let ghost ts = toks.deep_view();
        assert(ts =~= arguments_after_name(a)) by {
            assert forall|k: int| 0 <= k < ts.len() implies ts[k] == arguments_after_name(a)[k] by {
                assert(toks@[k].deep_view() =~= toks@[k]@);
            }
        }
        let mut st = ArgScan::new();
        let mut i: usize = 0;
        while i < toks.len()
            invariant
                ts == toks.deep_view(),
                a == args.deep_view(),
                ts == arguments_after_name(a),
                i <= toks@.len(),
                scan_from(ts, 0, scan_start()) == scan_from(ts, i as int, st.deep_view()),
            decreases toks@.len() - i,
        {
            proof {
                lemma_scan_step_advances(ts, i as int, st.deep_view());
            }
            match scan_step_exec(&toks, i, st) {
                Step::Next(s2, k) => {
                    st = s2;
                    i = i + k;
                },
                Step::Help => {
                    return Ok(CliAction::Help);
                },
                Step::Version => {
                    return Ok(CliAction::Version);
                },
                Step::Usage(m) => {
                    return Err(usage(m));
                },
            }
        }
        let (command, unconfirmed) = match finish_scan(&st) {
            Ok(x) => x,
            Err(m) => {
                return Err(usage(m));
            },
        };
        let host = match &st.host {
            Some(h) => h.clone(),
            None => match crate::settings::env_value(env, "EDCB_HOST") {
                Some(h) => h,
                None => "127.0.0.1".to_string(),
            },
        };
        let port = match st.port {
            Some(p) => p,
            None => match crate::settings::env_value(env, "EDCB_PORT") {
                Some(v) => match crate::settings::parse_port(v.as_str()) {
                    Ok(p) => p,
                    Err(m) => {
                        return Err(usage(m));
                    },
                },
                None => DEFAULT_PORT,
            },
        };
        let timeout_seconds = match st.timeout {
            Some(t) => t,
            None => match crate::settings::env_value(env, "EDCB_TIMEOUT_SECONDS") {
                Some(v) => match crate::settings::parse_timeout(v.as_str()) {
                    Ok(t) => t,
                    Err(m) => {
                        return Err(usage(m));
                    },
                },
                None => DEFAULT_TIMEOUT_SECONDS,
            },
        };
        if let Some(m) = unconfirmed {
            return Err(usage(m));
        }
        let output = if st.json {
            OutputMode::Json
        } else if st.plain {
            OutputMode::Plain
        } else {
            OutputMode::Human
        };
        Ok(CliAction::Run(CliInvocation { host, port, timeout_seconds, output, command }))
    }
}

/// The version line that `--version` prints.
pub fn version_text() -> (s: String)
    ensures
        s@ == "edcb 0.1.0\n"@,
{
    "edcb 0.1.0\n".to_string()
}


/// A genre range of a search: major and middle genre, and optionally a user nibble.
#[derive(Debug, Clone, Copy, PartialEq, Eq, Structural)]
pub struct ProgramGenreRange {
    pub major: u8,
    pub middle: u8,
    pub user_nibble: Option<u16>,
}

/// The genre range written `major:middle[:user_nibble]`, or the message of what is wrong.
pub open spec fn genre_range_of(v: Seq<char>) -> Result<ProgramGenreRange, Seq<char>> {
    let parts = split_on(v, ':');
    if parts.len() < 2 || parts.len() > 3 {
        Err("genre must be major:middle[:user_nibble]: "@ + v)
    } else {
        match parse_unsigned_spec(parts[0], 255) {
            None => Err("genre major must be u8: "@ + v),
            Some(major) => match parse_unsigned_spec(parts[1], 255) {
                None => Err("genre middle must be u8: "@ + v),
                Some(middle) => if parts.len() == 3 {
                    match parse_unsigned_spec(parts[2], 65535) {
                        None => Err("genre user_nibble must be u16: "@ + v),
                        Some(n) => Ok(
                            ProgramGenreRange {
                                major: major as u8,
                                middle: middle as u8,
                                user_nibble: Some(n as u16),
                            },
                        ),
                    }
                } else {
                    Ok(ProgramGenreRange { major: major as u8, middle: middle as u8, user_nibble: None })
                },
            },
        }
    }
}

/// Reads a genre range `major:middle[:user_nibble]`.
pub fn parse_program_genre_range(value: &str) -> (r: Result<ProgramGenreRange, CliError>)
    ensures
        match genre_range_of(value@) {
            Ok(g) => r == Ok::<ProgramGenreRange, CliError>(g),
            Err(m) => r matches Err(e) && e.exit_code == EXIT_USAGE && e.message@ == m,
        },
{
    let cs = chars_of(value);
    let parts = split_chars(cs.as_slice(), ':');
    let ghost ps = parts.deep_view();
    if parts.len() < 2 || parts.len() > 3 {
        return Err(usage(crate::keys::message_with("genre must be major:middle[:user_nibble]: ", value)));
    }
    proof {
        assert forall|i: int| 0 <= i < parts@.len() implies parts@[i]@ == ps[i] by {
            assert(parts@[i]@ =~= ps[i]);
        }
    }
    let major = match parse_unsigned(parts[0].as_slice(), 255) {
        Some(m) => m as u8,
        None => {
            return Err(usage(crate::keys::message_with("genre major must be u8: ", value)));
        },
    };
    let middle = match parse_unsigned(parts[1].as_slice(), 255) {
        Some(m) => m as u8,
        None => {
            return Err(usage(crate::keys::message_with("genre middle must be u8: ", value)));
        },
    };
    let user_nibble = if parts.len() == 3 {
        match parse_unsigned(parts[2].as_slice(), 65535) {
            Some(n) => Some(n as u16),
            None => {
                return Err(usage(crate::keys::message_with("genre user_nibble must be u16: ", value)));
            },
        }
    } else {
        None
    };
    Ok(ProgramGenreRange { major, middle, user_nibble })
}

/// The message of a recurring date range that cannot be read.
pub open spec fn date_range_msg(source: Seq<char>) -> Seq<char> {
    "date range must be start-dow:HH:MM-end-dow:HH:MM with day 0..=6, hour 0..=23, and minute 0..=59: "@
        + source
}

/// One end of a recurring date range, `dow:HH:MM`: a day of the week up to 6, an hour up to
/// 23 and a minute up to 59.
pub open spec fn date_endpoint_of(v: Seq<char>) -> Option<(u8, u16, u16)> {
    let parts = split_on(v, ':');
    if parts.len() != 3 {
        None
    } else {
        match (
            parse_unsigned_spec(parts[0], 255),
            parse_unsigned_spec(parts[1], 65535),
            parse_unsigned_spec(parts[2], 65535),
        ) {
            (Some(d), Some(h), Some(m)) => if d <= 6 && h <= 23 && m <= 59 {
                Some((d as u8, h as u16, m as u16))
            } else {
                None
            },
            _ => None,
        }
    }
}

/// Reads one end of a recurring date range; `source`, the whole range, goes into the message
/// of an end that cannot be read.
pub fn parse_search_date_endpoint(value: &str, source: &str) -> (r: Result<(u8, u16, u16), CliError>)
    ensures
        match date_endpoint_of(value@) {
            Some(t) => r == Ok::<(u8, u16, u16), CliError>(t),
            None => r matches Err(e) && e.exit_code == EXIT_USAGE && e.message@ == date_range_msg(source@),
        },
{
    let cs = chars_of(value);
    let parts = split_chars(cs.as_slice(), ':');
    let ghost ps = parts.deep_view();
    if parts.len() != 3 {
        return Err(invalid_search_date_range(source));
    }
    proof {
        assert forall|i: int| 0 <= i < parts@.len() implies parts@[i]@ == ps[i] by {
            assert(parts@[i]@ =~= ps[i]);
        }
    }
    let day = parse_unsigned(parts[0].as_slice(), 255);
    let hour = parse_unsigned(parts[1].as_slice(), 65535);
    let minute = parse_unsigned(parts[2].as_slice(), 65535);
    match (day, hour, minute) {
        (Some(d), Some(h), Some(m)) => if d <= 6 && h <= 23 && m <= 59 {
            Ok((d as u8, h as u16, m as u16))
        } else {
            Err(invalid_search_date_range(source))
        },
        _ => Err(invalid_search_date_range(source)),
    }
}

/// The usage error of a recurring date range that cannot be read.
pub fn invalid_search_date_range(value: &str) -> (e: CliError)
    ensures
        e.exit_code == EXIT_USAGE,
        e.message@ == date_range_msg(value@),
{
    usage(
        crate::keys::message_with(
            "date range must be start-dow:HH:MM-end-dow:HH:MM with day 0..=6, hour 0..=23, and minute 0..=59: ",
            value,
        ),
    )
}

/// The recurring date range written `start-dow:HH:MM-end-dow:HH:MM`, split at the first `-`,
/// or the message of what is wrong.
pub open spec fn date_range_of(v: Seq<char>) -> Result<(u8, u16, u16, u8, u16, u16), Seq<char>> {
    match find_char(v, '-') {
        None => Err("date range must be start-dow:HH:MM-end-dow:HH:MM: "@ + v),
        Some(p) => match (date_endpoint_of(v.take(p)), date_endpoint_of(v.skip(p + 1))) {
            (Some(a), Some(b)) => Ok((a.0, a.1, a.2, b.0, b.1, b.2)),
            _ => Err(date_range_msg(v)),
        },
    }
}

/// Reads a recurring date range `start-dow:HH:MM-end-dow:HH:MM`.
pub fn parse_search_date_range(value: &str) -> (r: Result<SearchDateInfo, CliError>)
    ensures
        match date_range_of(value@) {
            Ok(t) => r matches Ok(d) && (
                d.start_day_of_week,
                d.start_hour,
                d.start_min,
                d.end_day_of_week,
                d.end_hour,
                d.end_min,
            ) == t,
            Err(m) => r matches Err(e) && e.exit_code == EXIT_USAGE && e.message@ == m,
        },
{
    let cs = chars_of(value);
    let n = cs.len();
    proof {
        lemma_find_char(cs@, '-');
        assert(cs@.skip(0) =~= cs@);
    }
    let p = match find_char_from(cs.as_slice(), 0, '-') {
        Some(p) => p,
        None => {
            return Err(usage(crate::keys::message_with("date range must be start-dow:HH:MM-end-dow:HH:MM: ", value)));
        },
    };
    proof {
        assert(cs@.skip(0) =~= cs@);
        assert(find_char(cs@, '-') == Some(p as int));
    }
    assert(p < n);
    let start = string_from_chars(crate::text::copy_range(cs.as_slice(), 0, p).as_slice());
    let end = string_from_chars(crate::text::copy_range(cs.as_slice(), p + 1, n).as_slice());
    assert(start@ =~= value@.take(p as int));
    assert(end@ =~= value@.skip(p + 1));
    let (start_day_of_week, start_hour, start_min) = parse_search_date_endpoint(start.as_str(), value)?;
    let (end_day_of_week, end_hour, end_min) = parse_search_date_endpoint(end.as_str(), value)?;
    Ok(SearchDateInfo { start_day_of_week, start_hour, start_min, end_day_of_week, end_hour, end_min })
}

} // verus!
