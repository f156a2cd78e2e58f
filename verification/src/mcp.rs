use vstd::prelude::*;

use crate::cli::is_word;
use crate::keys::{
    event_key_message, event_key_of, service_key_message, service_key_of, EventKey, PluginKind, ProgramSearchQuery, ProgramSearchQueryModel,
    ServiceKey,
};
use crate::settings::{
    env_lookup, env_value, parse_port, parse_timeout, port_setting, timeout_setting, DEFAULT_PORT,
    DEFAULT_TIMEOUT_SECONDS,
};
use crate::text::chars_of;

verus! {

/// Where the MCP server's EDCB listens, and how long to wait for it.
#[derive(Debug, Clone, PartialEq, Eq)]
pub struct ServerConfig {
    pub host: String,
    pub port: u16,
    pub timeout_seconds: u64,
}

/// What a `ServerConfig` holds, with the host as characters.
pub struct ServerConfigModel {
    pub host: Seq<char>,
    pub port: u16,
    pub timeout_seconds: u64,
}

impl DeepView for ServerConfig {
    type V = ServerConfigModel;

    open spec fn deep_view(&self) -> ServerConfigModel {
        ServerConfigModel { host: self.host@, port: self.port, timeout_seconds: self.timeout_seconds }
    }
}

/// Host `127.0.0.1`, port 4510, a timeout of 15 seconds.
pub open spec fn default_config() -> ServerConfigModel {
    ServerConfigModel { host: "127.0.0.1"@, port: DEFAULT_PORT, timeout_seconds: DEFAULT_TIMEOUT_SECONDS }
}

impl Default for ServerConfig {
    fn default() -> (c: ServerConfig)
        ensures
            c.deep_view() == default_config(),
    {
        ServerConfig {
            host: "127.0.0.1".to_string(),
            port: DEFAULT_PORT,
            timeout_seconds: DEFAULT_TIMEOUT_SECONDS,
        }
    }
}

/// The defaults with what `EDCB_HOST`, `EDCB_PORT` and `EDCB_TIMEOUT_SECONDS` set, or the
/// message of the first of the port and the timeout that is no valid setting.
pub open spec fn config_from_env(env: Seq<(Seq<char>, Seq<char>)>) -> Result<ServerConfigModel, Seq<char>> {
    let c = default_config();
    let host = match env_lookup(env, "EDCB_HOST"@) {
        Some(h) => h,
        None => c.host,
    };
    let port = match env_lookup(env, "EDCB_PORT"@) {
        Some(v) => port_setting(v),
        None => Ok(c.port),
    };
    let timeout = match env_lookup(env, "EDCB_TIMEOUT_SECONDS"@) {
        Some(v) => timeout_setting(v),
        None => Ok(c.timeout_seconds),
    };
    match (port, timeout) {
        (Err(m), _) => Err(m),
        (Ok(_), Err(m)) => Err(m),
        (Ok(p), Ok(t)) => Ok(ServerConfigModel { host, port: p, timeout_seconds: t }),
    }
}

/// `c` with the options from `args[i]` on applied, each an option name and its value, or the
/// message of the first that cannot be applied.
pub open spec fn config_from_args(args: Seq<Seq<char>>, i: int, c: ServerConfigModel) -> Result<
    ServerConfigModel,
    Seq<char>,
>
    decreases args.len() - i,
{
    if i < 0 || i >= args.len() {
        Ok(c)
    } else {
        let tok = args[i];
        if tok == "--host"@ {
            if i + 1 < args.len() {
                config_from_args(args, i + 2, ServerConfigModel { host: args[i + 1], ..c })
            } else {
                Err("--host"@ + " requires a value"@)
            }
        } else if tok == "--port"@ {
            if i + 1 < args.len() {
                match port_setting(args[i + 1]) {
                    Ok(p) => config_from_args(args, i + 2, ServerConfigModel { port: p, ..c }),
                    Err(m) => Err(m),
                }
            } else {
                Err("--port"@ + " requires a value"@)
            }
        } else if tok == "--timeout-seconds"@ {
            if i + 1 < args.len() {
                match timeout_setting(args[i + 1]) {
                    Ok(t) => config_from_args(args, i + 2, ServerConfigModel { timeout_seconds: t, ..c }),
                    Err(m) => Err(m),
                }
            } else {
                Err("--timeout-seconds"@ + " requires a value"@)
            }
        } else {
            Err("unknown argument "@ + tok)
        }
    }
}

/// The configuration a command line (the program's name first) and an environment give:
/// options win over the environment, which wins over the defaults.
pub open spec fn server_config_outcome(
    args: Seq<Seq<char>>,
    env: Seq<(Seq<char>, Seq<char>)>,
) -> Result<ServerConfigModel, Seq<char>> {
    match config_from_env(env) {
        Err(m) => Err(m),
        Ok(c) => config_from_args(args, 1, c),
    }
}

fn missing_value(name: &str) -> (s: String)
    ensures
        s@ == name@ + " requires a value"@,
{
    crate::keys::message_with(name, " requires a value")
}

impl ServerConfig {
    /// Reads the configuration from a command line, the program's name first, and an
    /// environment of name and value pairs.
    pub fn from_args_and_env(args: &[&str], env: &[(&str, &str)]) -> (r: Result<ServerConfig, String>)
        ensures
            match server_config_outcome(args.deep_view(), env.deep_view()) {
                Ok(m) => r matches Ok(c) && c.deep_view() == m,
                Err(msg) => r matches Err(s) && s@ == msg,
            },
    {
        let ghost a = args.deep_view();
        let mut config = ServerConfig::default();
        if let Some(host) = env_value(env, "EDCB_HOST") {
            config.host = host;
        }
        if let Some(port) = env_value(env, "EDCB_PORT") {
            match parse_port(port.as_str()) {
                Ok(p) => config.port = p,
                Err(m) => {
                    return Err(m);
                },
            }
        }
        if let Some(timeout) = env_value(env, "EDCB_TIMEOUT_SECONDS") {
            match parse_timeout(timeout.as_str()) {
                Ok(t) => config.timeout_seconds = t,
                Err(m) => {
                    return Err(m);
                },
            }
        }
        assert(config_from_env(env.deep_view()) == Ok::<ServerConfigModel, Seq<char>>(config.deep_view()));
        let n = args.len();
        let mut index: usize = 1;
        while index < n
            invariant
                n == args@.len(),
                a == args.deep_view(),
                1 <= index,
                server_config_outcome(a, env.deep_view()) == config_from_args(a, index as int, config.deep_view()),
            decreases n - index,
        {
            let tok = chars_of(args[index]);
            assert(a[index as int] == tok@);
            if is_word(&tok, "--host") {
                if index + 1 >= n {
                    return Err(missing_value("--host"));
                }
                config.host = args[index + 1].to_string();
                index = index + 2;
            } else if is_word(&tok, "--port") {
                if index + 1 >= n {
                    return Err(missing_value("--port"));
                }
                match parse_port(args[index + 1]) {
                    Ok(p) => config.port = p,
                    Err(m) => {
                        return Err(m);
                    },
                }
                index = index + 2;
            } else if is_word(&tok, "--timeout-seconds") {
                if index + 1 >= n {
                    return Err(missing_value("--timeout-seconds"));
                }
                match parse_timeout(args[index + 1]) {
                    Ok(t) => config.timeout_seconds = t,
                    Err(m) => {
                        return Err(m);
                    },
                }
                index = index + 2;
            } else {
                return Err(crate::keys::message_with("unknown argument ", args[index]));
            }
        }
        Ok(config)
    }
}

/// The parameter of the tool that reads one recorded item.
#[derive(Debug, Clone, PartialEq, Eq)]
pub struct RecordedInfoParam {
    pub info_id: i32,
}

/// The parameter of the tools that read or delete one reservation.
#[derive(Debug, Clone, PartialEq, Eq)]
pub struct ReservationIdParam {
    pub reserve_id: i32,
}

/// The parameter of the tool that lists plug-ins: `write` or `rec_name`.
#[derive(Debug, Clone, PartialEq, Eq)]
pub struct PluginKindParam {
    pub kind: String,
}

impl PluginKindParam {
    /// The plug-in kind the parameter names.
    pub fn try_into_plugin_kind(&self) -> (r: Result<PluginKind, String>)
        ensures
            self.kind@ == "write"@ ==> r == Ok::<PluginKind, String>(PluginKind::Write),
            self.kind@ == "rec_name"@ ==> r == Ok::<PluginKind, String>(PluginKind::RecName),
            self.kind@ != "write"@ && self.kind@ != "rec_name"@ ==> (r matches Err(m) && m@
                == "unsupported plugin kind "@ + self.kind@ + "; expected \"write\" or \"rec_name\""@),
    {
        proof {
            reveal_strlit("write");
            reveal_strlit("rec_name");
            assert("write"@.len() != "rec_name"@.len());
        }
        let cs = chars_of(self.kind.as_str());
        if is_word(&cs, "write") {
            Ok(PluginKind::Write)
        } else if is_word(&cs, "rec_name") {
            Ok(PluginKind::RecName)
        } else {
            let head = crate::keys::message_with("unsupported plugin kind ", self.kind.as_str());
            let tail = "; expected \"write\" or \"rec_name\"".to_string();
            Err(crate::cli::concat(head, tail))
        }
    }
}

/// The parameters of the program search tool.
#[derive(Debug, Clone, PartialEq, Eq)]
pub struct SearchProgramsParam {
    pub keyword: String,
    pub title_only: bool,
    pub service: Option<String>,
}

impl SearchProgramsParam {
    /// The search the parameters ask for; a service must be written `onid:tsid:sid`.
    pub fn try_into_query(&self) -> (r: Result<ProgramSearchQuery, String>)
        ensures
            match self.service {
                None => r matches Ok(q) && q.deep_view() == (ProgramSearchQueryModel {
                    keyword: self.keyword@,
                    title_only: self.title_only,
                    service: None,
                }),
                Some(s) => match service_key_of(s@) {
                    Some(k) => r matches Ok(q) && q.deep_view() == (ProgramSearchQueryModel {
                        keyword: self.keyword@,
                        title_only: self.title_only,
                        service: Some(k),
                    }),
                    None => r matches Err(m) && m@ == service_key_message(s@),
                },
            },
    {
        let service = match &self.service {
            None => None,
            Some(s) => match ServiceKey::parse(s.as_str()) {
                Ok(k) => Some(k),
                Err(m) => {
                    return Err(m);
                },
            },
        };
        Ok(ProgramSearchQuery { keyword: self.keyword.clone(), title_only: self.title_only, service })
    }
}

/// The parameter of the reservation tools: an event key `onid:tsid:sid:eid`.
#[derive(Debug, Clone, PartialEq, Eq)]
pub struct ReservationEventParam {
    pub event: String,
}

impl ReservationEventParam {
    /// The event key the parameter names.
    pub fn try_into_event_key(&self) -> (r: Result<EventKey, String>)
        ensures
            match event_key_of(self.event@) {
                Some(k) => r == Ok::<EventKey, String>(k),
                None => r matches Err(m) && m@ == event_key_message(self.event@),
            },
    {
        EventKey::parse(self.event.as_str())
    }
}

} // verus!
