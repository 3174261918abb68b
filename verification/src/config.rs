//! Configuration values that the pipeline reads.
//!
//! The cache settings (mode, host list, timeouts) come from a YAML
//! configuration file; reading the file is the embedding program's
//! work, and `read_config_from_yaml` here turns the file's text into
//! the cache settings.

use vstd::prelude::*;
use vstd::string::StringExecFns;

verus! {

/// Which backend the dispatch layer serves.
#[derive(Clone, Copy, PartialEq, Eq, Structural, Debug)]
pub enum ServerType {
    /// No usable backend was configured.
    UnknownServices,
    /// The static file server.
    FileServices,
    /// The route-planning pipeline.
    ApiServices,
}

/// The backend a configured code selects: 0 the file server, 1 the
/// route-planning pipeline, anything else no backend.
pub open spec fn spec_server_type_of(v: i32) -> ServerType {
    if v == 0 {
        ServerType::FileServices
    } else if v == 1 {
        ServerType::ApiServices
    } else {
        ServerType::UnknownServices
    }
}

impl From<i32> for ServerType {
    fn from(v: i32) -> (r: ServerType) {
        match v {
            0 => ServerType::FileServices,
            1 => ServerType::ApiServices,
            _ => ServerType::UnknownServices,
        }
    }
}

impl vstd::std_specs::convert::FromSpecImpl<i32> for ServerType {
    open spec fn obeys_from_spec() -> bool {
        true
    }

    open spec fn from_spec(v: i32) -> ServerType {
        spec_server_type_of(v)
    }
}

/// Timeouts of the cache connection, in milliseconds.
#[derive(Clone, Debug)]
pub struct RedisConnect {
    /// Timeout for establishing the connection.
    pub dial_timeout: i64,
    /// Timeout for a write command.
    pub write_timeout: i64,
    /// Timeout for a read command.
    pub read_timeout: i64,
}

impl Default for RedisConnect {
    /// All timeouts zero.
    fn default() -> (r: RedisConnect)
        ensures
            r.dial_timeout == 0 && r.write_timeout == 0 && r.read_timeout == 0,
    {
        RedisConnect { dial_timeout: 0, write_timeout: 0, read_timeout: 0 }
    }
}

/// The cache store's configuration.
#[derive(Clone, Debug)]
pub struct RedisConfig {
    /// Password; empty when the store asks none.
    pub pass: String,
    /// Topology mode: `"cluster"` fans over every host, anything else
    /// uses the first host alone.
    pub mode: String,
    /// Comma-separated `host:port` list.
    pub hosts: String,
    /// Connection timeouts.
    pub connect: RedisConnect,
    /// Pool selector; unused by this pipeline.
    pub pool: String,
}

impl Default for RedisConfig {
    /// Empty strings and zero timeouts.
    fn default() -> (r: RedisConfig)
        ensures
            r.pass@.len() == 0 && r.mode@.len() == 0 && r.hosts@.len() == 0 && r.pool@.len() == 0,
            r.connect.dial_timeout == 0 && r.connect.write_timeout == 0 && r.connect.read_timeout
                == 0,
    {
        RedisConfig {
            pass: String::new(),
            mode: String::new(),
            hosts: String::new(),
            connect: RedisConnect { dial_timeout: 0, write_timeout: 0, read_timeout: 0 },
            pool: String::new(),
        }
    }
}

/// Why a YAML configuration text yielded no cache settings.
#[derive(Debug)]
pub struct YamlError {
    /// 1: the text is not YAML; 2: the settings are missing or of the
    /// wrong shape.
    pub code: i32,
    /// A short account of the failure.
    pub reason: String,
}

/// Every setting the cache configuration needs stands in the text:
/// a `server.port` number, the store's `redis.mode` and `redis.hosts`
/// strings, the three `redis.Connect` timeouts, and — when a
/// `redis.password` entry is present at all — its string form.
pub open spec fn spec_yaml_settings_ok(s: Seq<char>) -> bool {
    &&& crate::yamlval::yaml_text_ok(s)
    &&& crate::yamlval::yaml_i64_of2(s, "server"@, "port"@) is Some
    &&& crate::yamlval::yaml_str_of2(s, "redis"@, "mode"@) is Some
    &&& (crate::yamlval::yaml_present_of2(s, "redis"@, "password"@)
        ==> crate::yamlval::yaml_str_of2(s, "redis"@, "password"@) is Some)
    &&& crate::yamlval::yaml_str_of2(s, "redis"@, "hosts"@) is Some
    &&& crate::yamlval::yaml_i64_of3(s, "redis"@, "Connect"@, "DialTimeout"@) is Some
    &&& crate::yamlval::yaml_i64_of3(s, "redis"@, "Connect"@, "WriteTimeout"@) is Some
    &&& crate::yamlval::yaml_i64_of3(s, "redis"@, "Connect"@, "ReadTimeout"@) is Some
}

/// The password the text sets: the `redis.password` string when the
/// entry is present, the empty string otherwise.
pub open spec fn spec_yaml_password_of(s: Seq<char>) -> Seq<char> {
    if crate::yamlval::yaml_present_of2(s, "redis"@, "password"@) {
        crate::yamlval::yaml_str_of2(s, "redis"@, "password"@)->Some_0
    } else {
        Seq::<char>::empty()
    }
}

/// Reads the cache settings out of a configuration file's text: the
/// store's mode, password and host list, and the three connection
/// timeouts, all under the `redis` key; a `server.port` entry must be
/// present as well.  It succeeds exactly on a text that carries every
/// setting, and then the configuration holds the text's values; on
/// any failure the configuration is left as it was, with code 1 for
/// text that is no YAML and code 2 for missing or mistyped settings.
pub fn read_config_from_yaml(text: &str, config: &mut RedisConfig) -> (r: Result<(), YamlError>)
    ensures
        r is Ok <==> spec_yaml_settings_ok(text@),
        r matches Err(e) ==> *final(config) == *old(config) && (e.code == 1 || e.code == 2),
        r matches Err(e) ==> (e.code == 1 <==> !crate::yamlval::yaml_text_ok(text@)),
        r is Ok ==> {
            &&& final(config).mode@ == crate::yamlval::yaml_str_of2(
                text@,
                "redis"@,
                "mode"@,
            )->Some_0
            &&& final(config).hosts@ == crate::yamlval::yaml_str_of2(
                text@,
                "redis"@,
                "hosts"@,
            )->Some_0
            &&& final(config).pass@ == spec_yaml_password_of(text@)
            &&& final(config).connect.dial_timeout == crate::yamlval::yaml_i64_of3(
                text@,
                "redis"@,
                "Connect"@,
                "DialTimeout"@,
            )->Some_0
            &&& final(config).connect.write_timeout == crate::yamlval::yaml_i64_of3(
                text@,
                "redis"@,
                "Connect"@,
                "WriteTimeout"@,
            )->Some_0
            &&& final(config).connect.read_timeout == crate::yamlval::yaml_i64_of3(
                text@,
                "redis"@,
                "Connect"@,
                "ReadTimeout"@,
            )->Some_0
            &&& final(config).pool@ == old(config).pool@
        },
{
    if !crate::yamlval::yaml_is_document(text) {
        return Result::Err(YamlError { code: 1, reason: String::from_str("scan is failed.") });
    }
    let parse_error = YamlError { code: 2, reason: String::from_str("parse is failed.") };
    let _server_port = match crate::yamlval::yaml_i64_key2(text, "server", "port") {
        Option::Some(p) => p,
        Option::None => {
            return Result::Err(parse_error);
        },
    };
    let mode = match crate::yamlval::yaml_str_key2(text, "redis", "mode") {
        Option::Some(s) => s,
        Option::None => {
            return Result::Err(parse_error);
        },
    };
    let password = if crate::yamlval::yaml_present_key2(text, "redis", "password") {
        match crate::yamlval::yaml_str_key2(text, "redis", "password") {
            Option::Some(s) => s,
            Option::None => {
                return Result::Err(parse_error);
            },
        }
    } else {
        String::new()
    };
    let hosts = match crate::yamlval::yaml_str_key2(text, "redis", "hosts") {
        Option::Some(s) => s,
        Option::None => {
            return Result::Err(parse_error);
        },
    };
    let dial_timeout = match crate::yamlval::yaml_i64_key3(text, "redis", "Connect", "DialTimeout") {
        Option::Some(v) => v,
        Option::None => {
            return Result::Err(parse_error);
        },
    };
    let write_timeout = match crate::yamlval::yaml_i64_key3(
        text,
        "redis",
        "Connect",
        "WriteTimeout",
    ) {
        Option::Some(v) => v,
        Option::None => {
            return Result::Err(parse_error);
        },
    };
    let read_timeout = match crate::yamlval::yaml_i64_key3(text, "redis", "Connect", "ReadTimeout") {
        Option::Some(v) => v,
        Option::None => {
            return Result::Err(parse_error);
        },
    };
    config.connect.dial_timeout = dial_timeout;
    config.connect.read_timeout = read_timeout;
    config.connect.write_timeout = write_timeout;
    config.hosts = hosts;
    config.pass = password;
    config.mode = mode;
    Result::Ok(())
}

/// Configuration of one reverse-proxy handler.
#[derive(Clone, Debug)]
pub struct ProxyConfig {
    /// A dynamic proxy reads its target from each request's headers.
    pub is_dynamic: bool,
    /// Target address of a static proxy.
    pub url: Option<String>,
    /// HTTP method of a static proxy.
    pub method: Option<String>,
    /// Authorization header value handed to the target, if any.
    pub authorization: Option<String>,
}

impl ProxyConfig {
    /// A dynamic proxy: no fixed target.
    pub fn new_dynamic() -> (r: ProxyConfig)
        ensures
            r.is_dynamic == true,
            r.url is None,
            r.method is None,
            r.authorization is None,
    {
        ProxyConfig { is_dynamic: true, url: Option::None, method: Option::None, authorization: Option::None }
    }

    /// A static proxy aimed at `url`, queried with GET.
    pub fn raw_url(url: String) -> (r: ProxyConfig)
        ensures
            r.is_dynamic == false,
            r.url matches Some(u) && u@ == url@,
            r.method matches Some(m) && m@ == "GET"@,
            r.authorization is None,
    {
        ProxyConfig {
            is_dynamic: false,
            url: Option::Some(url),
            method: Option::Some(String::from_str("GET")),
            authorization: Option::None,
        }
    }
}

} // verus!
