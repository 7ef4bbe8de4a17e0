use vstd::prelude::*;
use vstd::string::*;

verus! {

/// Where and how large the service's log files are.
#[derive(Debug, Clone)]
pub struct LoggerConfig {
    pub file_path: String,
    pub file_size: u64,
    pub file_count: u32,
}

/// The address the HTTP server listens on.
#[derive(Debug, Clone)]
pub struct ServerConfig {
    pub host: String,
    pub port: u16,
}

/// How to reach Redis.
#[derive(Debug, Clone)]
pub struct RedisConfig {
    pub redis_connection_string: String,
}

/// All settings of the service.
#[derive(Debug, Clone)]
pub struct GlobalConfig {
    pub server: ServerConfig,
    pub logger: LoggerConfig,
    pub redis: RedisConfig,
}

impl View for LoggerConfig {
    type V = (Seq<char>, u64, u32);

    open spec fn view(&self) -> (Seq<char>, u64, u32) {
        (self.file_path@, self.file_size, self.file_count)
    }
}

impl View for ServerConfig {
    type V = (Seq<char>, u16);

    open spec fn view(&self) -> (Seq<char>, u16) {
        (self.host@, self.port)
    }
}

impl View for RedisConfig {
    type V = Seq<char>;

    open spec fn view(&self) -> Seq<char> {
        self.redis_connection_string@
    }
}

/// Log file used when the environment does not say otherwise.
pub open spec fn default_log_file_path() -> Seq<char> {
    "logs/crawler.log"@
}

/// Log file size, in bytes, at which the log rolls over (10 MiB) by default.
pub const DEFAULT_LOG_FILE_SIZE: u64 = 10485760;

/// Number of rolled log files kept by default.
pub const DEFAULT_LOG_FILE_COUNT: u32 = 5;

/// Host the server binds to by default.
pub open spec fn default_host() -> Seq<char> {
    "localhost"@
}

/// Port the server binds to by default.
pub const DEFAULT_PORT: u16 = 3000;

/// Redis reached by default: the one on the local host, on its standard port.
pub open spec fn default_redis_connection_string() -> Seq<char> {
    "redis://localhost:6379"@
}

impl Default for LoggerConfig {
    fn default() -> (c: LoggerConfig)
        ensures
            c@ == (default_log_file_path(), DEFAULT_LOG_FILE_SIZE, DEFAULT_LOG_FILE_COUNT),
    {
        LoggerConfig {
            file_path: String::from_str("logs/crawler.log"),
            file_size: DEFAULT_LOG_FILE_SIZE,
            file_count: DEFAULT_LOG_FILE_COUNT,
        }
    }
}

impl Default for ServerConfig {
    fn default() -> (c: ServerConfig)
        ensures
            c@ == (default_host(), DEFAULT_PORT),
    {
        ServerConfig { host: String::from_str("localhost"), port: DEFAULT_PORT }
    }
}

impl Default for RedisConfig {
    fn default() -> (c: RedisConfig)
        ensures
            c@ == default_redis_connection_string(),
    {
        RedisConfig { redis_connection_string: String::from_str("redis://localhost:6379") }
    }
}

impl LoggerConfig {
    /// The logger settings: those read from the environment where reading
    /// them succeeded (`Some`), else the defaults.
    pub fn new(from_env: Option<LoggerConfig>) -> (c: LoggerConfig)
        ensures
            match from_env {
                Some(read) => c@ == read@,
                None => c@ == (default_log_file_path(), DEFAULT_LOG_FILE_SIZE, DEFAULT_LOG_FILE_COUNT),
            },
    {
        match from_env {
            Some(read) => read,
            None => LoggerConfig::default(),
        }
    }
}

impl ServerConfig {
    /// The server settings: each of host and port as read from the
    /// environment where it was set (`Some`), else its default.
    pub fn new(host: Option<String>, port: Option<u16>) -> (c: ServerConfig)
        ensures
            c.host@ == match host {
                Some(h) => h@,
                None => default_host(),
            },
            c.port == match port {
                Some(p) => p,
                None => DEFAULT_PORT,
            },
    {
        let defaults = ServerConfig::default();
        let host = match host {
            Some(h) => h,
            None => defaults.host,
        };
        let port = match port {
            Some(p) => p,
            None => defaults.port,
        };
        ServerConfig { host, port }
    }
}

impl RedisConfig {
    /// The Redis settings: the connection string read from the environment
    /// where it was set (`Some`), else the default.
    pub fn new(redis_connection_string: Option<String>) -> (c: RedisConfig)
        ensures
            c@ == match redis_connection_string {
                Some(u) => u@,
                None => default_redis_connection_string(),
            },
    {
        match redis_connection_string {
            Some(u) => RedisConfig { redis_connection_string: u },
            None => RedisConfig::default(),
        }
    }
}

impl GlobalConfig {
    /// All settings: host, port and Redis connection string each as read
    /// from the environment where it was set, else its default; the logger
    /// settings as read where all of them were, else the logger defaults.
    pub fn new(
        host: Option<String>,
        port: Option<u16>,
        logger: Option<LoggerConfig>,
        redis_connection_string: Option<String>,
    ) -> (c: GlobalConfig)
        ensures
            c.server.host@ == match host {
                Some(h) => h@,
                None => default_host(),
            },
            c.server.port == match port {
                Some(p) => p,
                None => DEFAULT_PORT,
            },
            match logger {
                Some(read) => c.logger@ == read@,
                None => c.logger@ == (
                    default_log_file_path(),
                    DEFAULT_LOG_FILE_SIZE,
                    DEFAULT_LOG_FILE_COUNT,
                ),
            },
            c.redis@ == match redis_connection_string {
                Some(u) => u@,
                None => default_redis_connection_string(),
            },
    {
        let server = ServerConfig::new(host, port);
        let logger = LoggerConfig::new(logger);
        let redis = RedisConfig::new(redis_connection_string);
        GlobalConfig { server, logger, redis }
    }
}

} // verus!
