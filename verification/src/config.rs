//! The configuration: TLS, network and logging, with its defaults and the
//! rules for loading it.

use vstd::prelude::*;
use vstd::string::StringExecFns;
use crate::error::StartupError;

verus! {

/// The name of the configuration file.
pub const CONFIG_FILE: &'static str = "creme-brulee.toml";

/// A minimum severity for log output, from the least to the most verbose.
#[derive(Debug, Clone, Copy, PartialEq, Eq, PartialOrd, Ord, Hash, Structural)]
pub enum Level {
    Error,
    Warn,
    Info,
    Debug,
    Trace,
}

/// The whole configuration. It is made once at startup and not changed.
#[derive(Debug, Clone, PartialEq, Eq)]
pub struct Config {
    pub tls: TlsConfig,
    pub network: NetworkConfig,
    pub logging: LoggingConfig,
}

/// Certificate and key files, and which secure transports are enabled.
#[derive(Debug, Clone, PartialEq, Eq)]
pub struct TlsConfig {
    pub cert: Option<String>,
    pub key: Option<String>,
    pub quic: bool,
    pub enable: bool,
}

/// Where the server listens.
#[derive(Debug, Clone, PartialEq, Eq)]
pub struct NetworkConfig {
    /// The stream address, as `host:port`.
    pub bind: String,
    pub quic_port: Option<u16>,
}

/// What the server logs.
#[derive(Debug, Clone, PartialEq, Eq)]
pub struct LoggingConfig {
    pub level: String,
}

/// What a [`TlsConfig`] holds.
pub struct TlsView {
    pub cert: Option<Seq<char>>,
    pub key: Option<Seq<char>>,
    pub quic: bool,
    pub enable: bool,
}

/// What a [`NetworkConfig`] holds.
pub struct NetworkView {
    pub bind: Seq<char>,
    pub quic_port: Option<u16>,
}

/// What a [`LoggingConfig`] holds.
pub struct LoggingView {
    pub level: Seq<char>,
}

/// What a [`Config`] holds.
pub struct ConfigView {
    pub tls: TlsView,
    pub network: NetworkView,
    pub logging: LoggingView,
}

/// The text of an optional string.
pub open spec fn text_of(s: Option<String>) -> Option<Seq<char>> {
    match s {
        Some(s) => Some(s@),
        None => None,
    }
}

impl View for TlsConfig {
    type V = TlsView;

    open spec fn view(&self) -> TlsView {
        TlsView {
            cert: text_of(self.cert),
            key: text_of(self.key),
            quic: self.quic,
            enable: self.enable,
        }
    }
}

impl View for NetworkConfig {
    type V = NetworkView;

    open spec fn view(&self) -> NetworkView {
        NetworkView { bind: self.bind@, quic_port: self.quic_port }
    }
}

impl View for LoggingConfig {
    type V = LoggingView;

    open spec fn view(&self) -> LoggingView {
        LoggingView { level: self.level@ }
    }
}

impl View for Config {
    type V = ConfigView;

    open spec fn view(&self) -> ConfigView {
        ConfigView { tls: self.tls@, network: self.network@, logging: self.logging@ }
    }
}

/// The configuration of a fresh deployment: no secure transport, the stream
/// listener on every interface at port 8080, logging at `INFO`.
pub open spec fn default_config() -> ConfigView {
    ConfigView {
        tls: TlsView { cert: None, key: None, quic: false, enable: false },
        network: NetworkView { bind: "0.0.0.0:8080"@, quic_port: None },
        logging: LoggingView { level: "INFO"@ },
    }
}

/// The name of a level, as the configuration file writes it.
pub open spec fn level_name(level: Level) -> Seq<char> {
    match level {
        Level::Trace => "TRACE"@,
        Level::Debug => "DEBUG"@,
        Level::Info => "INFO"@,
        Level::Warn => "WARN"@,
        Level::Error => "ERROR"@,
    }
}

/// The level that a name stands for. Names are matched exactly, in upper case.
pub open spec fn level_of(name: Seq<char>) -> Option<Level> {
    if name == "TRACE"@ {
        Some(Level::Trace)
    } else if name == "DEBUG"@ {
        Some(Level::Debug)
    } else if name == "INFO"@ {
        Some(Level::Info)
    } else if name == "WARN"@ {
        Some(Level::Warn)
    } else if name == "ERROR"@ {
        Some(Level::Error)
    } else {
        None
    }
}

/// How verbose a level is: 1 for `ERROR` up to 5 for `TRACE`.
pub open spec fn verbosity(level: Level) -> int {
    match level {
        Level::Error => 1,
        Level::Warn => 2,
        Level::Info => 3,
        Level::Debug => 4,
        Level::Trace => 5,
    }
}

/// A level's name stands for that level and no other, and a name that
/// stands for a level is that level's name.
pub proof fn lemma_level_names(level: Level, name: Seq<char>)
    ensures
        level_of(level_name(level)) == Some(level),
        level_of(name) == Some(level) <==> name == level_name(level),
{
    reveal_strlit("TRACE");
    reveal_strlit("DEBUG");
    reveal_strlit("INFO");
    reveal_strlit("WARN");
    reveal_strlit("ERROR");
    assert("TRACE"@[0] != "DEBUG"@[0]);
    assert("TRACE"@[0] != "ERROR"@[0]);
    assert("DEBUG"@[0] != "ERROR"@[0]);
    assert("INFO"@[0] != "WARN"@[0]);
}

impl Level {
    /// Reads a level from its name; a text that names no level gives nothing.
    pub fn parse(name: &str) -> (level: Option<Level>)
        ensures
            level == level_of(name@),
    {
        let text: String = String::from_str(name);
        if text == String::from_str("TRACE") {
            Some(Level::Trace)
        } else if text == String::from_str("DEBUG") {
            Some(Level::Debug)
        } else if text == String::from_str("INFO") {
            Some(Level::Info)
        } else if text == String::from_str("WARN") {
            Some(Level::Warn)
        } else if text == String::from_str("ERROR") {
            Some(Level::Error)
        } else {
            None
        }
    }

    /// The level's name.
    pub fn name(&self) -> (name: &'static str)
        ensures
            name@ == level_name(*self),
    {
        match self {
            Level::Trace => "TRACE",
            Level::Debug => "DEBUG",
            Level::Info => "INFO",
            Level::Warn => "WARN",
            Level::Error => "ERROR",
        }
    }

    /// The level's name as an owned string.
    pub fn to_string(&self) -> (name: String)
        ensures
            name@ == level_name(*self),
    {
        String::from_str(self.name())
    }

    /// Whether output of severity `event` passes a minimum of `self`: it
    /// does when it is no more verbose than the minimum.
    pub fn admits(&self, event: Level) -> (passes: bool)
        ensures
            passes == (verbosity(event) <= verbosity(*self)),
    {
        event.rank() <= self.rank()
    }

    /// The level's verbosity as a number.
    pub fn rank(&self) -> (rank: u8)
        ensures
            rank == verbosity(*self),
    {
        match self {
            Level::Error => 1,
            Level::Warn => 2,
            Level::Info => 3,
            Level::Debug => 4,
            Level::Trace => 5,
        }
    }
}

/// What reading the configuration file gave.
#[derive(Debug, Clone, PartialEq, Eq)]
pub enum ReadOutcome {
    /// The file is there; this is its text.
    Found(String),
    /// There is no such file.
    NotFound,
    /// Reading failed for another reason.
    Failed(String),
}

/// What loading does next.
#[derive(Debug, Clone, PartialEq, Eq)]
pub enum LoadStep {
    /// Parse this text; the configuration is what the parser gives.
    Parse(String),
    /// Write this configuration to the file, then use it.
    PersistDefault(Config),
    /// Give up with this error.
    Fail(StartupError),
}

impl Config {
    /// Decides how loading goes on once the file was read. A file that is
    /// there is parsed and never replaced; only a missing file gives the
    /// default, which is first written out; any other failure is fatal.
    pub fn load(read: ReadOutcome) -> (step: LoadStep)
        ensures
            match read {
                ReadOutcome::Found(text) => step == LoadStep::Parse(text),
                ReadOutcome::NotFound => step matches LoadStep::PersistDefault(config)
                    && config@ == default_config(),
                ReadOutcome::Failed(cause) => step == LoadStep::Fail(
                    StartupError::ConfigIo { cause },
                ),
            },
    {
        match read {
            ReadOutcome::Found(text) => LoadStep::Parse(text),
            ReadOutcome::NotFound => LoadStep::PersistDefault(Config::default()),
            ReadOutcome::Failed(cause) => LoadStep::Fail(StartupError::ConfigIo { cause }),
        }
    }

    /// Ends a load that parsed the file: the parsed configuration, or a
    /// parse error. A file that does not parse never gives the default.
    pub fn parsed(outcome: Result<Config, String>) -> (loaded: Result<Config, StartupError>)
        ensures
            match outcome {
                Ok(config) => loaded == Ok::<Config, StartupError>(config),
                Err(cause) => loaded == Err::<Config, StartupError>(
                    StartupError::ConfigParse { cause },
                ),
            },
    {
        match outcome {
            Ok(config) => Ok(config),
            Err(cause) => Err(StartupError::ConfigParse { cause }),
        }
    }

    /// Ends a load that wrote the default out: the default, or the error of
    /// the write.
    pub fn persisted(config: Config, written: Result<(), String>) -> (loaded: Result<
        Config,
        StartupError,
    >)
        ensures
            match written {
                Ok(_) => loaded == Ok::<Config, StartupError>(config),
                Err(cause) => loaded == Err::<Config, StartupError>(
                    StartupError::ConfigIo { cause },
                ),
            },
    {
        match written {
            Ok(_) => Ok(config),
            Err(cause) => Err(StartupError::ConfigIo { cause }),
        }
    }

    /// The TLS section.
    pub fn tls(&self) -> (tls: &TlsConfig)
        ensures
            *tls == self.tls,
    {
        &self.tls
    }

    /// The network section.
    pub fn network(&self) -> (network: &NetworkConfig)
        ensures
            *network == self.network,
    {
        &self.network
    }

    /// The logging section.
    pub fn logging(&self) -> (logging: &LoggingConfig)
        ensures
            *logging == self.logging,
    {
        &self.logging
    }

    /// The configuration of a fresh deployment.
    pub fn default() -> (config: Config)
        ensures
            config@ == default_config(),
    {
        Config {
            tls: TlsConfig { cert: None, key: None, quic: false, enable: false },
            network: NetworkConfig { bind: String::from_str("0.0.0.0:8080"), quic_port: None },
            logging: LoggingConfig { level: String::from_str("INFO") },
        }
    }

    /// The configured log level. A level that is not one of the five names
    /// makes the configuration invalid; the error carries the text found.
    pub fn log_level(&self) -> (level: Result<Level, StartupError>)
        ensures
            match level_of(self.logging.level@) {
                Some(l) => level == Ok::<Level, StartupError>(l),
                None => level == Err::<Level, StartupError>(
                    StartupError::ConfigParse { cause: self.logging.level },
                ),
            },
    {
        match Level::parse(self.logging.level.as_str()) {
            Some(level) => Ok(level),
            None => Err(StartupError::ConfigParse { cause: self.logging.level.clone() }),
        }
    }
}

} // verus!
