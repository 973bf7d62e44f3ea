//! Service configuration: the values that the services read from their
//! environment, checked and parsed into typed settings.

use vstd::prelude::*;
use crate::decimal::{parse_u16, parse_usize, parse_unsigned};

verus! {

/// Where the HTTP API listens.
#[derive(Debug)]
pub struct ServerConfig {
    pub address: String,
    pub port: u16,
}

/// How the services reach Kafka.
#[derive(Debug)]
pub struct KafkaConfig {
    pub bootstrap_servers: String,
    pub group_id: String,
    pub topic: String,
    pub channel_size: usize,
}

/// How the services reach Redis.
#[derive(Debug)]
pub struct RedisConfig {
    pub redis_url: String,
}

/// All settings of the services.
#[derive(Debug)]
pub struct Config {
    pub server: ServerConfig,
    pub kafka: KafkaConfig,
    pub redis: RedisConfig,
}

/// The raw values of the configuration variables, `None` where a variable is
/// not set (or not valid Unicode).
pub struct ConfigValues {
    pub server_address: Option<String>,
    pub server_port: Option<String>,
    pub kafka_bootstrap_servers: Option<String>,
    pub kafka_group_id: Option<String>,
    pub kafka_topic: Option<String>,
    pub kafka_channel_size: Option<String>,
    pub redis_url: Option<String>,
}

/// One configuration variable.
#[derive(Debug, Clone, Copy, PartialEq, Eq, Structural)]
pub enum ConfigVar {
    ServerAddress,
    ServerPort,
    KafkaBootstrapServers,
    KafkaGroupId,
    KafkaTopic,
    KafkaChannelSize,
    RedisUrl,
}

/// Why the configuration could not be built.
#[derive(Debug, Clone, Copy, PartialEq, Eq, Structural)]
pub enum ConfigError {
    /// The variable is not set.
    Missing(ConfigVar),
    /// The variable is set but its value is not the text of a `u16`.
    NotU16(ConfigVar),
    /// The variable is set but its value is not the text of a `usize`.
    NotUsize(ConfigVar),
}

/// The settings as mathematical values.
pub struct ConfigModel {
    pub address: Seq<char>,
    pub port: nat,
    pub bootstrap_servers: Seq<char>,
    pub group_id: Seq<char>,
    pub topic: Seq<char>,
    pub channel_size: nat,
    pub redis_url: Seq<char>,
}

impl Config {
    pub open spec fn model(&self) -> ConfigModel {
        ConfigModel {
            address: self.server.address@,
            port: self.server.port as nat,
            bootstrap_servers: self.kafka.bootstrap_servers@,
            group_id: self.kafka.group_id@,
            topic: self.kafka.topic@,
            channel_size: self.kafka.channel_size as nat,
            redis_url: self.redis.redis_url@,
        }
    }
}

pub open spec fn opt_view(o: Option<String>) -> Option<Seq<char>> {
    match o {
        Some(s) => Some(s@),
        None => None,
    }
}

/// What the configuration is for the given raw values: the variables are
/// checked in the order `SERVER_ADDRESS`, `SERVER_PORT`,
/// `KAFKA_BOOTSTRAP_SERVERS`, `KAFKA_GROUP_ID`, `KAFKA_TOPIC`,
/// `KAFKA_CHANNEL_SIZE`, `REDIS_URL`, and the first one that is missing, or
/// that must be a number and does not parse as one, is the error.
pub open spec fn config_outcome(
    address: Option<Seq<char>>,
    port: Option<Seq<char>>,
    bootstrap: Option<Seq<char>>,
    group: Option<Seq<char>>,
    topic: Option<Seq<char>>,
    channel: Option<Seq<char>>,
    redis: Option<Seq<char>>,
) -> Result<ConfigModel, ConfigError> {
    if address is None {
        Err(ConfigError::Missing(ConfigVar::ServerAddress))
    } else if port is None {
        Err(ConfigError::Missing(ConfigVar::ServerPort))
    } else if parse_unsigned(port->0, u16::MAX as nat) is None {
        Err(ConfigError::NotU16(ConfigVar::ServerPort))
    } else if bootstrap is None {
        Err(ConfigError::Missing(ConfigVar::KafkaBootstrapServers))
    } else if group is None {
        Err(ConfigError::Missing(ConfigVar::KafkaGroupId))
    } else if topic is None {
        Err(ConfigError::Missing(ConfigVar::KafkaTopic))
    } else if channel is None {
        Err(ConfigError::Missing(ConfigVar::KafkaChannelSize))
    } else if parse_unsigned(channel->0, usize::MAX as nat) is None {
        Err(ConfigError::NotUsize(ConfigVar::KafkaChannelSize))
    } else if redis is None {
        Err(ConfigError::Missing(ConfigVar::RedisUrl))
    } else {
        Ok(
            ConfigModel {
                address: address->0,
                port: parse_unsigned(port->0, u16::MAX as nat)->0,
                bootstrap_servers: bootstrap->0,
                group_id: group->0,
                topic: topic->0,
                channel_size: parse_unsigned(channel->0, usize::MAX as nat)->0,
                redis_url: redis->0,
            },
        )
    }
}

/// The configuration is built exactly when every variable is set, the port
/// is the text of a `u16` and the channel size that of a `usize`; the settings
/// are then the values as given, with the two numbers parsed.
pub proof fn lemma_config_ok_iff_complete(
    address: Option<Seq<char>>,
    port: Option<Seq<char>>,
    bootstrap: Option<Seq<char>>,
    group: Option<Seq<char>>,
    topic: Option<Seq<char>>,
    channel: Option<Seq<char>>,
    redis: Option<Seq<char>>,
)
    ensures
        config_outcome(address, port, bootstrap, group, topic, channel, redis) is Ok <==> (
        address is Some && port is Some && parse_unsigned(port->0, u16::MAX as nat) is Some
            && bootstrap is Some && group is Some && topic is Some && channel is Some
            && parse_unsigned(channel->0, usize::MAX as nat) is Some && redis is Some),
        config_outcome(address, port, bootstrap, group, topic, channel, redis) matches Ok(m) ==> (
        m.address == address->0 && Some(m.port) == parse_unsigned(port->0, u16::MAX as nat)
            && m.bootstrap_servers == bootstrap->0 && m.group_id == group->0 && m.topic == topic->0
            && Some(m.channel_size) == parse_unsigned(channel->0, usize::MAX as nat)
            && m.redis_url == redis->0),
{
}

impl ConfigValues {
    pub open spec fn outcome(&self) -> Result<ConfigModel, ConfigError> {
        config_outcome(
            opt_view(self.server_address),
            opt_view(self.server_port),
            opt_view(self.kafka_bootstrap_servers),
            opt_view(self.kafka_group_id),
            opt_view(self.kafka_topic),
            opt_view(self.kafka_channel_size),
            opt_view(self.redis_url),
        )
    }
}

impl Config {
    /// Builds the configuration from the raw values of its variables.
    pub fn from_values(values: ConfigValues) -> (res: Result<Config, ConfigError>)
        ensures
            match res {
                Ok(c) => values.outcome() == Ok::<ConfigModel, ConfigError>(c.model()),
                Err(e) => values.outcome() == Err::<ConfigModel, ConfigError>(e),
            },
    {
        let ConfigValues {
            server_address,
            server_port,
            kafka_bootstrap_servers,
            kafka_group_id,
            kafka_topic,
            kafka_channel_size,
            redis_url,
        } = values;
        let address = match server_address {
            Some(a) => a,
            None => return Err(ConfigError::Missing(ConfigVar::ServerAddress)),
        };
        let port_text = match server_port {
            Some(p) => p,
            None => return Err(ConfigError::Missing(ConfigVar::ServerPort)),
        };
        let port = match parse_u16(port_text.as_str()) {
            Some(p) => p,
            None => return Err(ConfigError::NotU16(ConfigVar::ServerPort)),
        };
        let bootstrap_servers = match kafka_bootstrap_servers {
            Some(b) => b,
            None => return Err(ConfigError::Missing(ConfigVar::KafkaBootstrapServers)),
        };
        let group_id = match kafka_group_id {
            Some(g) => g,
            None => return Err(ConfigError::Missing(ConfigVar::KafkaGroupId)),
        };
        let topic = match kafka_topic {
            Some(t) => t,
            None => return Err(ConfigError::Missing(ConfigVar::KafkaTopic)),
        };
        let channel_text = match kafka_channel_size {
            Some(c) => c,
            None => return Err(ConfigError::Missing(ConfigVar::KafkaChannelSize)),
        };
        let channel_size = match parse_usize(channel_text.as_str()) {
            Some(c) => c,
            None => return Err(ConfigError::NotUsize(ConfigVar::KafkaChannelSize)),
        };
        let redis_url = match redis_url {
            Some(r) => r,
            None => return Err(ConfigError::Missing(ConfigVar::RedisUrl)),
        };
        Ok(
            Config {
                server: ServerConfig { address, port },
                kafka: KafkaConfig { bootstrap_servers, group_id, topic, channel_size },
                redis: RedisConfig { redis_url },
            },
        )
    }
}

/// The name of the environment variable that holds `v`.
pub open spec fn var_name(v: ConfigVar) -> Seq<char> {
    match v {
        ConfigVar::ServerAddress => "SERVER_ADDRESS"@,
        ConfigVar::ServerPort => "SERVER_PORT"@,
        ConfigVar::KafkaBootstrapServers => "KAFKA_BOOTSTRAP_SERVERS"@,
        ConfigVar::KafkaGroupId => "KAFKA_GROUP_ID"@,
        ConfigVar::KafkaTopic => "KAFKA_TOPIC"@,
        ConfigVar::KafkaChannelSize => "KAFKA_CHANNEL_SIZE"@,
        ConfigVar::RedisUrl => "REDIS_URL"@,
    }
}

/// The text that reports `e`: the variable's name followed by
/// " must be set", " must be a valid u16" or " must be a valid usize".
pub open spec fn error_text(e: ConfigError) -> Seq<char> {
    match e {
        ConfigError::Missing(v) => var_name(v) + " must be set"@,
        ConfigError::NotU16(v) => var_name(v) + " must be a valid u16"@,
        ConfigError::NotUsize(v) => var_name(v) + " must be a valid usize"@,
    }
}

impl ConfigVar {
    /// The name of the environment variable.
    pub fn name(&self) -> (res: &'static str)
        ensures
            res@ == var_name(*self),
    {
        match self {
            ConfigVar::ServerAddress => "SERVER_ADDRESS",
            ConfigVar::ServerPort => "SERVER_PORT",
            ConfigVar::KafkaBootstrapServers => "KAFKA_BOOTSTRAP_SERVERS",
            ConfigVar::KafkaGroupId => "KAFKA_GROUP_ID",
            ConfigVar::KafkaTopic => "KAFKA_TOPIC",
            ConfigVar::KafkaChannelSize => "KAFKA_CHANNEL_SIZE",
            ConfigVar::RedisUrl => "REDIS_URL",
        }
    }
}

impl ConfigError {
    /// The message that reports this error.
    pub fn message(&self) -> (res: String)
        ensures
            res@ == error_text(*self),
    {
        match self {
            ConfigError::Missing(v) => String::from_str(v.name()).concat(" must be set"),
            ConfigError::NotU16(v) => String::from_str(v.name()).concat(" must be a valid u16"),
            ConfigError::NotUsize(v) => String::from_str(v.name()).concat(" must be a valid usize"),
        }
    }
}

} // verus!
