//! Configuration data: one record per destination plus the broker's
//! connection settings, read once at startup and treated as immutable.
//!
//! Loading the file itself is I/O and lives outside the library; the
//! types and their defaults are the library's own.

use vstd::prelude::*;

verus! {

/// Broker (MQTT) connection settings.
#[derive(Clone)]
pub struct MqttConfig {
    pub host: String,
    pub port: u16,
    pub max_packet_size: u32,
    pub topic: String,
    pub device_id: String,
    pub username: String,
    pub password: String,
}

/// Matrix destination settings.
#[derive(Clone)]
pub struct MatrixConfig {
    pub enabled: bool,
    pub token: String,
    pub username: String,
    pub password: String,
    pub host: String,
    pub room_id: String,
    pub bot_name: String,
}

/// Discord destination settings.
#[derive(Clone)]
pub struct DiscordConfig {
    pub enabled: bool,
    pub token: String,
    pub channel_id: String,
    pub bot_name: String,
}

/// Slack destination settings.
#[derive(Clone)]
pub struct SlackConfig {
    pub enabled: bool,
    pub token: String,
    pub channel_id: String,
    pub bot_name: String,
}

/// The whole configuration: the shared alert-endpoint base URL used for
/// deep links, the broker settings, and one record per destination.
#[derive(Clone)]
pub struct BvrChirpConfig {
    pub alert_endpoint: String,
    pub mqtt_config: MqttConfig,
    pub matrix_config: MatrixConfig,
    pub discord_config: DiscordConfig,
    pub slack_config: SlackConfig,
}

impl Default for BvrChirpConfig {
    /// The defaults used when no configuration file is found: every
    /// destination disabled, local broker and alert endpoint,
    /// placeholder credentials.
    fn default() -> (c: Self)
        ensures
            c.alert_endpoint@ == "http://127.0.0.1:81"@,
            c.mqtt_config.host@ == "127.0.0.1"@,
            c.mqtt_config.port == 1884,
            c.mqtt_config.max_packet_size == 2048000,
            c.mqtt_config.topic@ == "my_topic/#"@,
            c.mqtt_config.device_id@ == "Bvr Chirp"@,
            c.mqtt_config.username@ == ""@,
            c.mqtt_config.password@ == ""@,
            !c.matrix_config.enabled,
            c.matrix_config.token@ == "<token>"@,
            c.matrix_config.username@ == "username"@,
            c.matrix_config.password@ == "password"@,
            c.matrix_config.host@ == "https://matrix.org"@,
            c.matrix_config.room_id@ == "<room_id>"@,
            c.matrix_config.bot_name@ == "Bvr Chirp Bot"@,
            !c.discord_config.enabled,
            c.discord_config.token@ == "<token>"@,
            c.discord_config.channel_id@ == "<channel_id>"@,
            c.discord_config.bot_name@ == "Bvr Chirp Bot"@,
            !c.slack_config.enabled,
            c.slack_config.token@ == "<api_key>"@,
            c.slack_config.channel_id@ == "<channel_id>"@,
            c.slack_config.bot_name@ == "Bvr Chirp Bot"@,
    {
        BvrChirpConfig {
            alert_endpoint: "http://127.0.0.1:81".to_owned(),
            mqtt_config: MqttConfig {
                host: "127.0.0.1".to_owned(),
                port: 1884,
                max_packet_size: 2048000,
                topic: "my_topic/#".to_owned(),
                device_id: "Bvr Chirp".to_owned(),
                username: "".to_owned(),
                password: "".to_owned(),
            },
            matrix_config: MatrixConfig {
                enabled: false,
                token: "<token>".to_owned(),
                username: "username".to_owned(),
                password: "password".to_owned(),
                host: "https://matrix.org".to_owned(),
                room_id: "<room_id>".to_owned(),
                bot_name: "Bvr Chirp Bot".to_owned(),
            },
            discord_config: DiscordConfig {
                enabled: false,
                token: "<token>".to_owned(),
                channel_id: "<channel_id>".to_owned(),
                bot_name: "Bvr Chirp Bot".to_owned(),
            },
            slack_config: SlackConfig {
                enabled: false,
                token: "<api_key>".to_owned(),
                channel_id: "<channel_id>".to_owned(),
                bot_name: "Bvr Chirp Bot".to_owned(),
            },
        }
    }
}

} // verus!
