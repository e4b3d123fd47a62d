use crate::payload::text_view;
use vstd::prelude::*;

verus! {

/// The settings of the process, read once at startup and never changed.
#[derive(Debug, Clone)]
pub struct AppConfig {
    pub mqtt_client_id: Option<String>,
    pub mqtt_server_addr: String,
    pub mqtt_server_port: Option<u16>,
    pub mqtt_username: Option<String>,
    pub mqtt_password: Option<String>,
}

/// The mathematical counterpart of `AppConfig`.
pub struct AppConfigView {
    pub mqtt_client_id: Option<Seq<char>>,
    pub mqtt_server_addr: Seq<char>,
    pub mqtt_server_port: Option<u16>,
    pub mqtt_username: Option<Seq<char>>,
    pub mqtt_password: Option<Seq<char>>,
}

impl View for AppConfig {
    type V = AppConfigView;

    open spec fn view(&self) -> AppConfigView {
        AppConfigView {
            mqtt_client_id: text_view(self.mqtt_client_id),
            mqtt_server_addr: self.mqtt_server_addr@,
            mqtt_server_port: self.mqtt_server_port,
            mqtt_username: text_view(self.mqtt_username),
            mqtt_password: text_view(self.mqtt_password),
        }
    }
}

impl Default for AppConfig {
    fn default() -> (r: AppConfig)
        ensures
            r@ == (AppConfigView {
                mqtt_client_id: None,
                mqtt_server_addr: Seq::empty(),
                mqtt_server_port: None,
                mqtt_username: None,
                mqtt_password: None,
            }),
    {
        AppConfig {
            mqtt_client_id: None,
            mqtt_server_addr: String::new(),
            mqtt_server_port: None,
            mqtt_username: None,
            mqtt_password: None,
        }
    }
}

/// The broker port used where the settings name none.
pub const DEFAULT_MQTT_PORT: u16 = 1883_u16;

/// The client id used where the settings name none.
pub open spec fn default_client_id() -> Seq<char> {
    "sunspec_gateway"@
}

/// The settings file read where the environment names none.
pub open spec fn default_config_path() -> Seq<char> {
    "./config.yaml"@
}

/// The client id that these settings stand for.
pub open spec fn client_id_of(c: AppConfigView) -> Seq<char> {
    match c.mqtt_client_id {
        Some(id) => id,
        None => default_client_id(),
    }
}

/// The broker port that these settings stand for.
pub open spec fn server_port_of(c: AppConfigView) -> u16 {
    match c.mqtt_server_port {
        Some(port) => port,
        None => DEFAULT_MQTT_PORT,
    }
}

impl AppConfig {
    /// The client id to connect with: the configured one, else the default.
    pub fn client_id(&self) -> (id: String)
        ensures
            id@ == client_id_of(self@),
    {
        match &self.mqtt_client_id {
            Some(id) => id.clone(),
            None => String::from_str("sunspec_gateway"),
        }
    }

    /// The broker port to connect to: the configured one, else the default.
    pub fn server_port(&self) -> (port: u16)
        ensures
            port == server_port_of(self@),
    {
        match self.mqtt_server_port {
            Some(port) => port,
            None => DEFAULT_MQTT_PORT,
        }
    }
}

/// The path of the settings file: what the environment variable
/// `CONFIG_FILE_PATH` holds, else the default.
pub fn config_file_path(from_environment: Option<String>) -> (path: String)
    ensures
        path@ == (match from_environment {
            Some(p) => p@,
            None => default_config_path(),
        }),
{
    match from_environment {
        Some(p) => p,
        None => String::from_str("./config.yaml"),
    }
}

} // verus!
