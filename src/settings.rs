use vstd::prelude::*;

verus! {

/// Settings that are required for bare minimum communication with the server.
pub struct BaseSettings {
    /// Id of the device (e.g. A0, A1, ...): its first character names its row,
    /// its second its column.
    pub pi_zero_id: String,
    /// Address of the web server (updates, pictures, ...).
    pub server_url: String,
    /// Address of the MQTT server.
    pub mqtt_url: String,
    /// Port of the MQTT server.
    pub mqtt_port: u16,
    /// MQTT topic to check for updates.
    pub update_topic: String,
}

/// Settings that are not critical to startup.
pub struct Settings {
    /// Address of the NTP server.
    pub ntp_server_url: String,
    /// MQTT topic for time sync (ntp).
    pub ntp_topic: String,
    /// MQTT topic for taking pictures.
    pub camera_topic: String,
    /// MQTT topic for generic linux commands.
    pub command_topic: String,
    /// MQTT topic for status reports.
    pub status_topic: String,
    /// MQTT topic that cancels all outstanding work.
    pub cancel_topic: String,
}

} // verus!
