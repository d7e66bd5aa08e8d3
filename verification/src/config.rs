//! Application configuration consumed by the kiosk's domain components.
//!
//! All quantities are plain integers: power in watts, prices in whole
//! currency units per kWh, timeouts in seconds, and the UI font
//! multiplier in thousandths.

use vstd::prelude::*;

verus! {

/// Top-level configuration.  The host loads it from a file; the core
/// only ever reads it.
#[derive(Clone, Debug)]
pub struct Config {
    pub ui: UiConfig,
    pub charging: ChargingConfig,
    pub payment: PaymentConfig,
    pub hardware: HardwareConfig,
    pub ocpp: Option<OcppConfig>,
    pub modbus: Option<ModbusConfig>,
}

/// Window and theme settings for the rendering layer.
#[derive(Clone, Debug)]
pub struct UiConfig {
    pub theme: String,
    /// Font scale in thousandths (1000 = unscaled).
    pub font_size_multiplier: u32,
    pub fullscreen: bool,
    pub always_on_top: bool,
    /// Window width in pixels.
    pub screen_width: u32,
    /// Window height in pixels.
    pub screen_height: u32,
}

/// Settings fed into the charging session engine.
#[derive(Clone, Debug)]
pub struct ChargingConfig {
    /// Upper power bound in watts (not currently enforced by the engine).
    pub max_power: u64,
    /// Price in whole currency units per kWh; fed into every update.
    pub price_per_kwh: u64,
    /// Session timeout in seconds (reserved, not wired to a transition).
    pub session_timeout: u64,
}

/// Payment collaborator settings.
#[derive(Clone, Debug)]
pub struct PaymentConfig {
    pub supported_methods: Vec<String>,
    pub api_endpoint: String,
    pub timeout: u64,
}

/// Flags gating optional background collaborators.
#[derive(Clone, Debug)]
pub struct HardwareConfig {
    pub enable_can: bool,
    pub enable_gpio: bool,
    pub can_interface: String,
    pub serial_ports: Vec<String>,
}

/// OCPP collaborator settings.
#[derive(Clone, Debug)]
pub struct OcppConfig {
    pub server_url: String,
    pub charger_id: String,
    pub heartbeat_interval: u64,
}

/// Modbus collaborator settings.
#[derive(Clone, Debug)]
pub struct ModbusConfig {
    pub address: String,
    pub port: u16,
    pub slave_id: u8,
}

impl Config {
    /// The built-in defaults used when no configuration file is given.
    pub fn default() -> (c: Config)
        ensures
            c.ui.theme@ == "dark"@,
            c.ui.font_size_multiplier == 1000,
            c.ui.fullscreen,
            c.ui.always_on_top,
            c.ui.screen_width == 1024,
            c.ui.screen_height == 768,
            c.charging.max_power == 150_000,
            c.charging.price_per_kwh == 350,
            c.charging.session_timeout == 1800,
            c.payment.supported_methods@.len() == 2,
            c.payment.supported_methods@[0]@ == "card"@,
            c.payment.supported_methods@[1]@ == "mobile"@,
            c.payment.api_endpoint@ == "https://api.evcharger.com"@,
            c.payment.timeout == 30,
            !c.hardware.enable_can,
            !c.hardware.enable_gpio,
            c.hardware.can_interface@ == "can0"@,
            c.hardware.serial_ports@.len() == 1,
            c.hardware.serial_ports@[0]@ == "/dev/ttyUSB0"@,
            c.ocpp matches Some(o) && o.server_url@ == "ws://localhost:8080"@
                && o.charger_id@ == "CHARGER001"@ && o.heartbeat_interval == 30,
            c.modbus is None,
    {
        let mut supported_methods: Vec<String> = Vec::new();
        supported_methods.push("card".to_owned());
        supported_methods.push("mobile".to_owned());
        let mut serial_ports: Vec<String> = Vec::new();
        serial_ports.push("/dev/ttyUSB0".to_owned());
        Config {
            ui: UiConfig {
                theme: "dark".to_owned(),
                font_size_multiplier: 1000,
                fullscreen: true,
                always_on_top: true,
                screen_width: 1024,
                screen_height: 768,
            },
            charging: ChargingConfig {
                max_power: 150_000,
                price_per_kwh: 350,
                session_timeout: 1800,
            },
            payment: PaymentConfig {
                supported_methods,
                api_endpoint: "https://api.evcharger.com".to_owned(),
                timeout: 30,
            },
            hardware: HardwareConfig {
                enable_can: false,
                enable_gpio: false,
                can_interface: "can0".to_owned(),
                serial_ports,
            },
            ocpp: Some(OcppConfig {
                server_url: "ws://localhost:8080".to_owned(),
                charger_id: "CHARGER001".to_owned(),
                heartbeat_interval: 30,
            }),
            modbus: None,
        }
    }
}

} // verus!
