//! Hardware abstraction boundary: relay actuation and the low-level radio.
//! Each capability is a trait with a simulated implementation here; a binary
//! may supply a hardware-backed implementation of its own.

pub mod gpio;
pub mod lora;

pub use gpio::HalError;
pub use gpio::MockRelayDriver;
pub use gpio::RelayControl;
pub use gpio::RelayPin;
pub use gpio::create_relay_driver;
pub use lora::LoRaHalConfig;
pub use lora::LoRaRadio;
pub use lora::MockLoRaRadio;
pub use lora::Sx126xRadio;
pub use lora::create_lora_radio;
