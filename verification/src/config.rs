//! Communication-related configuration carried into the core.  Loading the
//! configuration file and its full schema are the binary's business; only
//! the parts the core reads are modelled here.

use vstd::prelude::*;

verus! {

/// Radio link parameters from the configuration file.
#[derive(Debug, Clone)]
pub struct LoRaConfig {
    pub frequency: u64,
    pub bandwidth: u64,
    pub tx_power: i32,
    pub spreading_factor: u8,
}

/// Optional communication section of the configuration.
#[derive(Debug, Clone)]
pub struct CommsConfig {
    pub lora: Option<LoRaConfig>,
}

} // verus!
