//! Low-level radio boundary.  The higher-level message protocol lives in the
//! comms module; this trait moves raw bytes.

use crate::hal::gpio::HalError;
use vstd::prelude::*;
use vstd::slice::slice_to_vec;

verus! {

/// Radio configuration.
#[derive(Debug, Clone)]
pub struct LoRaHalConfig {
    pub spi_bus: u8,
    pub spi_cs: u8,
    pub frequency: u64,
    pub bandwidth: u32,
    pub spreading_factor: u8,
    pub tx_power: i8,
}

impl Default for LoRaHalConfig {
    /// US ISM band defaults.
    fn default() -> (c: Self)
        ensures
            c.spi_bus == 0,
            c.spi_cs == 0,
            c.frequency == 915_000_000,
            c.bandwidth == 125_000,
            c.spreading_factor == 7,
            c.tx_power == 14,
    {
        Self {
            spi_bus: 0,
            spi_cs: 0,
            frequency: 915_000_000,
            bandwidth: 125_000,
            spreading_factor: 7,
            tx_power: 14,
        }
    }
}

/// Raw radio capability.  `transmitted` is the abstract log of payloads
/// handed to the air; `pending_rx` the packets that have arrived and not yet
/// been taken.  `receive` must not block: it may return `None` even while
/// packets are pending.
pub trait LoRaRadio: Sized {
    spec fn transmitted(&self) -> Seq<Seq<u8>>;

    spec fn pending_rx(&self) -> Seq<Seq<u8>>;

    /// Transmits one raw payload.
    fn transmit(&mut self, data: &[u8]) -> (r: Result<(), HalError>)
        ensures
            r is Ok ==> final (self).transmitted() == old(self).transmitted().push(data@),
            r is Err ==> final (self).transmitted() == old(self).transmitted(),
            final (self).pending_rx() == old(self).pending_rx(),
    ;

    /// Takes at most one arrived packet, in arrival order.
    fn receive(&mut self) -> (r: Result<Option<Vec<u8>>, HalError>)
        ensures
            final (self).transmitted() == old(self).transmitted(),
            r matches Ok(Some(d)) ==> old(self).pending_rx().len() > 0 && d@ == old(
                self,
            ).pending_rx()[0] && final (self).pending_rx() == old(self).pending_rx().drop_first(),
            r matches Ok(None) ==> final (self).pending_rx() == old(self).pending_rx(),
            r is Err ==> final (self).pending_rx() == old(self).pending_rx(),
    ;

    /// Signal strength of the last received packet, if any.
    fn last_rssi(&self) -> Option<i16>;

    /// Puts the radio in low-power standby.
    fn standby(&mut self) -> (r: Result<(), HalError>)
        ensures
            final (self).transmitted() == old(self).transmitted(),
            final (self).pending_rx() == old(self).pending_rx(),
    ;
}

/// Placeholder for the hardware radio driver: it accepts payloads and never
/// delivers one, pending a real SPI driver in the binary.
pub struct Sx126xRadio {
    pub config: LoRaHalConfig,
    /// Abstract log of payloads accepted for transmission.
    pub tx_log: Ghost<Seq<Seq<u8>>>,
}

impl Sx126xRadio {
    pub fn new(config: LoRaHalConfig) -> (r: Result<Self, HalError>)
        ensures
            r matches Ok(radio) ==> radio.transmitted() == Seq::<Seq<u8>>::empty(),
            r is Ok,
    {
        Ok(Self { config, tx_log: Ghost(Seq::empty()) })
    }
}

impl LoRaRadio for Sx126xRadio {
    open spec fn transmitted(&self) -> Seq<Seq<u8>> {
        self.tx_log@
    }

    open spec fn pending_rx(&self) -> Seq<Seq<u8>> {
        Seq::empty()
    }

    fn transmit(&mut self, data: &[u8]) -> (r: Result<(), HalError>) {
        self.tx_log = Ghost(self.tx_log@.push(data@));
        Ok(())
    }

    fn receive(&mut self) -> (r: Result<Option<Vec<u8>>, HalError>) {
        Ok(None)
    }

    fn last_rssi(&self) -> Option<i16> {
        None
    }

    fn standby(&mut self) -> (r: Result<(), HalError>) {
        Ok(())
    }
}

/// Simulated radio for development and testing: transmissions are kept in a
/// log, and tests inject the packets that `receive` hands out.
pub struct MockLoRaRadio {
    pub config: LoRaHalConfig,
    tx_log: Vec<Vec<u8>>,
    rx_queue: Vec<Vec<u8>>,
}

impl MockLoRaRadio {
    pub fn new(config: LoRaHalConfig) -> (r: Result<Self, HalError>)
        ensures
            r matches Ok(radio) ==> radio.transmitted() == Seq::<Seq<u8>>::empty()
                && radio.pending_rx() == Seq::<Seq<u8>>::empty(),
            r is Ok,
    {
        Ok(Self { config, tx_log: Vec::new(), rx_queue: Vec::new() })
    }

    /// Queues a packet to be handed out by `receive` (for testing).
    pub fn inject_rx(&mut self, data: Vec<u8>)
        ensures
            final (self).pending_rx() == old(self).pending_rx().push(data@),
            final (self).transmitted() == old(self).transmitted(),
    {
        self.rx_queue.push(data);
        proof {
            assert(self.pending_rx() =~~= old(self).pending_rx().push(data@));
            assert(self.transmitted() =~~= old(self).transmitted());
        }
    }

    /// The payloads transmitted so far (for testing).
    pub fn get_tx_log(&self) -> (log: &Vec<Vec<u8>>)
        ensures
            log.deep_view() == self.transmitted(),
    {
        &self.tx_log
    }
}

impl LoRaRadio for MockLoRaRadio {
    closed spec fn transmitted(&self) -> Seq<Seq<u8>> {
        self.tx_log.deep_view()
    }

    closed spec fn pending_rx(&self) -> Seq<Seq<u8>> {
        self.rx_queue.deep_view()
    }

    fn transmit(&mut self, data: &[u8]) -> (r: Result<(), HalError>) {
        let payload = slice_to_vec(data);
        self.tx_log.push(payload);
        proof {
            assert(self.transmitted() =~~= old(self).transmitted().push(data@));
            assert(self.pending_rx() =~~= old(self).pending_rx());
        }
        Ok(())
    }

    fn receive(&mut self) -> (r: Result<Option<Vec<u8>>, HalError>) {
        if self.rx_queue.is_empty() {
            Ok(None)
        } else {
            let d = self.rx_queue.remove(0);
            proof {
                assert(self.pending_rx() =~~= old(self).pending_rx().drop_first());
                assert(self.transmitted() =~~= old(self).transmitted());
                assert(d@ == old(self).pending_rx()[0]);
            }
            Ok(Some(d))
        }
    }

    fn last_rssi(&self) -> Option<i16> {
        // Simulated good signal.
        Some(-50)
    }

    fn standby(&mut self) -> (r: Result<(), HalError>) {
        Ok(())
    }
}

/// Makes the radio available on this platform.  The hardware driver lives
/// with the binary; the library's own radio is the simulated one.
pub fn create_lora_radio(config: LoRaHalConfig) -> (r: Result<MockLoRaRadio, HalError>)
    ensures
        r is Ok,
{
    MockLoRaRadio::new(config)
}

} // verus!
