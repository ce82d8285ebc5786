//! Orchestrator link: the structured messages exchanged with the remote
//! orchestrator, the transport abstraction they travel over, and the client
//! that builds outbound telemetry and decodes inbound commands.
//!
//! The wire encoding is the transport's business; the core only hands one
//! structured message to `send` and takes at most one back from `receive`.

use vstd::prelude::*;

verus! {

/// Transport-level failure.  Faults are logged by the caller and never
/// escalate to a process failure.
#[derive(Debug, Clone, Copy, PartialEq, Eq, Structural)]
pub enum CommsError {
    SendFailed,
    ReceiveFailed,
}

/// Periodic liveness telemetry.
#[derive(Debug, Clone)]
pub struct Heartbeat {
    pub node_id: String,
    pub timestamp: i64,
    /// Battery state of charge, 0 to 100.
    pub battery_level_percent: u8,
}

/// One relay's metadata inside a feature report.
#[derive(Debug, Clone)]
pub struct RelayInfo {
    pub index: u32,
    pub id: String,
    pub name: String,
    pub relay_type: i32,
    pub priority: i32,
    pub amperage: u32,
    pub is_closed: bool,
}

/// Topology announcement sent once at startup.
#[derive(Debug, Clone)]
pub struct FeatureReport {
    pub node_id: String,
    pub relays: Vec<RelayInfo>,
    pub mesh_type: String,
}

/// Under-voltage notification.
#[derive(Debug, Clone)]
pub struct VoltageAlert {
    pub node_id: String,
    pub voltage_decivolts: u32,
    pub timestamp: i64,
}

/// Command to shed (or, unimplemented, restore) load.
#[derive(Debug, Clone)]
pub struct LoadShed {
    pub target_node_id: String,
    pub shed_load: bool,
}

/// Command to enter island mode.
#[derive(Debug, Clone)]
pub struct EnterIsland {
    pub target_node_id: String,
}

/// Command to enter black-start recovery.
#[derive(Debug, Clone)]
pub struct EnterBlackStart {
    pub target_node_id: String,
}

/// Command to close the relay at a given inventory position.
#[derive(Debug, Clone)]
pub struct ActivateRelayByIndex {
    pub target_node_id: String,
    pub relay_index: u32,
}

/// Command to close every relay of a given priority tier.
#[derive(Debug, Clone)]
pub struct ActivateRelayByPriority {
    pub target_node_id: String,
    /// Wire priority code; unrecognized codes are read as the lowest tier.
    pub priority: i32,
}

/// Any message that can appear on the orchestrator link, in either
/// direction.  A receiver silently ignores payloads that are not commands.
#[derive(Debug, Clone)]
pub enum NeighborhoodMessage {
    Heartbeat(Heartbeat),
    FeatureReport(FeatureReport),
    VoltageAlert(VoltageAlert),
    LoadShed(LoadShed),
    EnterIsland(EnterIsland),
    EnterBlackStart(EnterBlackStart),
    ActivateRelayByIndex(ActivateRelayByIndex),
    ActivateRelayByPriority(ActivateRelayByPriority),
}

/// An inbound command, after filtering out non-command payloads.
#[derive(Debug, Clone)]
pub enum IncomingCommand {
    LoadShed(LoadShed),
    EnterIsland(EnterIsland),
    EnterBlackStart(EnterBlackStart),
    ActivateRelayByIndex(ActivateRelayByIndex),
    ActivateRelayByPriority(ActivateRelayByPriority),
}

/// The command carried by a message, or `None` for telemetry payloads,
/// which a receiving node ignores.
pub open spec fn spec_command_of_message(m: NeighborhoodMessage) -> Option<IncomingCommand> {
    match m {
        NeighborhoodMessage::LoadShed(ls) => Some(IncomingCommand::LoadShed(ls)),
        NeighborhoodMessage::EnterIsland(ei) => Some(IncomingCommand::EnterIsland(ei)),
        NeighborhoodMessage::EnterBlackStart(ebs) => Some(IncomingCommand::EnterBlackStart(ebs)),
        NeighborhoodMessage::ActivateRelayByIndex(ar) => Some(
            IncomingCommand::ActivateRelayByIndex(ar),
        ),
        NeighborhoodMessage::ActivateRelayByPriority(arp) => Some(
            IncomingCommand::ActivateRelayByPriority(arp),
        ),
        _ => None,
    }
}

impl IncomingCommand {
    /// Extracts the command from a message; telemetry payloads yield `None`.
    pub fn of_message(m: NeighborhoodMessage) -> (r: Option<IncomingCommand>)
        ensures
            r == spec_command_of_message(m),
    {
        match m {
            NeighborhoodMessage::LoadShed(ls) => Some(IncomingCommand::LoadShed(ls)),
            NeighborhoodMessage::EnterIsland(ei) => Some(IncomingCommand::EnterIsland(ei)),
            NeighborhoodMessage::EnterBlackStart(ebs) => Some(
                IncomingCommand::EnterBlackStart(ebs),
            ),
            NeighborhoodMessage::ActivateRelayByIndex(ar) => Some(
                IncomingCommand::ActivateRelayByIndex(ar),
            ),
            NeighborhoodMessage::ActivateRelayByPriority(arp) => Some(
                IncomingCommand::ActivateRelayByPriority(arp),
            ),
            _ => None,
        }
    }

    /// The node id the command is addressed to.
    pub open spec fn spec_target(self) -> Seq<char> {
        match self {
            IncomingCommand::LoadShed(ls) => ls.target_node_id@,
            IncomingCommand::EnterIsland(ei) => ei.target_node_id@,
            IncomingCommand::EnterBlackStart(ebs) => ebs.target_node_id@,
            IncomingCommand::ActivateRelayByIndex(ar) => ar.target_node_id@,
            IncomingCommand::ActivateRelayByPriority(arp) => arp.target_node_id@,
        }
    }
}

/// Transport over which messages reach the orchestrator.  `sent` and `inbox`
/// are the abstract transmit log and the queue of messages that have already
/// arrived; `receive` must return promptly with `None` rather than block.
pub trait CommunicationLayer: Sized {
    spec fn sent(&self) -> Seq<NeighborhoodMessage>;

    spec fn inbox(&self) -> Seq<NeighborhoodMessage>;

    /// Sends one message; on success it is appended to the transmit log.
    fn send(&mut self, msg: NeighborhoodMessage) -> (r: Result<(), CommsError>)
        ensures
            r is Ok ==> final (self).sent() == old(self).sent().push(msg),
            r is Err ==> final (self).sent() == old(self).sent(),
            final (self).inbox() == old(self).inbox(),
    ;

    /// Non-blocking receive of at most one message, in arrival order.
    fn receive(&mut self) -> (r: Result<Option<NeighborhoodMessage>, CommsError>)
        ensures
            final (self).sent() == old(self).sent(),
            r matches Ok(Some(m)) ==> old(self).inbox().len() > 0 && m == old(self).inbox()[0]
                && final (self).inbox() == old(self).inbox().drop_first(),
            r matches Ok(None) ==> final (self).inbox() == old(self).inbox(),
            r is Err ==> final (self).inbox() == old(self).inbox(),
    ;
}

/// Request/notification channel to the remote orchestrator over some
/// transport.
pub struct OrchestratorClient<C: CommunicationLayer> {
    layer: C,
}

impl<C: CommunicationLayer> OrchestratorClient<C> {
    /// Messages handed to the transport so far.
    pub closed spec fn sent(&self) -> Seq<NeighborhoodMessage> {
        self.layer.sent()
    }

    /// Messages that have arrived and await a `receive`.
    pub closed spec fn inbox(&self) -> Seq<NeighborhoodMessage> {
        self.layer.inbox()
    }

    pub fn new(layer: C) -> (c: Self)
        ensures
            c.sent() == layer.sent(),
            c.inbox() == layer.inbox(),
    {
        Self { layer }
    }

    /// Sends a heartbeat carrying the node id and battery state of charge.
    pub fn send_heartbeat(
        &mut self,
        node_id: &String,
        timestamp: i64,
        battery_level_percent: u8,
    ) -> (r: Result<(), CommsError>)
        ensures
            r is Ok ==> final (self).sent() == old(self).sent().push(
                NeighborhoodMessage::Heartbeat(
                    Heartbeat { node_id: *node_id, timestamp, battery_level_percent },
                ),
            ),
            r is Err ==> final (self).sent() == old(self).sent(),
            final (self).inbox() == old(self).inbox(),
    {
        let heartbeat = Heartbeat { node_id: node_id.clone(), timestamp, battery_level_percent };
        self.layer.send(NeighborhoodMessage::Heartbeat(heartbeat))
    }

    /// Sends the startup feature report describing the relay inventory.
    pub fn send_feature_report(
        &mut self,
        node_id: &String,
        relays: Vec<RelayInfo>,
        mesh_type: String,
    ) -> (r: Result<(), CommsError>)
        ensures
            r is Ok ==> final (self).sent() == old(self).sent().push(
                NeighborhoodMessage::FeatureReport(
                    FeatureReport { node_id: *node_id, relays, mesh_type },
                ),
            ),
            r is Err ==> final (self).sent() == old(self).sent(),
            final (self).inbox() == old(self).inbox(),
    {
        let report = FeatureReport { node_id: node_id.clone(), relays, mesh_type };
        self.layer.send(NeighborhoodMessage::FeatureReport(report))
    }

    /// Sends an under-voltage alert.
    pub fn send_voltage_alert(
        &mut self,
        node_id: &String,
        voltage_decivolts: u32,
        timestamp: i64,
    ) -> (r: Result<(), CommsError>)
        ensures
            r is Ok ==> final (self).sent() == old(self).sent().push(
                NeighborhoodMessage::VoltageAlert(
                    VoltageAlert { node_id: *node_id, voltage_decivolts, timestamp },
                ),
            ),
            r is Err ==> final (self).sent() == old(self).sent(),
            final (self).inbox() == old(self).inbox(),
    {
        let alert = VoltageAlert { node_id: node_id.clone(), voltage_decivolts, timestamp };
        self.layer.send(NeighborhoodMessage::VoltageAlert(alert))
    }

    /// Takes at most one arrived message and decodes it; telemetry payloads
    /// are consumed and ignored.
    pub fn receive(&mut self) -> (r: Result<Option<IncomingCommand>, CommsError>)
        ensures
            final (self).sent() == old(self).sent(),
            r matches Ok(Some(cmd)) ==> old(self).inbox().len() > 0
                && Some(cmd) == spec_command_of_message(old(self).inbox()[0])
                && final (self).inbox() == old(self).inbox().drop_first(),
            r matches Ok(None) ==> final (self).inbox() == old(self).inbox()
                || (old(self).inbox().len() > 0
                && spec_command_of_message(old(self).inbox()[0]) is None
                && final (self).inbox() == old(self).inbox().drop_first()),
            r is Err ==> final (self).inbox() == old(self).inbox(),
    {
        match self.layer.receive() {
            Ok(Some(m)) => Ok(IncomingCommand::of_message(m)),
            Ok(None) => Ok(None),
            Err(e) => Err(e),
        }
    }
}

/// Transport over a long-range radio.  The radio driver itself is not wired
/// up yet: sending records the message and succeeds, and no message ever
/// arrives, which is the documented stub behaviour.
pub struct LoRaCommunication {
    pub frequency: u64,
    /// Abstract log of the messages handed to the radio so far.
    pub transmitted: Ghost<Seq<NeighborhoodMessage>>,
}

impl LoRaCommunication {
    pub fn new(frequency: u64) -> (c: Self)
        ensures
            c.frequency == frequency,
            c.sent() == Seq::<NeighborhoodMessage>::empty(),
    {
        Self { frequency, transmitted: Ghost(Seq::empty()) }
    }
}

impl CommunicationLayer for LoRaCommunication {
    open spec fn sent(&self) -> Seq<NeighborhoodMessage> {
        self.transmitted@
    }

    open spec fn inbox(&self) -> Seq<NeighborhoodMessage> {
        Seq::empty()
    }

    fn send(&mut self, msg: NeighborhoodMessage) -> (r: Result<(), CommsError>) {
        self.transmitted = Ghost(self.transmitted@.push(msg));
        Ok(())
    }

    fn receive(&mut self) -> (r: Result<Option<NeighborhoodMessage>, CommsError>) {
        Ok(None)
    }
}

} // verus!
