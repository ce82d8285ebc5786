//! The grid-edge node itself: relay inventory, operating state, and the
//! decision engine the scheduler drives.  Every mutation of the inventory
//! promises exactly the corresponding policy function; the scheduler around
//! the node only supplies timer ticks, sensor readings and timestamps.

use crate::comms::CommunicationLayer;
use crate::comms::IncomingCommand;
use crate::comms::NeighborhoodMessage;
use crate::comms::OrchestratorClient;
use crate::comms::spec_command_of_message;
use crate::comms::{ActivateRelayByIndex, ActivateRelayByPriority};
use crate::comms::{EnterBlackStart, EnterIsland, LoadShed};
use crate::comms::{FeatureReport, Heartbeat, RelayInfo, VoltageAlert};
use crate::hal::gpio::RelayControl;
use crate::hal::gpio::RelayPin;
use crate::policy::UNDERVOLTAGE_THRESHOLD_DECIVOLTS;
use crate::policy::activate_index_relays;
use crate::policy::activate_priority_relays;
use crate::policy::alert_due;
use crate::policy::islanded_relays;
use crate::policy::open_grid_relays;
use crate::policy::shed_all_load_relays;
use crate::policy::shed_load_relays;
use crate::policy::shed_one;
use crate::policy::state_after_voltage;
use crate::types::Priority;
use crate::types::Relay;
use crate::types::RelayType;
use crate::types::closed;
use crate::types::opened;
use crate::types::{MeshType, NodeState};
use vstd::prelude::*;
use vstd::string::StringExecFns;

verus! {

/// One metadata record of the startup feature report, for relay `i`.
pub open spec fn spec_relay_info(i: int, r: Relay) -> RelayInfo {
    RelayInfo {
        index: i as u32,
        id: r.id,
        name: r.name,
        relay_type: r.relay_type.spec_wire_code(),
        priority: r.priority.spec_rank() as i32,
        amperage: r.amperage,
        is_closed: r.is_closed,
    }
}

/// The whole inventory's feature-report metadata, in construction order.
pub open spec fn spec_relay_infos(rs: Seq<Relay>) -> Seq<RelayInfo> {
    rs.map(|i: int, r: Relay| spec_relay_info(i, r))
}

/// Mesh kind as announced in the feature report.
pub open spec fn spec_mesh_label(m: MeshType) -> Seq<char> {
    if m == MeshType::AdHoc {
        "AdHoc"@
    } else {
        "GovernmentSanctioned"@
    }
}

/// A grid-edge node: its identity, operating state, relay inventory, pin
/// map, and the handles to the orchestrator link and the relay hardware.
/// Either handle may be absent; the node then degrades to logical state
/// changes only.
pub struct EdgeNode<D: RelayControl, C: CommunicationLayer> {
    pub id: String,
    pub state: NodeState,
    pub mesh_type: MeshType,
    /// Battery state of charge, 0 to 100.
    pub battery_soc_percent: u8,
    pub relays: Vec<Relay>,
    /// Relay id to GPIO pin; a relay without an entry exists logically but
    /// is never physically actuated.
    pub relay_pins: Vec<RelayPin>,
    pub client: Option<OrchestratorClient<C>>,
    pub relay_driver: Option<D>,
    /// Reference feed voltage in decivolts; also the fallback reading.
    pub voltage_ref_decivolts: u32,
    /// Last voltage reading, for alerts.
    pub last_voltage_decivolts: u32,
}

impl<D: RelayControl, C: CommunicationLayer> EdgeNode<D, C> {
    /// Messages this node has handed to its transport; empty without a link.
    pub open spec fn sent(&self) -> Seq<NeighborhoodMessage> {
        match self.client {
            Some(c) => c.sent(),
            None => Seq::empty(),
        }
    }

    /// Messages arrived on the link and not yet polled.
    pub open spec fn inbox(&self) -> Seq<NeighborhoodMessage> {
        match self.client {
            Some(c) => c.inbox(),
            None => Seq::empty(),
        }
    }

    /// Everything a relay-policy operation leaves alone: identity,
    /// configuration, the orchestrator link, and the voltage bookkeeping.
    pub open spec fn policy_frame(pre: Self, post: Self) -> bool {
        &&& post.id == pre.id
        &&& post.mesh_type == pre.mesh_type
        &&& post.battery_soc_percent == pre.battery_soc_percent
        &&& post.relay_pins == pre.relay_pins
        &&& post.client == pre.client
        &&& post.voltage_ref_decivolts == pre.voltage_ref_decivolts
        &&& post.last_voltage_decivolts == pre.last_voltage_decivolts
    }

    /// The voltage a sensing tick works with: the measured value, or the
    /// reference voltage when the sensor gave none.
    pub open spec fn spec_effective_voltage(self, measured: Option<u32>) -> u32 {
        match measured {
            Some(v) => v,
            None => self.voltage_ref_decivolts,
        }
    }

    pub fn new(
        id: &str,
        relays: Vec<Relay>,
        relay_pins: Vec<RelayPin>,
        client: Option<OrchestratorClient<C>>,
        relay_driver: Option<D>,
        voltage_ref_decivolts: u32,
        mesh_type: MeshType,
    ) -> (n: Self)
        ensures
            n.id@ == id@,
            n.state == NodeState::Normal,
            n.mesh_type == mesh_type,
            n.battery_soc_percent == 100,
            n.relays == relays,
            n.relay_pins == relay_pins,
            n.client == client,
            n.relay_driver == relay_driver,
            n.voltage_ref_decivolts == voltage_ref_decivolts,
            n.last_voltage_decivolts == voltage_ref_decivolts,
    {
        Self {
            id: String::from_str(id),
            state: NodeState::Normal,
            mesh_type,
            battery_soc_percent: 100,
            relays,
            relay_pins,
            client,
            relay_driver,
            voltage_ref_decivolts,
            last_voltage_decivolts: voltage_ref_decivolts,
        }
    }

    /// Pushes one relay's logical state to the hardware, when the relay has
    /// a mapped pin and a driver is attached.  A hardware fault does not
    /// roll back the logical state, which stays authoritative.
    fn set_physical_relay(&mut self, relay_id: &String, closed: bool)
        ensures
            Self::policy_frame(*old(self), *final (self)),
            final (self).relays == old(self).relays,
            final (self).state == old(self).state,
    {
        let mut pin_found: Option<u8> = None;
        let n = self.relay_pins.len();
        let mut i: usize = 0;
        while i < n
            invariant
                i <= n,
                n == self.relay_pins.len(),
            decreases n - i,
        {
            if pin_found.is_none() && self.relay_pins[i].relay_id == *relay_id {
                pin_found = Some(self.relay_pins[i].gpio_pin);
            }
            i = i + 1;
        }
        if let Some(pin) = pin_found {
            if let Some(driver) = &mut self.relay_driver {
                // A fault here is a degraded mode, not a failure of the node.
                let _ = driver.set_relay(pin, closed);
            }
        }
    }

    /// Opens every load relay at or below the threshold tier and pushes the
    /// change to hardware.  Relays already open are untouched.
    pub fn shed_load(&mut self, priority_threshold: Priority)
        ensures
            Self::policy_frame(*old(self), *final (self)),
            final (self).state == old(self).state,
            final (self).relays@ == shed_load_relays(old(self).relays@, priority_threshold),
    {
        let threshold_rank = priority_threshold.rank();
        let n = self.relays.len();
        let mut i: usize = 0;
        while i < n
            invariant
                i <= n,
                n == self.relays.len(),
                threshold_rank == priority_threshold.spec_rank(),
                Self::policy_frame(*old(self), *self),
                self.state == old(self).state,
                forall|j: int|
                    0 <= j < i ==> self.relays@[j] == shed_one(
                        old(self).relays@[j],
                        priority_threshold,
                    ),
                forall|j: int| i <= j < n ==> self.relays@[j] == old(self).relays@[j],
            decreases n - i,
        {
            let affected = self.relays[i].relay_type == RelayType::Load
                && self.relays[i].priority.rank() >= threshold_rank && self.relays[i].is_closed;
            if affected {
                self.relays[i].is_closed = false;
                let relay_id = self.relays[i].id.clone();
                self.set_physical_relay(&relay_id, false);
            }
            i = i + 1;
        }
        proof {
            assert(self.relays@ =~= shed_load_relays(old(self).relays@, priority_threshold));
        }
    }

    /// Opens every load relay regardless of priority; total load is
    /// re-admitted deliberately during recovery.
    pub fn shed_all_loads(&mut self)
        ensures
            Self::policy_frame(*old(self), *final (self)),
            final (self).state == old(self).state,
            final (self).relays@ == shed_all_load_relays(old(self).relays@),
    {
        let n = self.relays.len();
        let mut i: usize = 0;
        while i < n
            invariant
                i <= n,
                n == self.relays.len(),
                Self::policy_frame(*old(self), *self),
                self.state == old(self).state,
                forall|j: int|
                    0 <= j < i ==> self.relays@[j] == (if old(self).relays@[j].relay_type
                        == RelayType::Load {
                        opened(old(self).relays@[j])
                    } else {
                        old(self).relays@[j]
                    }),
                forall|j: int| i <= j < n ==> self.relays@[j] == old(self).relays@[j],
            decreases n - i,
        {
            if self.relays[i].relay_type == RelayType::Load && self.relays[i].is_closed {
                self.relays[i].is_closed = false;
                let relay_id = self.relays[i].id.clone();
                self.set_physical_relay(&relay_id, false);
            }
            i = i + 1;
        }
        proof {
            assert(self.relays@ =~= shed_all_load_relays(old(self).relays@));
        }
    }

    /// Opens every grid relay.  Invoked only under an ad-hoc mesh; under a
    /// government-sanctioned mesh external equipment isolates instead.
    pub fn disconnect_grid(&mut self)
        ensures
            Self::policy_frame(*old(self), *final (self)),
            final (self).state == old(self).state,
            final (self).relays@ == open_grid_relays(old(self).relays@),
    {
        let n = self.relays.len();
        let mut i: usize = 0;
        while i < n
            invariant
                i <= n,
                n == self.relays.len(),
                Self::policy_frame(*old(self), *self),
                self.state == old(self).state,
                forall|j: int|
                    0 <= j < i ==> self.relays@[j] == (if old(self).relays@[j].relay_type
                        == RelayType::Grid {
                        opened(old(self).relays@[j])
                    } else {
                        old(self).relays@[j]
                    }),
                forall|j: int| i <= j < n ==> self.relays@[j] == old(self).relays@[j],
            decreases n - i,
        {
            if self.relays[i].relay_type == RelayType::Grid {
                self.relays[i].is_closed = false;
                let relay_id = self.relays[i].id.clone();
                self.set_physical_relay(&relay_id, false);
            }
            i = i + 1;
        }
        proof {
            assert(self.relays@ =~= open_grid_relays(old(self).relays@));
        }
    }

    /// Enters island mode: sheds all loads, and disconnects the grid locally
    /// only under an ad-hoc mesh.  Reachable from every state.
    pub fn enter_island_mode(&mut self)
        ensures
            Self::policy_frame(*old(self), *final (self)),
            final (self).state == NodeState::Islanded,
            final (self).relays@ == islanded_relays(old(self).relays@, old(self).mesh_type),
    {
        self.state = NodeState::Islanded;
        self.shed_all_loads();
        match self.mesh_type {
            MeshType::AdHoc => {
                self.disconnect_grid();
            },
            MeshType::GovernmentSanctioned => {
                // The isolation device at the transformer opens the grid
                // connection; closing our own grid relay state would fight it.
            },
        }
    }

    /// Enters black-start recovery.  Loads are already shed from the island
    /// transition, so no relay is touched; relays are re-engaged one at a
    /// time on external command.
    pub fn enter_blackstart_mode(&mut self)
        ensures
            Self::policy_frame(*old(self), *final (self)),
            final (self).state == NodeState::BlackStart,
            final (self).relays == old(self).relays,
            final (self).relay_driver == old(self).relay_driver,
    {
        self.state = NodeState::BlackStart;
    }

    /// Closes every open relay of exactly the given priority tier and pushes
    /// the change to hardware.
    pub fn activate_relays_by_priority(&mut self, priority: Priority)
        ensures
            Self::policy_frame(*old(self), *final (self)),
            final (self).state == old(self).state,
            final (self).relays@ == activate_priority_relays(old(self).relays@, priority),
    {
        let n = self.relays.len();
        let mut i: usize = 0;
        while i < n
            invariant
                i <= n,
                n == self.relays.len(),
                Self::policy_frame(*old(self), *self),
                self.state == old(self).state,
                forall|j: int|
                    0 <= j < i ==> self.relays@[j] == (if old(self).relays@[j].priority == priority {
                        closed(old(self).relays@[j])
                    } else {
                        old(self).relays@[j]
                    }),
                forall|j: int| i <= j < n ==> self.relays@[j] == old(self).relays@[j],
            decreases n - i,
        {
            if self.relays[i].priority == priority && !self.relays[i].is_closed {
                self.relays[i].is_closed = true;
                let relay_id = self.relays[i].id.clone();
                self.set_physical_relay(&relay_id, true);
            }
            i = i + 1;
        }
        proof {
            assert(self.relays@ =~= activate_priority_relays(old(self).relays@, priority));
        }
    }

    /// Closes exactly the relay at the given inventory position and pushes
    /// the change to hardware.  An out-of-range index is a no-op warning,
    /// never a crash.
    pub fn activate_relay_by_index(&mut self, index: usize)
        ensures
            Self::policy_frame(*old(self), *final (self)),
            final (self).state == old(self).state,
            final (self).relays@ == activate_index_relays(old(self).relays@, index as int),
            index >= old(self).relays@.len() ==> final (self).relay_driver == old(self).relay_driver,
    {
        if index < self.relays.len() {
            self.relays[index].is_closed = true;
            let relay_id = self.relays[index].id.clone();
            self.set_physical_relay(&relay_id, true);
            proof {
                assert(self.relays@ =~= activate_index_relays(old(self).relays@, index as int));
            }
        }
    }

    /// Sensing tick: records the reading (or the reference voltage when the
    /// sensor gave none) and, on the first low reading of an episode, sends
    /// one voltage alert and moves to `AlertSent`.  While the node stays in
    /// `AlertSent`, repeated low readings send nothing further.
    pub fn check_voltage(&mut self, measured_decivolts: Option<u32>, timestamp: i64) -> (alerted: bool)
        ensures
            alerted == alert_due(old(self).state, old(self).spec_effective_voltage(measured_decivolts)),
            final (self).id == old(self).id,
            final (self).mesh_type == old(self).mesh_type,
            final (self).battery_soc_percent == old(self).battery_soc_percent,
            final (self).relays == old(self).relays,
            final (self).relay_pins == old(self).relay_pins,
            final (self).relay_driver == old(self).relay_driver,
            final (self).voltage_ref_decivolts == old(self).voltage_ref_decivolts,
            final (self).last_voltage_decivolts == old(self).spec_effective_voltage(
                measured_decivolts,
            ),
            final (self).state == state_after_voltage(
                old(self).state,
                old(self).spec_effective_voltage(measured_decivolts),
            ),
            final (self).inbox() == old(self).inbox(),
            !alert_due(old(self).state, old(self).spec_effective_voltage(measured_decivolts))
                ==> final (self).client == old(self).client,
            alert_due(old(self).state, old(self).spec_effective_voltage(measured_decivolts)) ==> (
            final (self).sent() == old(self).sent() || final (self).sent() == old(self).sent().push(
                NeighborhoodMessage::VoltageAlert(
                    VoltageAlert {
                        node_id: old(self).id,
                        voltage_decivolts: old(self).spec_effective_voltage(measured_decivolts),
                        timestamp,
                    },
                ),
            )),
    {
        let voltage = match measured_decivolts {
            Some(v) => v,
            None => self.voltage_ref_decivolts,
        };
        self.last_voltage_decivolts = voltage;
        if voltage < UNDERVOLTAGE_THRESHOLD_DECIVOLTS {
            match self.state {
                NodeState::Normal => {
                    let node_id = self.id.clone();
                    if let Some(client) = &mut self.client {
                        // A transport fault is logged by the caller; the
                        // transition happens regardless.
                        let _ = client.send_voltage_alert(&node_id, voltage, timestamp);
                    }
                    self.state = NodeState::AlertSent;
                    return true;
                },
                _ => {
                    // Alert already sent, or already islanded.
                },
            }
        }
        false
    }

    /// Heartbeat tick: sends liveness telemetry carrying the node id and
    /// battery state of charge.  A transport fault changes no local state.
    pub fn send_heartbeat(&mut self, timestamp: i64) -> (delivered: bool)
        ensures
            final (self).id == old(self).id,
            final (self).state == old(self).state,
            final (self).mesh_type == old(self).mesh_type,
            final (self).battery_soc_percent == old(self).battery_soc_percent,
            final (self).relays == old(self).relays,
            final (self).relay_pins == old(self).relay_pins,
            final (self).relay_driver == old(self).relay_driver,
            final (self).voltage_ref_decivolts == old(self).voltage_ref_decivolts,
            final (self).last_voltage_decivolts == old(self).last_voltage_decivolts,
            final (self).inbox() == old(self).inbox(),
            delivered ==> final (self).sent() == old(self).sent().push(
                NeighborhoodMessage::Heartbeat(
                    Heartbeat {
                        node_id: old(self).id,
                        timestamp,
                        battery_level_percent: old(self).battery_soc_percent,
                    },
                ),
            ),
            !delivered ==> final (self).sent() == old(self).sent(),
    {
        let node_id = self.id.clone();
        let battery = self.battery_soc_percent;
        if let Some(client) = &mut self.client {
            client.send_heartbeat(&node_id, timestamp, battery).is_ok()
        } else {
            false
        }
    }

    /// Startup announcement: sends the feature report describing the relay
    /// inventory and the mesh kind.
    pub fn send_feature_report(&mut self) -> (delivered: bool)
        requires
            old(self).relays@.len() <= u32::MAX,
        ensures
            final (self).id == old(self).id,
            final (self).state == old(self).state,
            final (self).mesh_type == old(self).mesh_type,
            final (self).battery_soc_percent == old(self).battery_soc_percent,
            final (self).relays == old(self).relays,
            final (self).relay_pins == old(self).relay_pins,
            final (self).relay_driver == old(self).relay_driver,
            final (self).voltage_ref_decivolts == old(self).voltage_ref_decivolts,
            final (self).last_voltage_decivolts == old(self).last_voltage_decivolts,
            final (self).inbox() == old(self).inbox(),
            !delivered ==> final (self).sent() == old(self).sent(),
            delivered ==> final (self).sent().len() == old(self).sent().len() + 1 && final (self).sent().drop_last() == old(self).sent() && (final (self).sent().last() matches NeighborhoodMessage::FeatureReport(fr) && fr.node_id == old(self).id && fr.relays@ == spec_relay_infos(old(self).relays@) && fr.mesh_type@
                == spec_mesh_label(old(self).mesh_type)),
    {
        let n = self.relays.len();
        let mut relay_infos: Vec<RelayInfo> = Vec::new();
        let mut i: usize = 0;
        while i < n
            invariant
                i <= n,
                n == self.relays.len(),
                n <= u32::MAX,
                relay_infos@.len() == i as int,
                forall|j: int|
                    0 <= j < i ==> relay_infos@[j] == spec_relay_info(j, self.relays@[j]),
            decreases n - i,
        {
            let r = &self.relays[i];
            relay_infos.push(
                RelayInfo {
                    index: i as u32,
                    id: r.id.clone(),
                    name: r.name.clone(),
                    relay_type: r.relay_type.wire_code(),
                    priority: r.priority.wire_code(),
                    amperage: r.amperage,
                    is_closed: r.is_closed,
                },
            );
            i = i + 1;
        }
        proof {
            assert(relay_infos@ =~= spec_relay_infos(self.relays@));
        }
        let mesh_label = match self.mesh_type {
            MeshType::AdHoc => String::from_str("AdHoc"),
            MeshType::GovernmentSanctioned => String::from_str("GovernmentSanctioned"),
        };
        let node_id = self.id.clone();
        if let Some(client) = &mut self.client {
            client.send_feature_report(&node_id, relay_infos, mesh_label).is_ok()
        } else {
            false
        }
    }

    /// Command poll: takes at most one arrived message from the link and
    /// decodes it; telemetry payloads are consumed and ignored, and a
    /// transport fault yields nothing.
    pub fn poll_for_command(&mut self) -> (r: Option<IncomingCommand>)
        ensures
            final (self).id == old(self).id,
            final (self).state == old(self).state,
            final (self).mesh_type == old(self).mesh_type,
            final (self).battery_soc_percent == old(self).battery_soc_percent,
            final (self).relays == old(self).relays,
            final (self).relay_pins == old(self).relay_pins,
            final (self).relay_driver == old(self).relay_driver,
            final (self).voltage_ref_decivolts == old(self).voltage_ref_decivolts,
            final (self).last_voltage_decivolts == old(self).last_voltage_decivolts,
            final (self).sent() == old(self).sent(),
            r matches Some(cmd) ==> old(self).inbox().len() > 0 && Some(cmd)
                == spec_command_of_message(old(self).inbox()[0]) && final (self).inbox() == old(self).inbox().drop_first(),
            r is None ==> final (self).inbox() == old(self).inbox() || (old(self).inbox().len() > 0
                && spec_command_of_message(old(self).inbox()[0]) is None && final (self).inbox()
                == old(self).inbox().drop_first()),
    {
        match &mut self.client {
            Some(client) => match client.receive() {
                Ok(Some(cmd)) => Some(cmd),
                _ => None,
            },
            None => None,
        }
    }

    /// Dispatches one inbound command.  A command addressed to another node
    /// is silently dropped and changes nothing.
    pub fn handle_command(&mut self, cmd: IncomingCommand)
        ensures
            Self::policy_frame(*old(self), *final (self)),
            cmd.spec_target() != old(self).id@ ==> final (self).relays == old(self).relays && final (self).state == old(self).state && final (self).relay_driver == old(self).relay_driver,
            cmd.spec_target() == old(self).id@ ==> match cmd {
                IncomingCommand::LoadShed(ls) => {
                    &&& final (self).state == old(self).state
                    &&& ls.shed_load ==> final (self).relays@ == shed_load_relays(
                        old(self).relays@,
                        Priority::Medium,
                    )
                    &&& !ls.shed_load ==> final (self).relays == old(self).relays
                },
                IncomingCommand::EnterIsland(_) => final (self).state == NodeState::Islanded
                    && final (self).relays@ == islanded_relays(
                    old(self).relays@,
                    old(self).mesh_type,
                ),
                IncomingCommand::EnterBlackStart(_) => final (self).state == NodeState::BlackStart
                    && final (self).relays == old(self).relays,
                IncomingCommand::ActivateRelayByIndex(ar) => final (self).state == old(self).state
                    && final (self).relays@ == activate_index_relays(
                    old(self).relays@,
                    ar.relay_index as int,
                ),
                IncomingCommand::ActivateRelayByPriority(arp) => final (self).state == old(self).state && final (self).relays@ == activate_priority_relays(
                    old(self).relays@,
                    Priority::spec_from_wire(arp.priority),
                ),
            },
    {
        match cmd {
            IncomingCommand::LoadShed(ls) => self.handle_load_shed_command(ls),
            IncomingCommand::EnterIsland(ei) => self.handle_enter_island_command(ei),
            IncomingCommand::EnterBlackStart(ebs) => self.handle_enter_blackstart_command(ebs),
            IncomingCommand::ActivateRelayByIndex(ar) => self.handle_activate_relay_by_index(ar),
            IncomingCommand::ActivateRelayByPriority(arp) => self.handle_activate_relay_by_priority(
                arp,
            ),
        }
    }

    /// Sheds the medium and low tiers on a targeted shed command; the
    /// restore direction is accepted and deliberately a no-op.
    pub fn handle_load_shed_command(&mut self, cmd: LoadShed)
        ensures
            Self::policy_frame(*old(self), *final (self)),
            final (self).state == old(self).state,
            cmd.target_node_id@ == old(self).id@ && cmd.shed_load ==> final (self).relays@
                == shed_load_relays(old(self).relays@, Priority::Medium),
            !(cmd.target_node_id@ == old(self).id@ && cmd.shed_load) ==> final (self).relays == old(self).relays && final (self).relay_driver == old(self).relay_driver,
    {
        if cmd.target_node_id == self.id {
            if cmd.shed_load {
                self.shed_load(Priority::Medium);
            }
            // Load restore is not implemented; accepting it must stay safe.
        }
    }

    /// Enters island mode on a targeted command, from any state.
    pub fn handle_enter_island_command(&mut self, cmd: EnterIsland)
        ensures
            Self::policy_frame(*old(self), *final (self)),
            cmd.target_node_id@ == old(self).id@ ==> final (self).state == NodeState::Islanded
                && final (self).relays@ == islanded_relays(old(self).relays@, old(self).mesh_type),
            cmd.target_node_id@ != old(self).id@ ==> final (self).state == old(self).state && final (self).relays == old(self).relays && final (self).relay_driver == old(self).relay_driver,
    {
        if cmd.target_node_id == self.id {
            self.enter_island_mode();
        }
    }

    /// Enters black-start recovery on a targeted command; no relay moves.
    pub fn handle_enter_blackstart_command(&mut self, cmd: EnterBlackStart)
        ensures
            Self::policy_frame(*old(self), *final (self)),
            final (self).relays == old(self).relays,
            final (self).relay_driver == old(self).relay_driver,
            cmd.target_node_id@ == old(self).id@ ==> final (self).state == NodeState::BlackStart,
            cmd.target_node_id@ != old(self).id@ ==> final (self).state == old(self).state,
    {
        if cmd.target_node_id == self.id {
            self.enter_blackstart_mode();
        }
    }

    /// Closes one relay by inventory position on a targeted command.
    pub fn handle_activate_relay_by_index(&mut self, cmd: ActivateRelayByIndex)
        ensures
            Self::policy_frame(*old(self), *final (self)),
            final (self).state == old(self).state,
            cmd.target_node_id@ == old(self).id@ ==> final (self).relays@ == activate_index_relays(
                old(self).relays@,
                cmd.relay_index as int,
            ),
            cmd.target_node_id@ != old(self).id@ ==> final (self).relays == old(self).relays
                && final (self).relay_driver == old(self).relay_driver,
    {
        if cmd.target_node_id == self.id {
            self.activate_relay_by_index(cmd.relay_index as usize);
        }
    }

    /// Closes one priority tier on a targeted command, mapping the wire
    /// priority code first; unrecognized codes fall to the lowest tier.
    pub fn handle_activate_relay_by_priority(&mut self, cmd: ActivateRelayByPriority)
        ensures
            Self::policy_frame(*old(self), *final (self)),
            final (self).state == old(self).state,
            cmd.target_node_id@ == old(self).id@ ==> final (self).relays@
                == activate_priority_relays(
                old(self).relays@,
                Priority::spec_from_wire(cmd.priority),
            ),
            cmd.target_node_id@ != old(self).id@ ==> final (self).relays == old(self).relays
                && final (self).relay_driver == old(self).relay_driver,
    {
        if cmd.target_node_id == self.id {
            let priority = Priority::from_wire(cmd.priority);
            self.activate_relays_by_priority(priority);
        }
    }
}

} // verus!
