//! The policy engine's mathematical model: what each mutation of the relay
//! inventory and of the node state does, as functions on sequences and
//! states.  The executable methods on the node promise exactly these
//! functions, and the laws module proves the engine's properties from them.

use crate::types::Priority;
use crate::types::Relay;
use crate::types::RelayType;
use crate::types::{closed, opened};
use crate::types::{MeshType, NodeState};
use vstd::prelude::*;

verus! {

/// Under-voltage threshold in decivolts; readings below it raise an alert.
pub const UNDERVOLTAGE_THRESHOLD_DECIVOLTS: u32 = 1100;

/// Load shedding of one relay: a load relay at or below the threshold tier
/// (`Critical < High < Medium < Low`; greater rank = shed sooner) is opened,
/// every other relay is untouched.
pub open spec fn shed_one(r: Relay, threshold: Priority) -> Relay {
    if r.relay_type == RelayType::Load && r.priority.spec_rank() >= threshold.spec_rank() {
        opened(r)
    } else {
        r
    }
}

/// `shed_load(threshold)` on the whole inventory.
pub open spec fn shed_load_relays(rs: Seq<Relay>, threshold: Priority) -> Seq<Relay> {
    rs.map_values(|r: Relay| shed_one(r, threshold))
}

/// `shed_all_loads()`: every load relay open, regardless of priority.
pub open spec fn shed_all_load_relays(rs: Seq<Relay>) -> Seq<Relay> {
    rs.map_values(
        |r: Relay|
            if r.relay_type == RelayType::Load {
                opened(r)
            } else {
                r
            },
    )
}

/// `disconnect_grid()`: every grid relay open.
pub open spec fn open_grid_relays(rs: Seq<Relay>) -> Seq<Relay> {
    rs.map_values(
        |r: Relay|
            if r.relay_type == RelayType::Grid {
                opened(r)
            } else {
                r
            },
    )
}

/// Islanding: all loads are shed; the grid is disconnected locally only
/// under an ad-hoc mesh — under a government-sanctioned mesh external
/// equipment isolates, and the node must not fight it.
pub open spec fn islanded_relays(rs: Seq<Relay>, mesh: MeshType) -> Seq<Relay> {
    if mesh == MeshType::AdHoc {
        open_grid_relays(shed_all_load_relays(rs))
    } else {
        shed_all_load_relays(rs)
    }
}

/// Black-start re-admission of one tier: every relay of exactly that
/// priority is closed, every other relay is untouched.
pub open spec fn activate_one(r: Relay, priority: Priority) -> Relay {
    if r.priority == priority {
        closed(r)
    } else {
        r
    }
}

/// `activate_relays_by_priority(priority)` on the whole inventory.
pub open spec fn activate_priority_relays(rs: Seq<Relay>, priority: Priority) -> Seq<Relay> {
    rs.map_values(|r: Relay| activate_one(r, priority))
}

/// `activate_relay_by_index(i)`: closes exactly relay `i`; an out-of-range
/// index is a no-op.
pub open spec fn activate_index_relays(rs: Seq<Relay>, i: int) -> Seq<Relay> {
    if 0 <= i < rs.len() {
        rs.update(i, closed(rs[i]))
    } else {
        rs
    }
}

/// A reading below the under-voltage threshold.
pub open spec fn voltage_low(v_decivolts: u32) -> bool {
    v_decivolts < UNDERVOLTAGE_THRESHOLD_DECIVOLTS
}

/// An alert is emitted only on the first low reading of an episode: when
/// the node is still in `Normal`.
pub open spec fn alert_due(state: NodeState, v_decivolts: u32) -> bool {
    voltage_low(v_decivolts) && state == NodeState::Normal
}

/// The state machine's reaction to a voltage reading.
pub open spec fn state_after_voltage(state: NodeState, v_decivolts: u32) -> NodeState {
    if alert_due(state, v_decivolts) {
        NodeState::AlertSent
    } else {
        state
    }
}

} // verus!
