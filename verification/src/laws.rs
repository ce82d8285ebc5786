//! The policy engine's guarantees, proved once and for all over the policy
//! model.  Each law quantifies over every relay inventory; the node's
//! methods promise the corresponding policy function exactly, so these laws
//! carry over to every run of the executable code.

use crate::policy::activate_index_relays;
use crate::policy::activate_priority_relays;
use crate::policy::alert_due;
use crate::policy::islanded_relays;
use crate::policy::shed_load_relays;
use crate::policy::shed_one;
use crate::policy::state_after_voltage;
use crate::policy::voltage_low;
use crate::types::Priority;
use crate::types::Relay;
use crate::types::RelayType;
use crate::types::{MeshType, NodeState};
use crate::types::{closed, opened};
use vstd::prelude::*;

verus! {

/// Load shedding at threshold `t` leaves every relay of a tier more
/// protected than `t` unchanged, opens every load relay at or below the
/// threshold tier, and never touches source or grid relays.
pub proof fn lemma_shed_load_effects(rs: Seq<Relay>, t: Priority)
    ensures
        shed_load_relays(rs, t).len() == rs.len(),
        forall|i: int|
            0 <= i < rs.len() && rs[i].priority.spec_rank() < t.spec_rank() ==> shed_load_relays(
                rs,
                t,
            )[i] == rs[i],
        forall|i: int|
            0 <= i < rs.len() && rs[i].relay_type != RelayType::Load ==> shed_load_relays(rs, t)[i]
                == rs[i],
        forall|i: int|
            0 <= i < rs.len() && rs[i].relay_type == RelayType::Load
                && rs[i].priority.spec_rank() >= t.spec_rank() ==> shed_load_relays(rs, t)[i]
                == opened(rs[i]),
{
    assert forall|i: int| 0 <= i < rs.len() implies #[trigger] shed_load_relays(rs, t)[i]
        == shed_one(rs[i], t) by {}
}

/// Load shedding is idempotent: relays already open are untouched, so a
/// second shed at the same threshold changes nothing.
pub proof fn lemma_shed_load_idempotent(rs: Seq<Relay>, t: Priority)
    ensures
        shed_load_relays(shed_load_relays(rs, t), t) == shed_load_relays(rs, t),
{
    assert(shed_load_relays(shed_load_relays(rs, t), t) =~= shed_load_relays(rs, t));
}

/// Islanding under an ad-hoc mesh ends with every grid relay and every load
/// relay open, whatever the starting states; source relays are untouched.
pub proof fn lemma_island_adhoc_isolates(rs: Seq<Relay>)
    ensures
        islanded_relays(rs, MeshType::AdHoc).len() == rs.len(),
        forall|i: int|
            0 <= i < rs.len() && rs[i].relay_type == RelayType::Grid ==> !islanded_relays(
                rs,
                MeshType::AdHoc,
            )[i].is_closed,
        forall|i: int|
            0 <= i < rs.len() && rs[i].relay_type == RelayType::Load ==> !islanded_relays(
                rs,
                MeshType::AdHoc,
            )[i].is_closed,
        forall|i: int|
            0 <= i < rs.len() && rs[i].relay_type == RelayType::Source ==> islanded_relays(
                rs,
                MeshType::AdHoc,
            )[i] == rs[i],
{
}

/// Islanding under a government-sanctioned mesh leaves every grid relay
/// exactly as it was — external equipment isolates — while still opening
/// every load relay; source relays are untouched.
pub proof fn lemma_island_government_defers(rs: Seq<Relay>)
    ensures
        islanded_relays(rs, MeshType::GovernmentSanctioned).len() == rs.len(),
        forall|i: int|
            0 <= i < rs.len() && rs[i].relay_type == RelayType::Grid ==> islanded_relays(
                rs,
                MeshType::GovernmentSanctioned,
            )[i] == rs[i],
        forall|i: int|
            0 <= i < rs.len() && rs[i].relay_type == RelayType::Load ==> !islanded_relays(
                rs,
                MeshType::GovernmentSanctioned,
            )[i].is_closed,
        forall|i: int|
            0 <= i < rs.len() && rs[i].relay_type == RelayType::Source ==> islanded_relays(
                rs,
                MeshType::GovernmentSanctioned,
            )[i] == rs[i],
{
}

/// Targeted activation by position closes exactly the named relay and
/// leaves every other relay's state unchanged; an out-of-range position
/// changes nothing.
pub proof fn lemma_activate_by_index_exact(rs: Seq<Relay>, i: int)
    ensures
        activate_index_relays(rs, i).len() == rs.len(),
        0 <= i < rs.len() ==> activate_index_relays(rs, i)[i] == closed(rs[i]),
        forall|j: int|
            0 <= j < rs.len() && j != i ==> activate_index_relays(rs, i)[j] == rs[j],
        !(0 <= i < rs.len()) ==> activate_index_relays(rs, i) == rs,
{
}

/// Activation by priority closes every relay of exactly that tier and
/// touches no relay of another tier.
pub proof fn lemma_activate_by_priority_exact(rs: Seq<Relay>, p: Priority)
    ensures
        activate_priority_relays(rs, p).len() == rs.len(),
        forall|i: int|
            0 <= i < rs.len() && rs[i].priority == p ==> activate_priority_relays(rs, p)[i]
                == closed(rs[i]),
        forall|i: int|
            0 <= i < rs.len() && rs[i].priority != p ==> activate_priority_relays(rs, p)[i]
                == rs[i],
{
}

/// A sustained under-voltage episode raises the alert exactly once: the
/// first low reading in `Normal` is due an alert and moves the node to
/// `AlertSent`; every further low reading is due none and leaves the state
/// alone.
pub proof fn lemma_low_voltage_alerts_once(v1: u32, v2: u32)
    requires
        voltage_low(v1),
        voltage_low(v2),
    ensures
        alert_due(NodeState::Normal, v1),
        state_after_voltage(NodeState::Normal, v1) == NodeState::AlertSent,
        !alert_due(state_after_voltage(NodeState::Normal, v1), v2),
        state_after_voltage(state_after_voltage(NodeState::Normal, v1), v2)
            == NodeState::AlertSent,
{
}

/// A voltage at or above the threshold never raises an alert and never
/// moves the state machine.
pub proof fn lemma_healthy_voltage_is_quiet(s: NodeState, v: u32)
    requires
        !voltage_low(v),
    ensures
        !alert_due(s, v),
        state_after_voltage(s, v) == s,
{
}

} // verus!
