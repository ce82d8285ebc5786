//! Core data model: node operating states, mesh kinds, relay kinds and
//! priorities, and the relay record itself.
//!
//! Voltages are carried in decivolts (tenths of a volt) and rated amperage in
//! whole amps, so that the model stays in integers.

use vstd::prelude::*;

verus! {

/// Operating mode of the node.  `Normal` is the initial state; there is no
/// transition back to `Normal` once an alert or an islanding has happened.
#[derive(Debug, Clone, Copy, PartialEq, Eq, Structural)]
pub enum NodeState {
    Normal,
    /// An under-voltage alert has been sent; the node waits for the
    /// orchestrator's response.
    AlertSent,
    Islanded,
    BlackStart,
}

/// Governs whether islanding also opens the grid relay locally, or defers
/// isolation to external interconnection equipment.
#[derive(Debug, Clone, Copy, PartialEq, Eq, Structural)]
pub enum MeshType {
    /// The node itself disconnects from the utility grid when islanding.
    AdHoc,
    /// External metering equipment handles isolation; the node must leave
    /// its grid relay alone.
    GovernmentSanctioned,
}

impl Default for MeshType {
    fn default() -> (r: Self)
        ensures
            r == MeshType::AdHoc,
    {
        MeshType::AdHoc
    }
}

/// Kind of circuit a relay controls.
#[derive(Debug, Clone, Copy, PartialEq, Eq, Structural)]
pub enum RelayType {
    /// Battery, solar, EV.
    Source,
    /// Appliances, HVAC.
    Load,
    /// Main grid connection.
    Grid,
}

/// Shedding priority of a relay.  `Critical` is the most protected tier and
/// ranks smallest; `Low` is shed first.
#[derive(Debug, Clone, Copy, PartialEq, Eq, Structural)]
pub enum Priority {
    Critical,
    High,
    Medium,
    Low,
}

impl RelayType {
    /// Numeric code used in feature reports on the wire.
    pub open spec fn spec_wire_code(self) -> i32 {
        match self {
            RelayType::Source => 0,
            RelayType::Load => 1,
            RelayType::Grid => 2,
        }
    }

    pub fn wire_code(&self) -> (c: i32)
        ensures
            c == self.spec_wire_code(),
    {
        match self {
            RelayType::Source => 0,
            RelayType::Load => 1,
            RelayType::Grid => 2,
        }
    }
}

impl Priority {
    /// Position in the total order `Critical < High < Medium < Low`.
    pub open spec fn spec_rank(self) -> int {
        match self {
            Priority::Critical => 0,
            Priority::High => 1,
            Priority::Medium => 2,
            Priority::Low => 3,
        }
    }

    pub fn rank(&self) -> (r: u8)
        ensures
            r == self.spec_rank(),
    {
        match self {
            Priority::Critical => 0,
            Priority::High => 1,
            Priority::Medium => 2,
            Priority::Low => 3,
        }
    }

    /// Numeric code used in wire messages; coincides with the rank.
    pub fn wire_code(&self) -> (c: i32)
        ensures
            c == self.spec_rank(),
    {
        match self {
            Priority::Critical => 0,
            Priority::High => 1,
            Priority::Medium => 2,
            Priority::Low => 3,
        }
    }

    /// Maps a wire priority code to a priority.  Unrecognized codes map to
    /// `Low`, the least privileged tier, as a safe default.
    pub open spec fn spec_from_wire(code: i32) -> Priority {
        if code == 0 {
            Priority::Critical
        } else if code == 1 {
            Priority::High
        } else if code == 2 {
            Priority::Medium
        } else {
            Priority::Low
        }
    }

    pub fn from_wire(code: i32) -> (p: Priority)
        ensures
            p == Priority::spec_from_wire(code),
    {
        if code == 0 {
            Priority::Critical
        } else if code == 1 {
            Priority::High
        } else if code == 2 {
            Priority::Medium
        } else {
            Priority::Low
        }
    }
}

/// A controllable circuit.  `id` is the stable join key to the hardware pin
/// map; `is_closed` means the circuit is engaged.  Rated amperage is
/// informational and carried in whole amps.
#[derive(Debug, Clone)]
pub struct Relay {
    pub id: String,
    pub name: String,
    pub relay_type: RelayType,
    pub priority: Priority,
    pub amperage: u32,
    pub is_closed: bool,
}

/// The same relay with its circuit open.
pub open spec fn opened(r: Relay) -> Relay {
    Relay {
        id: r.id,
        name: r.name,
        relay_type: r.relay_type,
        priority: r.priority,
        amperage: r.amperage,
        is_closed: false,
    }
}

/// The same relay with its circuit engaged.
pub open spec fn closed(r: Relay) -> Relay {
    Relay {
        id: r.id,
        name: r.name,
        relay_type: r.relay_type,
        priority: r.priority,
        amperage: r.amperage,
        is_closed: true,
    }
}

} // verus!
