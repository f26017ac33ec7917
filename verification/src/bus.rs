//! D-Bus plumbing values shared by the daemon and its clients.

use vstd::prelude::*;

verus! {

/// D-Bus bus type selection of a client.
#[derive(Debug, Clone, Copy, PartialEq, Eq, Structural)]
pub enum BusType {
    /// Session bus (user session).
    Session,
    /// System bus (system-wide).
    System,
    /// Try session first, fall back to system.
    Auto,
}

impl Default for BusType {
    fn default() -> (b: BusType)
        ensures
            b == BusType::Auto,
    {
        BusType::Auto
    }
}

/// Signals the daemon emits to its clients.
#[derive(Debug, Clone, Copy, PartialEq, Eq, Structural)]
pub enum DaemonSignals {
    /// Orientation was changed.
    OrientationChanged,
    /// LED settings changed.
    LedChanged,
    /// Display settings (colors, background image, etc.) changed.
    DisplaySettingsChanged,
    /// Network interface changed.
    NetworkInterfaceChanged,
}

/// The buses to try, in order: the session bus and then the system bus
/// for `Auto`, else the one bus asked for.
pub open spec fn bus_attempts(b: BusType) -> Seq<BusType> {
    match b {
        BusType::Auto => seq![BusType::Session, BusType::System],
        _ => seq![b],
    }
}

impl BusType {
    /// The buses a client tries to connect to, in order.
    pub fn attempts(&self) -> (v: Vec<BusType>)
        ensures
            v@ == bus_attempts(*self),
    {
        let v = match self {
            BusType::Auto => vec![BusType::Session, BusType::System],
            BusType::Session => vec![BusType::Session],
            BusType::System => vec![BusType::System],
        };
        assert(v@ =~= bus_attempts(*self));
        v
    }
}

} // verus!
