//! Where a node's waypoint comes from.
//!
//! The configuration names a source. Reading a file or secure storage is the
//! caller's work; which of them is to be read, and for what, is decided here.
use vstd::prelude::*;

verus! {

/// The source of the waypoint: the configuration itself, a file, secure
/// storage, or none. `W` is a waypoint, `P` the path of a file and `B` the
/// backend of a secure storage.
#[derive(Clone, Debug, PartialEq, Eq)]
pub enum WaypointConfig<W, P, B> {
    FromConfig(W),
    FromFile(P),
    FromStorage(B),
    /// The configuration names no source.
    Unset,
}

/// The entries of secure storage that hold a waypoint.
#[derive(Clone, Copy, Debug, PartialEq, Eq, Structural)]
pub enum WaypointKey {
    Waypoint,
    GenesisWaypoint,
}

/// What is to be done to have the waypoint.
#[derive(Debug, PartialEq, Eq)]
pub enum WaypointLookup<'a, W, P, B> {
    /// Nothing: this is it.
    Known(W),
    /// Read this file; it holds the waypoint as text.
    ReadFile(&'a P),
    /// Read this entry of this secure storage.
    ReadStorage(&'a B, WaypointKey),
    /// There is no waypoint to be had.
    Missing,
}

impl<W: Copy, P, B> WaypointConfig<W, P, B> {
    /// The waypoint, where the configuration itself holds it.
    pub open spec fn spec_waypoint_from_config(&self) -> Option<W> {
        match *self {
            WaypointConfig::FromConfig(waypoint) => Some(waypoint),
            _ => None,
        }
    }

    /// What is to be done to have the entry `key` of a secure storage source,
    /// or the waypoint of any other source.
    pub open spec fn lookup(&self, key: WaypointKey) -> WaypointLookup<'_, W, P, B> {
        match self {
            WaypointConfig::FromConfig(waypoint) => WaypointLookup::Known(*waypoint),
            WaypointConfig::FromFile(path) => WaypointLookup::ReadFile(path),
            WaypointConfig::FromStorage(backend) => WaypointLookup::ReadStorage(backend, key),
            WaypointConfig::Unset => WaypointLookup::Missing,
        }
    }

    #[verifier::when_used_as_spec(spec_waypoint_from_config)]
    pub fn waypoint_from_config(&self) -> (waypoint: Option<W>)
        ensures
            waypoint == self.spec_waypoint_from_config(),
    {
        if let WaypointConfig::FromConfig(waypoint) = self {
            Some(*waypoint)
        } else {
            None
        }
    }

    /// What is to be done to have the waypoint.
    pub fn waypoint(&self) -> (lookup: WaypointLookup<'_, W, P, B>)
        ensures
            lookup == self.lookup(WaypointKey::Waypoint),
    {
        match self {
            WaypointConfig::FromConfig(waypoint) => WaypointLookup::Known(*waypoint),
            WaypointConfig::FromFile(path) => WaypointLookup::ReadFile(path),
            WaypointConfig::FromStorage(backend) => WaypointLookup::ReadStorage(
                backend,
                WaypointKey::Waypoint,
            ),
            WaypointConfig::Unset => WaypointLookup::Missing,
        }
    }

    /// What is to be done to have the genesis waypoint: it has an entry of its
    /// own in secure storage, and is the waypoint of any other source.
    pub fn genesis_waypoint(&self) -> (lookup: WaypointLookup<'_, W, P, B>)
        ensures
            lookup == self.lookup(WaypointKey::GenesisWaypoint),
    {
        match self {
            WaypointConfig::FromStorage(backend) => WaypointLookup::ReadStorage(
                backend,
                WaypointKey::GenesisWaypoint,
            ),
            _ => self.waypoint(),
        }
    }

    /// The genesis waypoint differs from the waypoint for a source in secure
    /// storage only, and there only in the entry that is read. A waypoint that
    /// the configuration holds is known without any reading.
    pub proof fn lemma_genesis_waypoint_follows_waypoint(&self)
        ensures
            !(self is FromStorage) ==> self.lookup(WaypointKey::GenesisWaypoint) == self.lookup(
                WaypointKey::Waypoint,
            ),
            self.lookup(WaypointKey::Waypoint) is Known <==> self.waypoint_from_config().is_some(),
            self.waypoint_from_config() matches Some(waypoint) ==> self.lookup(
                WaypointKey::Waypoint,
            ) == WaypointLookup::<W, P, B>::Known(waypoint),
            self.lookup(WaypointKey::Waypoint) is Missing <==> self is Unset,
    {
    }
}

} // verus!
