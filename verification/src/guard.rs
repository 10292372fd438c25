//! The execution-state guard: owner of the installed power request for the
//! lifetime of the active session. It combines the continuous marker into
//! every installation and guarantees that the idle-permitting baseline is
//! reinstalled exactly once when the session ends, however control leaves it.
//!
//! The platform call itself ("atomically replace the thread's request bitmask
//! with a new value, return the previous value") cannot live in the library:
//! the driver outside performs it with the bitmasks computed here and hands
//! the reported previous state back as a plain value. `platform_install` is
//! that call's documented behaviour, and `PlatformModel` an in-memory state
//! obeying it, so the whole lifecycle can be driven and observed in tests.

use crate::state::{installable, PowerState, CONTINUOUS, USER_PRESENT};
use vstd::prelude::*;

verus! {

/// One release attempt, as a transition on the guard's activity: an active
/// guard becomes released and issues the baseline restoration command; a
/// released guard stays released and issues nothing.
pub open spec fn release_step(active: bool) -> (bool, Option<u32>) {
    if active {
        (false, Some(CONTINUOUS))
    } else {
        (false, None)
    }
}

/// The bitmask carried by a release command, if one was issued.
pub open spec fn command_bits(cmd: Option<PowerState>) -> Option<u32> {
    match cmd {
        Some(c) => Some(c.bits()),
        None => None,
    }
}

/// The platform operation as documented: installing `requested` atomically
/// replaces the current request bitmask and reports the previous one.
pub open spec fn platform_install(current: u32, requested: u32) -> (u32, u32) {
    (requested, current)
}

/// The scoped owner of the installed power request. Two states: active
/// (release pending) and released (terminal); the transition fires once.
pub struct Guard {
    baseline: PowerState,
    released: bool,
}

impl Guard {
    /// Whether the release transition is still pending.
    pub closed spec fn is_active(self) -> bool {
        !self.released
    }

    /// The bitmask reinstalled on release.
    pub closed spec fn baseline_bits(self) -> u32 {
        self.baseline.bits()
    }

    /// A well-formed guard restores exactly the continuous baseline.
    pub open spec fn wf(self) -> bool {
        self.baseline_bits() == CONTINUOUS
    }

    /// Create a guard holding the baseline placeholder. Pure in-memory
    /// construction: it always succeeds and touches no platform state, so the
    /// caller can capture and display the previous state that the separate
    /// installation step reports.
    pub fn create() -> (g: Guard)
        ensures
            g.is_active(),
            g.wf(),
    {
        Guard { baseline: PowerState::continuous(), released: false }
    }

    /// The bitmask actually handed to the platform when `requested` is to be
    /// installed: the continuous marker is combined into every installation.
    /// Calling this with a request that lacks the continuous marker, or that
    /// carries the bit the platform rejects, is a contract violation.
    pub fn install_command(&self, requested: PowerState) -> (cmd: PowerState)
        requires
            self.is_active(),
            self.wf(),
            requested.has(CONTINUOUS),
            !requested.has(USER_PRESENT),
        ensures
            cmd.bits() == CONTINUOUS | requested.bits(),
            cmd.bits() == requested.bits(),
            installable(cmd.bits()),
    {
        proof {
            let b = requested.bits();
            assert(b & 0x8000_0000u32 != 0 ==> (0x8000_0000u32 | b) == b) by (bit_vector);
            assert((0x8000_0000u32 | b) & 0x8000_0000u32 != 0) by (bit_vector);
            assert(b & 0x4u32 == 0 ==> (0x8000_0000u32 | b) & 0x4u32 == 0) by (bit_vector);
        }
        self.baseline.union(requested)
    }

    /// Whether the release transition has already fired.
    pub fn is_released(&self) -> (b: bool)
        ensures
            b == !self.is_active(),
    {
        self.released
    }

    /// Release the guard: the first call on an active guard returns the
    /// baseline command to install; any later call changes nothing and
    /// returns no command. Never panics, whichever state it finds.
    pub fn release(&mut self) -> (cmd: Option<PowerState>)
        requires
            old(self).wf(),
        ensures
            final(self).wf(),
            !final(self).is_active(),
            final(self).is_active() == release_step(old(self).is_active()).0,
            command_bits(cmd) == release_step(old(self).is_active()).1,
            old(self).is_active() ==> (cmd matches Some(c) && c.bits() == CONTINUOUS),
            !old(self).is_active() ==> cmd is None && *final(self) == *old(self),
    {
        if self.released {
            None
        } else {
            self.released = true;
            Some(self.baseline)
        }
    }
}

/// Exactly-once release: starting from an active guard, the first release
/// attempt issues the baseline restoration command and deactivates the guard;
/// a second attempt, which finds the guard inactive, issues nothing and
/// leaves it inactive.
pub proof fn lemma_release_exactly_once(active: bool)
    requires
        active,
    ensures
        release_step(active).1 == Some(CONTINUOUS),
        !release_step(active).0,
        release_step(release_step(active).0).1 is None,
        !release_step(release_step(active).0).0,
{
}

/// Idempotence of restoration: installing the baseline twice in sequence
/// leaves the observable platform state unchanged after the second call, and
/// the second call reports the baseline itself as the previous state.
pub proof fn lemma_baseline_idempotent(current: u32)
    ensures
        platform_install(platform_install(current, CONTINUOUS).0, CONTINUOUS).0
            == platform_install(current, CONTINUOUS).0,
        platform_install(platform_install(current, CONTINUOUS).0, CONTINUOUS).1 == CONTINUOUS,
{
}

/// An in-memory thread execution state obeying `platform_install`, with a
/// counter of installations as the observation hook that the exactly-once
/// guarantee is checked against. The driver outside the library performs the
/// real call the same way: install, remember nothing, report the previous
/// value.
pub struct PlatformModel {
    current: PowerState,
    installs: u64,
}

impl PlatformModel {
    /// The current request bitmask.
    pub closed spec fn current_bits(self) -> u32 {
        self.current.bits()
    }

    /// How many installations have been performed.
    pub closed spec fn install_count(self) -> u64 {
        self.installs
    }

    /// A fresh platform state: baseline installed, nothing recorded.
    pub fn new() -> (p: PlatformModel)
        ensures
            p.current_bits() == CONTINUOUS,
            p.install_count() == 0,
    {
        PlatformModel { current: PowerState::continuous(), installs: 0 }
    }

    /// Atomically replace the current request bitmask with `requested` and
    /// report the previous one, counting the installation.
    pub fn install(&mut self, requested: PowerState) -> (prev: PowerState)
        requires
            old(self).install_count() < u64::MAX,
        ensures
            final(self).current_bits() == platform_install(
                old(self).current_bits(),
                requested.bits(),
            ).0,
            prev.bits() == platform_install(old(self).current_bits(), requested.bits()).1,
            final(self).install_count() == old(self).install_count() + 1,
    {
        let prev = self.current;
        self.current = requested;
        self.installs = self.installs + 1;
        prev
    }

    /// Read the current state without installing anything.
    pub fn observe(&self) -> (r: PowerState)
        ensures
            r.bits() == self.current_bits(),
    {
        self.current
    }

    /// Read the installation count.
    pub fn installs(&self) -> (n: u64)
        ensures
            n == self.install_count(),
    {
        self.installs
    }
}

} // verus!
