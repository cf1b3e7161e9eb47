//! The consensus round's configuration for one session.
use vstd::prelude::*;

use crate::delay::DelayCurve;
use crate::session::SessionId;

verus! {

/// Highest round the consensus of one session runs to.
pub const MAX_ROUND: u16 = 7000;

/// Milliseconds between two ticks of the consensus scheduler.
pub const TICK_INTERVAL_MS: u64 = 100;

/// Milliseconds between two retries of a request.
pub const REQUESTS_INTERVAL_MS: u64 = 3000;

/// The first unit-creation delay, in milliseconds, whatever the curve says,
/// so that a session does not start with a burst of units.
pub const UNIT_CREATION_WARMUP_MS: u64 = 2000;

/// Step at which the unit-creation delay starts growing.
pub const UNIT_CREATION_START_EXP_DELAY: usize = 5000;

/// Growth factor of the unit-creation delay, in thousandths.
pub const UNIT_CREATION_EXP_BASE_PER_MILLE: u64 = 1005;

/// Base delay of unit broadcasts, in milliseconds.
pub const UNIT_BROADCAST_BASE_MS: u64 = 4000;

/// Growth factor of the unit-broadcast delay, in thousandths.
pub const UNIT_BROADCAST_EXP_BASE_PER_MILLE: u64 = 2000;

/// The configured base delay between unit creations, in milliseconds.
#[derive(Clone, Copy, Debug, PartialEq, Eq, Structural)]
pub struct UnitCreationDelay(pub u64);

/// What the consensus round of one session is configured with.
#[derive(Clone, Copy, Debug, PartialEq, Eq)]
pub struct ConsensusConfig {
    pub n_members: usize,
    pub node_id: usize,
    pub session_id: u64,
    pub max_round: u16,
    pub tick_interval_ms: u64,
    pub requests_interval_ms: u64,
    pub unit_creation_first_ms: u64,
    pub unit_creation: DelayCurve,
    pub unit_broadcast: DelayCurve,
}

/// The configuration `create_aleph_config` builds.
pub open spec fn aleph_config(
    n_members: usize,
    node_id: usize,
    session_id: SessionId,
    unit_creation_delay: UnitCreationDelay,
) -> ConsensusConfig {
    ConsensusConfig {
        n_members,
        node_id,
        session_id: session_id.0 as u64,
        max_round: MAX_ROUND,
        tick_interval_ms: TICK_INTERVAL_MS,
        requests_interval_ms: REQUESTS_INTERVAL_MS,
        unit_creation_first_ms: UNIT_CREATION_WARMUP_MS,
        unit_creation: DelayCurve {
            base_delay_ms: unit_creation_delay.0,
            start_exp_delay: UNIT_CREATION_START_EXP_DELAY,
            exp_base_per_mille: UNIT_CREATION_EXP_BASE_PER_MILLE,
        },
        unit_broadcast: DelayCurve {
            base_delay_ms: UNIT_BROADCAST_BASE_MS,
            start_exp_delay: 0,
            exp_base_per_mille: UNIT_BROADCAST_EXP_BASE_PER_MILLE,
        },
    }
}

/// The unit-creation delay at step `t`, as `unit_creation_delay_ms` gives it.
pub open spec fn unit_creation_delay_at(c: ConsensusConfig, t: nat) -> Option<u64> {
    if t == 0 {
        Some(c.unit_creation_first_ms)
    } else {
        c.unit_creation.delay_at(t)
    }
}

/// Builds the consensus configuration of a session with `n_members`
/// authorities in which this node is authority `node_id`.
pub fn create_aleph_config(
    n_members: usize,
    node_id: usize,
    session_id: SessionId,
    unit_creation_delay: UnitCreationDelay,
) -> (r: ConsensusConfig)
    ensures
        r == aleph_config(n_members, node_id, session_id, unit_creation_delay),
{
    ConsensusConfig {
        n_members,
        node_id,
        session_id: session_id.0 as u64,
        max_round: MAX_ROUND,
        tick_interval_ms: TICK_INTERVAL_MS,
        requests_interval_ms: REQUESTS_INTERVAL_MS,
        unit_creation_first_ms: UNIT_CREATION_WARMUP_MS,
        unit_creation: DelayCurve {
            base_delay_ms: unit_creation_delay.0,
            start_exp_delay: UNIT_CREATION_START_EXP_DELAY,
            exp_base_per_mille: UNIT_CREATION_EXP_BASE_PER_MILLE,
        },
        unit_broadcast: DelayCurve {
            base_delay_ms: UNIT_BROADCAST_BASE_MS,
            start_exp_delay: 0,
            exp_base_per_mille: UNIT_BROADCAST_EXP_BASE_PER_MILLE,
        },
    }
}

impl ConsensusConfig {
    /// The unit-creation delay at step `t`, in milliseconds: the warm-up
    /// delay at step zero, the curve's value after it. `None` where the curve
    /// grows by a fractional factor and is computed by the caller.
    pub fn unit_creation_delay_ms(&self, t: usize) -> (r: Option<u64>)
        ensures
            r == unit_creation_delay_at(*self, t as nat),
    {
        if t == 0 {
            Some(self.unit_creation_first_ms)
        } else {
            self.unit_creation.delay_ms(t)
        }
    }

    /// The unit-broadcast delay at step `t`, in milliseconds.
    pub fn unit_broadcast_delay_ms(&self, t: usize) -> (r: Option<u64>)
        ensures
            r == self.unit_broadcast.delay_at(t as nat),
    {
        self.unit_broadcast.delay_ms(t)
    }
}

/// Whatever the members, session and configured base delay, the
/// unit-creation delay of a session's configuration at step zero is the
/// warm-up delay of two seconds.
pub proof fn lemma_first_unit_delay_is_warmup(
    n_members: usize,
    node_id: usize,
    session_id: SessionId,
    unit_creation_delay: UnitCreationDelay,
)
    ensures
        unit_creation_delay_at(aleph_config(n_members, node_id, session_id, unit_creation_delay), 0)
            == Some(2000u64),
{
}

/// The unit-broadcast delay of a session's configuration doubles from four
/// seconds at every step, up to the largest `u64`.
pub proof fn lemma_broadcast_delay_doubles(
    n_members: usize,
    node_id: usize,
    session_id: SessionId,
    unit_creation_delay: UnitCreationDelay,
    t: nat,
)
    ensures
        aleph_config(n_members, node_id, session_id, unit_creation_delay).unit_broadcast.delay_at(t)
            == Some(crate::delay::saturate(crate::delay::slowdown(t, 4000, 0, 2))),
{
}

} // verus!
