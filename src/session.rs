//! Sessions: fixed-length windows of block heights.
use vstd::prelude::*;

verus! {

/// Index of a session.
#[derive(Clone, Copy, Debug, PartialEq, Eq, Structural)]
pub struct SessionId(pub u32);

/// Number of blocks in every session.
#[derive(Clone, Copy, Debug, PartialEq, Eq, Structural)]
pub struct SessionPeriod(pub u32);

/// Height of the first block of session `s` for sessions of `period` blocks.
pub open spec fn first_block(s: int, period: int) -> int {
    s * period
}

/// Height of the last block of session `s` for sessions of `period` blocks.
pub open spec fn last_block(s: int, period: int) -> int {
    (s + 1) * period - 1
}

/// The session that holds block `height`.
pub open spec fn session_of(height: int, period: int) -> int {
    height / period
}

/// The session's blocks all have heights that fit in a `u32`.
pub open spec fn session_fits(s: int, period: int) -> bool {
    (s + 1) * period <= u32::MAX as int + 1
}

/// The first and last block of one session.
#[derive(Clone, Copy, Debug, PartialEq, Eq, Structural)]
pub struct SessionBoundaries {
    pub first_block: u32,
    pub last_block: u32,
}

impl SessionBoundaries {
    pub fn new(session_id: SessionId, period: SessionPeriod) -> (r: SessionBoundaries)
        requires
            period.0 > 0,
            session_fits(session_id.0 as int, period.0 as int),
        ensures
            r.first_block == first_block(session_id.0 as int, period.0 as int),
            r.last_block == last_block(session_id.0 as int, period.0 as int),
    {
        SessionBoundaries {
            first_block: first_block_of_session(session_id, period),
            last_block: last_block_of_session(session_id, period),
        }
    }
}

/// Height of the first block of `session_id`.
pub fn first_block_of_session(session_id: SessionId, period: SessionPeriod) -> (r: u32)
    requires
        session_fits(session_id.0 as int, period.0 as int),
    ensures
        r == first_block(session_id.0 as int, period.0 as int),
{
    proof {
        let s = session_id.0 as int;
        let l = period.0 as int;
        assert(s * l + l == (s + 1) * l) by (nonlinear_arith);
        if l == 0 {
            assert(s * l == 0);
        }
    }
    session_id.0 * period.0
}

/// Height of the last block of `session_id`.
pub fn last_block_of_session(session_id: SessionId, period: SessionPeriod) -> (r: u32)
    requires
        period.0 > 0,
        session_fits(session_id.0 as int, period.0 as int),
    ensures
        r == last_block(session_id.0 as int, period.0 as int),
{
    proof {
        let s = session_id.0 as int;
        let l = period.0 as int;
        assert(s * l + l == (s + 1) * l) by (nonlinear_arith);
        assert(s * l >= 0) by (nonlinear_arith)
            requires
                s >= 0,
                l >= 0,
        ;
    }
    session_id.0 * period.0 + (period.0 - 1)
}

/// The session that holds block `height`.
pub fn session_id_from_block_num(height: u32, period: SessionPeriod) -> (r: SessionId)
    requires
        period.0 > 0,
    ensures
        r.0 == session_of(height as int, period.0 as int),
{
    SessionId(height / period.0)
}

/// For a positive session length, a height lies in session `s` exactly when
/// it lies between the session's first and last block.
pub proof fn lemma_session_of_inverts_boundaries(height: int, s: int, period: int)
    requires
        period > 0,
        height >= 0,
        s >= 0,
    ensures
        session_of(height, period) == s <==> first_block(s, period) <= height
            <= last_block(s, period),
        first_block(s, period) + period - 1 == last_block(s, period),
{
    assert(s * period + period == (s + 1) * period) by (nonlinear_arith);
    if first_block(s, period) <= height <= last_block(s, period) {
        vstd::arithmetic::div_mod::lemma_fundamental_div_mod_converse(
            height,
            period,
            s,
            height - s * period,
        );
    }
    if session_of(height, period) == s {
        vstd::arithmetic::div_mod::lemma_fundamental_div_mod(height, period);
        vstd::arithmetic::div_mod::lemma_mod_bound(height, period);
    }
}

/// Answers the session questions for one fixed session length.
pub struct SessionInfoImpl {
    session_period: SessionPeriod,
}

impl SessionInfoImpl {
    /// The session length this value answers for.
    pub closed spec fn period(&self) -> int {
        self.session_period.0 as int
    }

    /// A usable session length is positive.
    pub open spec fn wf(&self) -> bool {
        self.period() > 0
    }

    pub fn new(session_period: SessionPeriod) -> (r: Self)
        requires
            session_period.0 > 0,
        ensures
            r.wf(),
            r.period() == session_period.0,
    {
        Self { session_period }
    }

    pub fn session_id_from_block_num(&self, n: u32) -> (r: SessionId)
        requires
            self.wf(),
        ensures
            r.0 == session_of(n as int, self.period()),
    {
        session_id_from_block_num(n, self.session_period)
    }

    pub fn last_block_of_session(&self, session_id: SessionId) -> (r: u32)
        requires
            self.wf(),
            session_fits(session_id.0 as int, self.period()),
        ensures
            r == last_block(session_id.0 as int, self.period()),
    {
        last_block_of_session(session_id, self.session_period)
    }

    pub fn first_block_of_session(&self, session_id: SessionId) -> (r: u32)
        requires
            session_fits(session_id.0 as int, self.period()),
        ensures
            r == first_block(session_id.0 as int, self.period()),
    {
        first_block_of_session(session_id, self.session_period)
    }
}

} // verus!
