//! The elections pallet: a root-managed list of members, each of whom is
//! elected with an empty support.
use vstd::prelude::*;

use crate::button::AccountId;

verus! {

/// Who dispatched a call.
#[derive(Clone, Copy, Debug, PartialEq, Eq)]
pub enum Origin {
    Root,
    Signed(AccountId),
    Unsigned,
}

/// Why a dispatched call failed.
#[derive(Clone, Copy, Debug, PartialEq, Eq, Structural)]
pub enum DispatchError {
    /// The call needs a root origin.
    BadOrigin,
}

/// Emitted when the members change.
#[derive(Clone, Debug, PartialEq, Eq)]
pub enum Event {
    ChangeMembers(Vec<AccountId>),
}

/// The backing of an elected member.
#[derive(Clone, Debug, PartialEq, Eq)]
pub struct Support {
    pub total: u128,
    pub voters: Vec<(AccountId, u128)>,
}

/// The pallet's storage at genesis.
#[derive(Clone, Debug, PartialEq, Eq)]
pub struct GenesisConfig {
    pub members: Vec<AccountId>,
    pub millisecs_per_block: u64,
    pub session_period: u32,
    pub sessions_per_era: u32,
}

/// The pallet's storage.
pub struct Pallet {
    members: Vec<AccountId>,
    millisecs_per_block: u64,
    session_period: u32,
    sessions_per_era: u32,
}

impl GenesisConfig {
    /// The storage the pallet starts with.
    pub fn build(&self) -> (r: Pallet)
        ensures
            r.members_view() == self.members@,
            r.millisecs_per_block_view() == self.millisecs_per_block,
            r.session_period_view() == self.session_period,
            r.sessions_per_era_view() == self.sessions_per_era,
    {
        Pallet {
            members: self.members.clone(),
            millisecs_per_block: self.millisecs_per_block,
            session_period: self.session_period,
            sessions_per_era: self.sessions_per_era,
        }
    }
}

impl Pallet {
    pub closed spec fn members_view(&self) -> Seq<AccountId> {
        self.members@
    }

    pub fn members(&self) -> (r: Vec<AccountId>)
        ensures
            r@ == self.members_view(),
    {
        self.members.clone()
    }

    pub closed spec fn millisecs_per_block_view(&self) -> u64 {
        self.millisecs_per_block
    }

    pub fn millisecs_per_block(&self) -> (r: u64)
        ensures
            r == self.millisecs_per_block_view(),
    {
        self.millisecs_per_block
    }

    pub closed spec fn session_period_view(&self) -> u32 {
        self.session_period
    }

    pub fn session_period(&self) -> (r: u32)
        ensures
            r == self.session_period_view(),
    {
        self.session_period
    }

    pub closed spec fn sessions_per_era_view(&self) -> u32 {
        self.sessions_per_era
    }

    pub fn sessions_per_era(&self) -> (r: u32)
        ensures
            r == self.sessions_per_era_view(),
    {
        self.sessions_per_era
    }

    /// Replaces the members; only a root origin may.
    pub fn change_members(&mut self, origin: Origin, members: Vec<AccountId>) -> (r: Result<
        Event,
        DispatchError,
    >)
        ensures
            origin is Root ==> (r matches Ok(Event::ChangeMembers(m)) && m@ == members@)
                && final(self).members_view() == members@,
            !(origin is Root) ==> r == Err::<Event, DispatchError>(DispatchError::BadOrigin)
                && final(self).members_view() == old(self).members_view(),
            final(self).millisecs_per_block_view() == old(self).millisecs_per_block_view(),
            final(self).session_period_view() == old(self).session_period_view(),
            final(self).sessions_per_era_view() == old(self).sessions_per_era_view(),
    {
        match origin {
            Origin::Root => {},
            _ => return Err(DispatchError::BadOrigin),
        }
        let event_members = members.clone();
        proof {
            assert(event_members@ == members@);
        }
        self.members = members;
        Ok(Event::ChangeMembers(event_members))
    }

    /// Elects every member, in order, each with an empty support.
    pub fn elect(&self) -> (r: Vec<(AccountId, Support)>)
        ensures
            r@.len() == self.members_view().len(),
            forall|i: int|
                0 <= i < r@.len() ==> {
                    &&& #[trigger] r@[i].0 == self.members_view()[i]
                    &&& r@[i].1.total == 0
                    &&& r@[i].1.voters@.len() == 0
                },
    {
        let mut supports: Vec<(AccountId, Support)> = Vec::new();
        let mut i: usize = 0;
        while i < self.members.len()
            invariant
                i <= self.members@.len(),
                supports@.len() == i,
                forall|j: int|
                    0 <= j < i ==> {
                        &&& #[trigger] supports@[j].0 == self.members@[j]
                        &&& supports@[j].1.total == 0
                        &&& supports@[j].1.voters@.len() == 0
                    },
            decreases self.members@.len() - i,
        {
            supports.push((self.members[i], Support { total: 0, voters: Vec::new() }));
            i = i + 1;
        }
        supports
    }
}

} // verus!
