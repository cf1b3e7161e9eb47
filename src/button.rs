//! The button game: whitelisted accounts press a button to extend its life;
//! when it dies, half of the token balance goes to the last presser and the
//! rest is shared among the pressers by score.
//!
//! The environment's values (the caller, the block number) are arguments,
//! and the token transfers that the game's end asks for are returned for the
//! caller to perform.
use vstd::prelude::*;

use crate::bytes::equal_32;

verus! {

/// An account of the chain.
#[derive(Clone, Copy, Debug, PartialEq, Eq, Hash)]
pub struct AccountId(pub [u8; 32]);

impl AccountId {
    pub fn same(&self, other: &AccountId) -> (r: bool)
        ensures
            r == (*self == *other),
    {
        equal_32(&self.0, &other.0)
    }
}

/// Amount of tokens.
pub type Balance = u128;

/// Errors of the game.
#[derive(Clone, Debug, PartialEq, Eq)]
pub enum ButtonError {
    /// The account pressed the button before.
    AlreadyParticipated,
    /// The button is dead.
    AfterDeadline,
    /// The account may not play.
    NotWhitelisted,
    /// Only the owner may do this.
    NotOwner,
    /// A call to another contract failed.
    ContractCall(String),
}

#[verifier::external_type_specification]
#[verifier::external_body]
pub struct ExEnvError(ink_env::Error);

/// Kinds of failure of a call to another contract.
#[derive(Clone, Copy, Debug, PartialEq, Eq, Structural)]
pub enum EnvErrorKind {
    Decode,
    OffChain,
    CalleeTrapped,
    CalleeReverted,
    KeyNotFound,
    BelowSubsistenceThreshold,
    TransferFailed,
    EndowmentTooLow,
    CodeNotFound,
    NotCallable,
    Unknown,
    LoggingDisabled,
    EcdsaRecoveryFailed,
}

/// Relies on the variants of `ink_env::Error`: tells them apart.
#[verifier::external_body]
fn env_error_kind(e: &ink_env::Error) -> EnvErrorKind {
    match e {
        ink_env::Error::Decode(_) => EnvErrorKind::Decode,
        ink_env::Error::OffChain(_) => EnvErrorKind::OffChain,
        ink_env::Error::CalleeTrapped => EnvErrorKind::CalleeTrapped,
        ink_env::Error::CalleeReverted => EnvErrorKind::CalleeReverted,
        ink_env::Error::KeyNotFound => EnvErrorKind::KeyNotFound,
        ink_env::Error::_BelowSubsistenceThreshold => EnvErrorKind::BelowSubsistenceThreshold,
        ink_env::Error::TransferFailed => EnvErrorKind::TransferFailed,
        ink_env::Error::_EndowmentTooLow => EnvErrorKind::EndowmentTooLow,
        ink_env::Error::CodeNotFound => EnvErrorKind::CodeNotFound,
        ink_env::Error::NotCallable => EnvErrorKind::NotCallable,
        ink_env::Error::Unknown => EnvErrorKind::Unknown,
        ink_env::Error::LoggingDisabled => EnvErrorKind::LoggingDisabled,
        ink_env::Error::EcdsaRecoveryFailed => EnvErrorKind::EcdsaRecoveryFailed,
    }
}

/// The message that reports a failed contract call of kind `k`.
pub open spec fn contract_call_message(k: EnvErrorKind) -> Seq<char> {
    let name = match k {
        EnvErrorKind::Decode => "Decode"@,
        EnvErrorKind::OffChain => "OffChain"@,
        EnvErrorKind::CalleeTrapped => "CalleeTrapped"@,
        EnvErrorKind::CalleeReverted => "CalleeReverted"@,
        EnvErrorKind::KeyNotFound => "KeyNotFound"@,
        EnvErrorKind::BelowSubsistenceThreshold => "_BelowSubsistenceThreshold"@,
        EnvErrorKind::TransferFailed => "TransferFailed"@,
        EnvErrorKind::EndowmentTooLow => "_EndowmentTooLow"@,
        EnvErrorKind::CodeNotFound => "CodeNotFound"@,
        EnvErrorKind::NotCallable => "NotCallable"@,
        EnvErrorKind::Unknown => "Unknown"@,
        EnvErrorKind::LoggingDisabled => "LoggingDisabled"@,
        EnvErrorKind::EcdsaRecoveryFailed => "EcdsaRecoveryFailed"@,
    };
    "Contract call failed due to "@ + name + " error"@
}

impl ButtonError {
    /// The game's error for a failed contract call of kind `kind`.
    pub fn from_env_kind(kind: EnvErrorKind) -> (r: ButtonError)
        ensures
            r matches ButtonError::ContractCall(m) && m@ == contract_call_message(kind),
    {
        let name: &str = match kind {
            EnvErrorKind::Decode => "Decode",
            EnvErrorKind::OffChain => "OffChain",
            EnvErrorKind::CalleeTrapped => "CalleeTrapped",
            EnvErrorKind::CalleeReverted => "CalleeReverted",
            EnvErrorKind::KeyNotFound => "KeyNotFound",
            EnvErrorKind::BelowSubsistenceThreshold => "_BelowSubsistenceThreshold",
            EnvErrorKind::TransferFailed => "TransferFailed",
            EnvErrorKind::EndowmentTooLow => "_EndowmentTooLow",
            EnvErrorKind::CodeNotFound => "CodeNotFound",
            EnvErrorKind::NotCallable => "NotCallable",
            EnvErrorKind::Unknown => "Unknown",
            EnvErrorKind::LoggingDisabled => "LoggingDisabled",
            EnvErrorKind::EcdsaRecoveryFailed => "EcdsaRecoveryFailed",
        };
        let mut message = String::from_str("Contract call failed due to ");
        message.append(name);
        message.append(" error");
        ButtonError::ContractCall(message)
    }

    /// The game's error for a failed contract call.
    pub fn from_env_error(e: ink_env::Error) -> (r: ButtonError)
        ensures
            r is ContractCall,
    {
        ButtonError::from_env_kind(env_error_kind(&e))
    }
}

/// Emitted when the button is pressed.
#[derive(Clone, Copy, Debug, PartialEq, Eq)]
pub struct ButtonPressed {
    pub from: AccountId,
    pub when: u32,
    pub new_deadline: u32,
}

/// Emitted when the button changes owner.
#[derive(Clone, Copy, Debug, PartialEq, Eq)]
pub struct OwnershipTransferred {
    pub from: AccountId,
    pub to: AccountId,
}

/// Emitted when the button is created.
#[derive(Clone, Copy, Debug, PartialEq, Eq)]
pub struct ButtonCreated {
    pub start: u32,
    pub deadline: u32,
}

/// Some entry of `entries` is keyed by `k`.
spec fn keyed<V>(entries: Seq<(AccountId, V)>, k: AccountId) -> bool {
    exists|i: int| 0 <= i < entries.len() && entries[i].0 == k
}

/// A map from accounts to small values, kept as a list of entries.
pub struct AccountMap<V> {
    entries: Vec<(AccountId, V)>,
    map: Ghost<Map<AccountId, V>>,
}

impl<V: Copy> AccountMap<V> {
    pub closed spec fn view(&self) -> Map<AccountId, V> {
        self.map@
    }

    /// Each account has at most one entry, and the entries are the map's.
    pub closed spec fn wf(&self) -> bool {
        &&& forall|i: int, j: int|
            0 <= i < j < self.entries@.len() ==> self.entries@[i].0 != self.entries@[j].0
        &&& forall|i: int|
            0 <= i < self.entries@.len() ==> {
                &&& #[trigger] self.map@.contains_key(self.entries@[i].0)
                &&& self.map@[self.entries@[i].0] == self.entries@[i].1
            }
        &&& forall|k: AccountId| #[trigger] self.map@.contains_key(k) ==> keyed(self.entries@, k)
    }

    pub fn new() -> (r: Self)
        ensures
            r.wf(),
            r.view() == Map::<AccountId, V>::empty(),
    {
        AccountMap { entries: Vec::new(), map: Ghost(Map::empty()) }
    }

    fn index_of(&self, k: &AccountId) -> (r: Option<usize>)
        requires
            self.wf(),
        ensures
            match r {
                Some(i) => i < self.entries@.len() && self.entries@[i as int].0 == *k,
                None => !self.view().contains_key(*k),
            },
    {
        let mut i: usize = 0;
        while i < self.entries.len()
            invariant
                i <= self.entries@.len(),
                forall|j: int| 0 <= j < i ==> self.entries@[j].0 != *k,
            decreases self.entries@.len() - i,
        {
            if self.entries[i].0.same(k) {
                return Some(i);
            }
            i = i + 1;
        }
        None
    }

    pub fn get(&self, k: &AccountId) -> (r: Option<V>)
        requires
            self.wf(),
        ensures
            self.view().contains_key(*k) ==> r == Some(self.view()[*k]),
            !self.view().contains_key(*k) ==> r is None,
    {
        match self.index_of(k) {
            Some(i) => Some(self.entries[i].1),
            None => None,
        }
    }

    pub fn insert(&mut self, k: AccountId, v: V)
        requires
            old(self).wf(),
        ensures
            final(self).wf(),
            final(self).view() == old(self).view().insert(k, v),
    {
        let ghost old_entries = self.entries@;
        let found = self.index_of(&k);
        match found {
            Some(i) => {
                self.entries.set(i, (k, v));
            },
            None => {
                self.entries.push((k, v));
            },
        }
        proof {
            self.map@ = self.map@.insert(k, v);
            let new_entries = self.entries@;
            let pos: int = match found {
                Some(i) => i as int,
                None => old_entries.len() as int,
            };
            assert(new_entries[pos] == (k, v));
            assert forall|x: int| 0 <= x < new_entries.len() && x != pos implies new_entries[x]
                == old_entries[x] && old_entries[x].0 != k by {
                if found is None {
                    assert(old(self).map@.contains_key(old_entries[x].0));
                }
            }
            assert forall|x: int, y: int|
                0 <= x < y < new_entries.len() implies new_entries[x].0 != new_entries[y].0 by {
                if x != pos && y != pos {
                    assert(old_entries[x].0 != old_entries[y].0);
                }
            }
            assert forall|a: AccountId| #[trigger] self.map@.contains_key(a) implies keyed(
                new_entries,
                a,
            ) by {
                if a == k {
                    assert(new_entries[pos].0 == a);
                } else {
                    let x0 = choose|x: int| 0 <= x < old_entries.len() && old_entries[x].0 == a;
                    assert(x0 != pos);
                    assert(new_entries[x0].0 == a);
                }
            }
            assert forall|x: int|
                0 <= x < new_entries.len() implies {
                    &&& #[trigger] self.map@.contains_key(new_entries[x].0)
                    &&& self.map@[new_entries[x].0] == new_entries[x].1
                } by {
                if x != pos {
                    assert(old(self).map@.contains_key(old_entries[x].0));
                }
            }
        }
    }
}

/// Each presser is listed once and has a positive score no greater than the
/// total score; the total is at most the height of the last press, itself at
/// most the deadline.
pub open spec fn scores_consistent(
    presses: Map<AccountId, u32>,
    press_accounts: Seq<AccountId>,
    total_scores: u32,
    last_press: u32,
    deadline: u32,
) -> bool {
    &&& last_press <= deadline
    &&& total_scores <= last_press
    &&& press_accounts.no_duplicates()
    &&& forall|a: AccountId| #[trigger] presses.contains_key(a) <==> press_accounts.contains(a)
    &&& forall|a: AccountId| #[trigger] presses.contains_key(a) ==> 1 <= presses[a] <= total_scores
}

/// The game's state as plain values.
pub struct ButtonView {
    pub owner: AccountId,
    pub button_lifetime: u32,
    pub is_dead: bool,
    pub deadline: u32,
    pub presses: Map<AccountId, u32>,
    pub press_accounts: Seq<AccountId>,
    pub total_scores: u32,
    pub last_presser: Option<AccountId>,
    pub last_press: u32,
    pub button_token: AccountId,
    pub can_play: Map<AccountId, bool>,
}

impl ButtonView {
    /// The bookkeeping that makes the scores add up.
    pub open spec fn consistent(&self) -> bool {
        scores_consistent(
            self.presses,
            self.press_accounts,
            self.total_scores,
            self.last_press,
            self.deadline,
        )
    }

    /// May `a` play?
    pub open spec fn whitelisted(&self, a: AccountId) -> bool {
        self.can_play.contains_key(a) && self.can_play[a]
    }
}

/// `m` after letting each of `players` play.
pub open spec fn allow_all(m: Map<AccountId, bool>, players: Seq<AccountId>) -> Map<AccountId, bool> {
    Map::new(
        |a: AccountId| m.contains_key(a) || players.contains(a),
        |a: AccountId|
            if players.contains(a) {
                true
            } else {
                m[a]
            },
    )
}

/// What a press did.
#[derive(Clone, Copy, Debug, PartialEq, Eq)]
pub enum PressOutcome {
    /// The press was recorded.
    Pressed(ButtonPressed),
    /// The button died: its balance is to be paid out.
    Died,
}

/// The reward of a presser with score `score` out of `total`, from what is
/// left once the last presser is paid.
pub open spec fn reward(score: u32, total: u32, remaining: u128) -> int {
    (score / total) as int * remaining as int
}

/// The transfers that end the game.
#[derive(Clone, Debug, PartialEq, Eq)]
pub struct Payouts {
    /// The last presser and half of the balance.
    pub pressiah: Option<(AccountId, Balance)>,
    /// Each presser, in the order of their presses, with their reward.
    pub rewards: Vec<(AccountId, Balance)>,
}

/// The button game.
pub struct YellowButton {
    owner: AccountId,
    button_lifetime: u32,
    is_dead: bool,
    deadline: u32,
    presses: AccountMap<u32>,
    press_accounts: Vec<AccountId>,
    total_scores: u32,
    last_presser: Option<AccountId>,
    last_press: u32,
    button_token: AccountId,
    can_play: AccountMap<bool>,
}

impl View for YellowButton {
    type V = ButtonView;

    closed spec fn view(&self) -> ButtonView {
        ButtonView {
            owner: self.owner,
            button_lifetime: self.button_lifetime,
            is_dead: self.is_dead,
            deadline: self.deadline,
            presses: self.presses.view(),
            press_accounts: self.press_accounts@,
            total_scores: self.total_scores,
            last_presser: self.last_presser,
            last_press: self.last_press,
            button_token: self.button_token,
            can_play: self.can_play.view(),
        }
    }
}

impl YellowButton {
    pub closed spec fn wf(&self) -> bool {
        &&& self.presses.wf()
        &&& self.can_play.wf()
        &&& self@.consistent()
    }

    /// Creates the game at block `now` on behalf of `caller`, who owns it.
    pub fn new(caller: AccountId, now: u32, button_token: AccountId, button_lifetime: u32) -> (r: (
        YellowButton,
        ButtonCreated,
    ))
        requires
            now + button_lifetime <= u32::MAX,
        ensures
            r.0.wf(),
            r.0@ == (ButtonView {
                owner: caller,
                button_lifetime,
                is_dead: false,
                deadline: (now + button_lifetime) as u32,
                presses: Map::empty(),
                press_accounts: Seq::empty(),
                total_scores: 0,
                last_presser: None,
                last_press: 0,
                button_token,
                can_play: Map::empty(),
            }),
            r.1 == (ButtonCreated { start: now, deadline: (now + button_lifetime) as u32 }),
    {
        let deadline = now + button_lifetime;
        let b = YellowButton {
            owner: caller,
            button_lifetime,
            is_dead: false,
            deadline,
            presses: AccountMap::new(),
            press_accounts: Vec::new(),
            total_scores: 0,
            last_presser: None,
            last_press: 0,
            button_token,
            can_play: AccountMap::new(),
        };
        (b, ButtonCreated { start: now, deadline })
    }

    pub fn owner(&self) -> (r: AccountId)
        ensures
            r == self@.owner,
    {
        self.owner
    }

    pub fn is_dead(&self) -> (r: bool)
        ensures
            r == self@.is_dead,
    {
        self.is_dead
    }

    pub fn button_lifetime(&self) -> (r: u32)
        ensures
            r == self@.button_lifetime,
    {
        self.button_lifetime
    }

    pub fn deadline(&self) -> (r: u32)
        ensures
            r == self@.deadline,
    {
        self.deadline
    }

    pub fn total_scores(&self) -> (r: u32)
        ensures
            r == self@.total_scores,
    {
        self.total_scores
    }

    pub fn last_presser(&self) -> (r: Option<AccountId>)
        ensures
            r == self@.last_presser,
    {
        self.last_presser
    }

    pub fn button_token(&self) -> (r: AccountId)
        ensures
            r == self@.button_token,
    {
        self.button_token
    }

    /// The score of `account`, if it pressed.
    pub fn score_of(&self, account: &AccountId) -> (r: Option<u32>)
        requires
            self.wf(),
        ensures
            self@.presses.contains_key(*account) ==> r == Some(self@.presses[*account]),
            !self@.presses.contains_key(*account) ==> r is None,
    {
        self.presses.get(account)
    }

    /// Whether `account` may play.
    pub fn can_play(&self, account: &AccountId) -> (r: bool)
        requires
            self.wf(),
        ensures
            r == self@.whitelisted(*account),
    {
        match self.can_play.get(account) {
            Some(b) => b,
            None => false,
        }
    }

    /// Lets `player` play; only the owner may.
    pub fn allow(&mut self, caller: AccountId, player: AccountId) -> (r: Result<(), ButtonError>)
        requires
            old(self).wf(),
        ensures
            final(self).wf(),
            caller != old(self)@.owner ==> r == Err::<(), ButtonError>(ButtonError::NotOwner)
                && final(self)@ == old(self)@,
            caller == old(self)@.owner ==> r is Ok && final(self)@ == (ButtonView {
                can_play: old(self)@.can_play.insert(player, true),
                ..old(self)@
            }),
    {
        if !caller.same(&self.owner) {
            return Err(ButtonError::NotOwner);
        }
        self.can_play.insert(player, true);
        Ok(())
    }

    /// Lets each of `players` play; only the owner may.
    pub fn bulk_allow(&mut self, caller: AccountId, players: &Vec<AccountId>) -> (r: Result<(), ButtonError>)
        requires
            old(self).wf(),
        ensures
            final(self).wf(),
            caller != old(self)@.owner ==> r == Err::<(), ButtonError>(ButtonError::NotOwner)
                && final(self)@ == old(self)@,
            caller == old(self)@.owner ==> r is Ok && final(self)@ == (ButtonView {
                can_play: allow_all(old(self)@.can_play, players@),
                ..old(self)@
            }),
    {
        if !caller.same(&self.owner) {
            return Err(ButtonError::NotOwner);
        }
        let mut i: usize = 0;
        proof {
            assert(allow_all(old(self)@.can_play, players@.subrange(0, 0)) =~= old(self)@.can_play);
        }
        while i < players.len()
            invariant
                i <= players@.len(),
                self.wf(),
                self@ == (ButtonView {
                    can_play: allow_all(old(self)@.can_play, players@.subrange(0, i as int)),
                    ..old(self)@
                }),
            decreases players@.len() - i,
        {
            let p = players[i];
            self.can_play.insert(p, true);
            proof {
                let before = players@.subrange(0, i as int);
                let after = players@.subrange(0, i + 1);
                assert(after =~= before.push(p));
                assert forall|a: AccountId| after.contains(a) == (before.contains(a) || a == p) by {
                    if after.contains(a) && a != p {
                        let j = choose|j: int| 0 <= j < after.len() && after[j] == a;
                        assert(before[j] == a);
                    }
                    if a == p {
                        assert(after[i as int] == a);
                    }
                    if before.contains(a) {
                        let j = choose|j: int| 0 <= j < before.len() && before[j] == a;
                        assert(after[j] == a);
                    }
                }
                assert(self@.can_play =~= allow_all(old(self)@.can_play, after));
            }
            i = i + 1;
        }
        proof {
            assert(players@.subrange(0, players@.len() as int) =~= players@);
        }
        Ok(())
    }

    /// Stops `player` from playing; only the owner may.
    pub fn disallow(&mut self, caller: AccountId, player: AccountId) -> (r: Result<(), ButtonError>)
        requires
            old(self).wf(),
        ensures
            final(self).wf(),
            caller != old(self)@.owner ==> r == Err::<(), ButtonError>(ButtonError::NotOwner)
                && final(self)@ == old(self)@,
            caller == old(self)@.owner ==> r is Ok && final(self)@ == (ButtonView {
                can_play: old(self)@.can_play.insert(player, false),
                ..old(self)@
            }),
    {
        if !caller.same(&self.owner) {
            return Err(ButtonError::NotOwner);
        }
        self.can_play.insert(player, false);
        Ok(())
    }

    /// Hands the game to `to`; only the owner may.
    pub fn transfer_ownership(&mut self, caller: AccountId, to: AccountId) -> (r: Result<
        OwnershipTransferred,
        ButtonError,
    >)
        requires
            old(self).wf(),
        ensures
            final(self).wf(),
            caller != old(self)@.owner ==> r == Err::<OwnershipTransferred, ButtonError>(
                ButtonError::NotOwner,
            ) && final(self)@ == old(self)@,
            caller == old(self)@.owner ==> r == Ok::<OwnershipTransferred, ButtonError>(
                OwnershipTransferred { from: caller, to },
            ) && final(self)@ == (ButtonView { owner: to, ..old(self)@ }),
    {
        if !caller.same(&self.owner) {
            return Err(ButtonError::NotOwner);
        }
        self.owner = to;
        Ok(OwnershipTransferred { from: caller, to })
    }

    /// `caller` presses the button at block `now`. A press at or before the
    /// deadline kills the button; the balance is then paid out by the
    /// caller, from `death_payouts`.
    pub fn press(&mut self, caller: AccountId, now: u32) -> (r: Result<PressOutcome, ButtonError>)
        requires
            old(self).wf(),
            now + old(self)@.button_lifetime <= u32::MAX,
        ensures
            final(self).wf(),
            old(self)@.is_dead ==> r == Err::<PressOutcome, ButtonError>(ButtonError::AfterDeadline)
                && final(self)@ == old(self)@,
            !old(self)@.is_dead && old(self)@.deadline >= now ==> r == Ok::<
                PressOutcome,
                ButtonError,
            >(PressOutcome::Died) && final(self)@ == (ButtonView { is_dead: true, ..old(self)@ }),
            !old(self)@.is_dead && old(self)@.deadline < now && old(self)@.presses.contains_key(
                caller,
            ) ==> r == Err::<PressOutcome, ButtonError>(ButtonError::AlreadyParticipated)
                && final(self)@ == old(self)@,
            !old(self)@.is_dead && old(self)@.deadline < now && !old(self)@.presses.contains_key(
                caller,
            ) && !old(self)@.whitelisted(caller) ==> r == Err::<PressOutcome, ButtonError>(
                ButtonError::NotWhitelisted,
            ) && final(self)@ == old(self)@,
            !old(self)@.is_dead && old(self)@.deadline < now && !old(self)@.presses.contains_key(
                caller,
            ) && old(self)@.whitelisted(caller) ==> press_recorded(old(self)@, caller, now, r, final(self)@),
    {
        if self.is_dead {
            return Err(ButtonError::AfterDeadline);
        }
        if self.deadline >= now {
            self.is_dead = true;
            return Ok(PressOutcome::Died);
        }
        if self.presses.get(&caller).is_some() {
            return Err(ButtonError::AlreadyParticipated);
        }
        let allowed = match self.can_play.get(&caller) {
            Some(b) => b,
            None => false,
        };
        if !allowed {
            return Err(ButtonError::NotWhitelisted);
        }
        let score = now - self.last_press;
        let ghost old_accounts = self.press_accounts@;
        proof {
            assert(!old_accounts.contains(caller));
        }
        self.presses.insert(caller, score);
        self.press_accounts.push(caller);
        self.last_presser = Some(caller);
        self.last_press = now;
        self.total_scores = self.total_scores + score;
        self.deadline = now + self.button_lifetime;
        proof {
            let acc = self.press_accounts@;
            assert(acc =~= old_accounts.push(caller));
            assert forall|a: AccountId| acc.contains(a) == (old_accounts.contains(a) || a == caller) by {
                if acc.contains(a) && a != caller {
                    let j = choose|j: int| 0 <= j < acc.len() && acc[j] == a;
                    assert(old_accounts[j] == a);
                }
                if a == caller {
                    assert(acc[old_accounts.len() as int] == a);
                }
                if old_accounts.contains(a) {
                    let j = choose|j: int| 0 <= j < old_accounts.len() && old_accounts[j] == a;
                    assert(acc[j] == a);
                }
            }
            assert forall|x: int, y: int| 0 <= x < y < acc.len() implies acc[x] != acc[y] by {
                if y == old_accounts.len() {
                    assert(old_accounts.contains(acc[x]));
                }
            }
        }
        Ok(
            PressOutcome::Pressed(
                ButtonPressed { from: caller, when: now, new_deadline: self.deadline },
            ),
        )
    }

    /// The transfers that pay out `total_balance` once the button is dead:
    /// half of it, rounded down, to the last presser, if any; to each presser,
    /// in press order, their score divided by the total score, rounded down,
    /// times what remains.
    pub fn death_payouts(&self, total_balance: Balance) -> (r: Payouts)
        requires
            self.wf(),
        ensures
            r.pressiah == match self@.last_presser {
                Some(p) => Some((p, total_balance / 2)),
                None => None,
            },
            r.rewards@.len() == self@.press_accounts.len(),
            forall|i: int|
                0 <= i < r.rewards@.len() ==> #[trigger] r.rewards@[i] == (
                    self@.press_accounts[i],
                    reward(
                        self@.presses[self@.press_accounts[i]],
                        self@.total_scores,
                        (total_balance - total_balance / 2) as u128,
                    ) as u128,
                ),
    {
        let pressiah_reward = total_balance / 2;
        let remaining = total_balance - pressiah_reward;
        let pressiah = match self.last_presser {
            Some(p) => Some((p, pressiah_reward)),
            None => None,
        };
        let total = self.total_scores;
        let mut rewards: Vec<(AccountId, Balance)> = Vec::new();
        let mut i: usize = 0;
        while i < self.press_accounts.len()
            invariant
                self.wf(),
                total == self@.total_scores,
                remaining == total_balance - total_balance / 2,
                i <= self@.press_accounts.len(),
                rewards@.len() == i,
                forall|j: int|
                    0 <= j < i ==> #[trigger] rewards@[j] == (
                        self@.press_accounts[j],
                        reward(self@.presses[self@.press_accounts[j]], total, remaining) as u128,
                    ),
            decreases self@.press_accounts.len() - i,
        {
            let account = self.press_accounts[i];
            proof {
                assert(self@.press_accounts.contains(account));
            }
            match self.presses.get(&account) {
                Some(score) => {
                    let q = score / total;
                    proof {
                        assert(q <= 1) by (nonlinear_arith)
                            requires
                                q == score / total,
                                score <= total,
                                total >= 1,
                        ;
                        assert(q as int * remaining as int <= remaining as int) by (nonlinear_arith)
                            requires
                                q <= 1,
                        ;
                    }
                    let amount = q as u128 * remaining;
                    rewards.push((account, amount));
                },
                None => {},
            }
            i = i + 1;
        }
        Payouts { pressiah, rewards }
    }
}

/// The state and result of a press that was recorded.
pub open spec fn press_recorded(
    before: ButtonView,
    caller: AccountId,
    now: u32,
    r: Result<PressOutcome, ButtonError>,
    after: ButtonView,
) -> bool {
    let score = (now - before.last_press) as u32;
    let deadline = (now + before.button_lifetime) as u32;
    &&& r == Ok::<PressOutcome, ButtonError>(
        PressOutcome::Pressed(ButtonPressed { from: caller, when: now, new_deadline: deadline }),
    )
    &&& after == (ButtonView {
        presses: before.presses.insert(caller, score),
        press_accounts: before.press_accounts.push(caller),
        last_presser: Some(caller),
        last_press: now,
        total_scores: (before.total_scores + score) as u32,
        deadline,
        ..before
    })
}

} // verus!
