//! A scenario on which validators are elected: a fresh set of validators comes
//! into force, two of them stop validating, and the others stay in force.

use vstd::arithmetic::div_mod::{lemma_fundamental_div_mod, lemma_fundamental_div_mod_converse};
use vstd::prelude::*;

use crate::bytes::{same_32_bytes, same_bytes};
use crate::client::elections::CommitteeSeats;
use crate::client::transaction::AccountId;

verus! {

/// Required by `MinValidatorCount` of the staking pallet, set in the chain spec.
pub const MIN_VALIDATOR_COUNT: u32 = 4;

/// How many reserved seats there are by default.
pub const RESERVED_SEATS_DEFAULT: u32 = 3;

/// How many non-reserved seats there are by default.
pub const NON_RESERVED_SEATS_DEFAULT: u32 = 3;

/// How many validators of each pool stop validating.
pub const TO_CHILL_COUNT: u32 = 1;

/// In what way the chain is not as expected.
#[derive(Clone, Copy, Debug, PartialEq, Eq, Structural)]
pub enum ElectionFailure {
    /// Fewer validators are present than staking enforces.
    TooFewValidators { present: u32, minimum: u32 },
    /// Not as many validators were set up as there are non-reserved seats.
    NonReservedSeats { desired: u32, got: u32 },
    /// Fewer reserved validators than are to stop.
    TooFewReserved,
    /// Fewer non-reserved validators than are to stop.
    TooFewNonReserved,
    /// Fewer validators would be left than staking enforces.
    TooFewLeft { left: u32, minimum: u32 },
    /// Others are elected than expected.
    UnexpectedStakers,
    /// Others are authorities than expected.
    UnexpectedAuthorities,
}

/// How many sessions it takes until every one of `count` validators has had one
/// of `seats` seats: `ceil(count / seats)`, none without seats.
pub open spec fn sessions_to_see_all(count: nat, seats: nat) -> nat {
    if seats == 0 {
        0
    } else {
        ((count + seats - 1) / seats as int) as nat
    }
}

/// There are v non-reserved validators and s non-reserved seats. All the
/// non-reserved validators will have been seen after ceil(v / s) sessions.
pub fn min_num_sessions_to_see_all_non_reserved_validators(
    non_reserved_count: u32,
    non_reserved_seats: u32,
) -> (sessions: u32)
    ensures
        sessions == sessions_to_see_all(non_reserved_count as nat, non_reserved_seats as nat),
{
    match non_reserved_seats {
        0 => 0,
        _ => {
            let whole: u32 = non_reserved_count / non_reserved_seats;
            let left: u32 = non_reserved_count % non_reserved_seats;
            proof {
                lemma_ceiling(non_reserved_count as int, non_reserved_seats as int);
            }
            if left == 0 {
                whole
            } else {
                whole + 1
            }
        },
    }
}

proof fn lemma_ceiling(count: int, seats: int)
    requires
        count >= 0,
        seats > 0,
    ensures
        (count + seats - 1) / seats == count / seats + (if count % seats == 0 {
            0int
        } else {
            1int
        }),
        count % seats != 0 ==> count / seats < count,
{
    let q = count / seats;
    let r = count % seats;
    lemma_fundamental_div_mod(count, seats);
    assert(0 <= r < seats);
    assert((q + 1) * seats == q * seats + seats) by (nonlinear_arith);
    assert(q * seats == seats * q) by (nonlinear_arith);
    if r == 0 {
        lemma_fundamental_div_mod_converse(count + seats - 1, seats, q, seats - 1);
    } else {
        lemma_fundamental_div_mod_converse(count + seats - 1, seats, q + 1, r - 1);
        assert(q <= seats * q) by (nonlinear_arith)
            requires
                seats > 0,
                q >= 0,
        ;
    }
}

/// The number of sessions suffices, and no smaller number does.
pub proof fn sessions_to_see_all_is_least(count: nat, seats: nat)
    requires
        seats > 0,
    ensures
        sessions_to_see_all(count, seats) * seats >= count,
        count > 0 ==> (sessions_to_see_all(count, seats) - 1) * seats < count,
{
    let n = count + seats - 1;
    let q = n / seats as int;
    let s = seats as int;
    lemma_fundamental_div_mod(n, s);
    assert(0 <= n % s < s);
    assert(q * s == s * q) by (nonlinear_arith);
    assert((q - 1) * s == q * s - s) by (nonlinear_arith);
}

/// Checks that staking has the validators that it enforces.
pub fn assert_enough_validators(current_validator_count: u32, min_validator_count: u32) -> (result:
    Result<(), ElectionFailure>)
    ensures
        result == if current_validator_count >= min_validator_count {
            Ok(())
        } else {
            Err(
                ElectionFailure::TooFewValidators {
                    present: current_validator_count,
                    minimum: min_validator_count,
                },
            )
        },
{
    if current_validator_count >= min_validator_count {
        Ok(())
    } else {
        Err(
            ElectionFailure::TooFewValidators {
                present: current_validator_count,
                minimum: min_validator_count,
            },
        )
    }
}

/// Whether enough validators are left once some stop.
pub open spec fn left_after_chilling(
    reserved_count: u32,
    non_reserved_count: u32,
    reserved_to_chill_count: u32,
    non_reserved_to_chill_count: u32,
    min_validator_count: u32,
) -> Result<(), ElectionFailure> {
    let left = reserved_count - reserved_to_chill_count + non_reserved_count
        - non_reserved_to_chill_count;
    if reserved_count < reserved_to_chill_count {
        Err(ElectionFailure::TooFewReserved)
    } else if non_reserved_count < non_reserved_to_chill_count {
        Err(ElectionFailure::TooFewNonReserved)
    } else if left < min_validator_count {
        Err(ElectionFailure::TooFewLeft { left: left as u32, minimum: min_validator_count })
    } else {
        Ok(())
    }
}

/// Checks that enough validators are left once some stop.
pub fn assert_enough_validators_left_after_chilling(
    reserved_count: u32,
    non_reserved_count: u32,
    reserved_to_chill_count: u32,
    non_reserved_to_chill_count: u32,
    min_validator_count: u32,
) -> (result: Result<(), ElectionFailure>)
    requires
        reserved_count - reserved_to_chill_count + non_reserved_count - non_reserved_to_chill_count
            <= u32::MAX,
    ensures
        result == left_after_chilling(
            reserved_count,
            non_reserved_count,
            reserved_to_chill_count,
            non_reserved_to_chill_count,
            min_validator_count,
        ),
{
    if reserved_count < reserved_to_chill_count {
        return Err(ElectionFailure::TooFewReserved);
    }
    if non_reserved_count < non_reserved_to_chill_count {
        return Err(ElectionFailure::TooFewNonReserved);
    }
    let reserved_after_chill_count: u32 = reserved_count - reserved_to_chill_count;
    let non_reserved_after_chill_count: u32 = non_reserved_count - non_reserved_to_chill_count;
    let left: u32 = reserved_after_chill_count + non_reserved_after_chill_count;
    if left < min_validator_count {
        Err(ElectionFailure::TooFewLeft { left, minimum: min_validator_count })
    } else {
        Ok(())
    }
}

/// The accounts of a list, as a set.
pub open spec fn account_set(accounts: Seq<AccountId>) -> Set<Seq<u8>> {
    Set::new(
        |bytes: Seq<u8>|
            exists|i: int| 0 <= i < accounts.len() && (#[trigger] accounts[i]).bytes@ == bytes,
    )
}

fn contains_account(accounts: &Vec<AccountId>, account: &AccountId) -> (found: bool)
    ensures
        found == account_set(accounts@).contains(account.bytes@),
{
    let mut i: usize = 0;
    while i < accounts.len()
        invariant
            i <= accounts@.len(),
            forall|j: int| 0 <= j < i ==> (#[trigger] accounts@[j]).bytes@ != account.bytes@,
        decreases accounts@.len() - i,
    {
        if same_32_bytes(&accounts[i].bytes, &account.bytes) {
            return true;
        }
        i = i + 1;
    }
    false
}

fn is_subset(a: &Vec<AccountId>, b: &Vec<AccountId>) -> (subset: bool)
    ensures
        subset == account_set(a@).subset_of(account_set(b@)),
{
    let mut i: usize = 0;
    while i < a.len()
        invariant
            i <= a@.len(),
            forall|j: int|
                0 <= j < i ==> account_set(b@).contains((#[trigger] a@[j]).bytes@),
        decreases a@.len() - i,
    {
        if !contains_account(b, &a[i]) {
            proof {
                assert(account_set(a@).contains(a@[i as int].bytes@));
            }
            return false;
        }
        i = i + 1;
    }
    true
}

fn same_accounts(a: &Vec<AccountId>, b: &Vec<AccountId>) -> (same: bool)
    ensures
        same == (account_set(a@) == account_set(b@)),
{
    let same: bool = is_subset(a, b) && is_subset(b, a);
    proof {
        if same {
            assert(account_set(a@) =~= account_set(b@));
        }
    }
    same
}

/// The byte strings of a list, as a set.
pub open spec fn key_set(keys: Seq<Vec<u8>>) -> Set<Seq<u8>> {
    Set::new(
        |bytes: Seq<u8>| exists|i: int| 0 <= i < keys.len() && (#[trigger] keys[i])@ == bytes,
    )
}

fn contains_key(keys: &Vec<Vec<u8>>, key: &Vec<u8>) -> (found: bool)
    ensures
        found == key_set(keys@).contains(key@),
{
    let mut i: usize = 0;
    while i < keys.len()
        invariant
            i <= keys@.len(),
            forall|j: int| 0 <= j < i ==> (#[trigger] keys@[j])@ != key@,
        decreases keys@.len() - i,
    {
        if same_bytes(&keys[i], key) {
            return true;
        }
        i = i + 1;
    }
    false
}

fn keys_are_subset(a: &Vec<Vec<u8>>, b: &Vec<Vec<u8>>) -> (subset: bool)
    ensures
        subset == key_set(a@).subset_of(key_set(b@)),
{
    let mut i: usize = 0;
    while i < a.len()
        invariant
            i <= a@.len(),
            forall|j: int| 0 <= j < i ==> key_set(b@).contains((#[trigger] a@[j])@),
        decreases a@.len() - i,
    {
        if !contains_key(b, &a[i]) {
            proof {
                assert(key_set(a@).contains(a@[i as int]@));
            }
            return false;
        }
        i = i + 1;
    }
    true
}

/// Checks that the stakers in storage are the expected ones, by their storage
/// keys, in whatever order and however often they are listed.
pub fn assert_validators_are_elected_stakers(
    expected_validators_as_keys: &Vec<Vec<u8>>,
    stakers: &Vec<Vec<u8>>,
) -> (result: Result<(), ElectionFailure>)
    ensures
        result == if key_set(expected_validators_as_keys@) == key_set(stakers@) {
            Ok(())
        } else {
            Err(ElectionFailure::UnexpectedStakers)
        },
{
    if keys_are_subset(expected_validators_as_keys, stakers) && keys_are_subset(
        stakers,
        expected_validators_as_keys,
    ) {
        proof {
            assert(key_set(expected_validators_as_keys@) =~= key_set(stakers@));
        }
        Ok(())
    } else {
        Err(ElectionFailure::UnexpectedStakers)
    }
}

/// How far the scenario has come.
#[derive(Clone, Copy, Debug, PartialEq, Eq, Structural)]
pub enum Phase {
    /// The validators that are present have to be counted.
    Counting,
    /// New validators have to be set up.
    SettingUp,
    /// The validators have to be changed to the new ones.
    Changing,
    /// A full era has to pass; after some stopped, or before.
    AwaitingEra { chilled: bool },
    /// The elected stakers of this era have to be read.
    CheckingStakers { chilled: bool, era: u32 },
    /// The authorities of this many more sessions have to be read.
    Observing { chilled: bool, sessions: u32 },
    /// Some have to stop validating.
    Chilling,
    /// All is as expected.
    Finished,
}

/// What is to be done next.
#[derive(Debug)]
pub enum ElectionAction {
    /// Count the validators that are present.
    CountValidators,
    /// Set up this many validators.
    SetUpValidators { count: u32 },
    /// Change the validators, and wait until that is finalized.
    ChangeValidators {
        reserved: Vec<AccountId>,
        non_reserved: Vec<AccountId>,
        seats: CommitteeSeats,
    },
    /// Wait until a full era is over.
    AwaitFullEra,
    /// Read the storage keys of the elected stakers of an era, and those that
    /// these accounts would have.
    ReadStakers { expected: Vec<AccountId>, era: u32 },
    /// Read the authorities of the current session, and wait for the next one.
    ReadAuthorities,
    /// Let the validators of these two controllers stop validating.
    Chill { reserved_controller: AccountId, non_reserved_controller: AccountId },
    /// Nothing: all is as expected.
    Finish,
}

/// What came of the last action.
#[derive(Debug)]
pub enum ElectionEvent {
    /// So many validators are present.
    ValidatorCount(u32),
    /// The validators that were set up.
    Accounts { stashes: Vec<AccountId>, controllers: Vec<AccountId> },
    /// It is done.
    Acknowledged,
    /// A full era is over, and this one has begun.
    EraReached(u32),
    /// The storage keys that were read.
    Stakers { expected: Vec<Vec<u8>>, actual: Vec<Vec<u8>> },
    /// The authorities that were read.
    Authorities(Vec<AccountId>),
}

/// What the scenario is.
#[verifier::ext_equal]
pub struct ElectionState {
    pub seats: CommitteeSeats,
    pub phase: Phase,
    pub stashes: Seq<AccountId>,
    pub controllers: Seq<AccountId>,
    pub seen: Set<Seq<u8>>,
}

/// The list without the accounts that stop: the first of each pool.
pub open spec fn left_stashes(stashes: Seq<AccountId>, reserved_seats: nat) -> Seq<AccountId> {
    stashes.remove(reserved_seats as int).remove(0)
}

impl ElectionState {
    /// The accounts that are expected to be in force.
    pub open spec fn expected(self, chilled: bool) -> Seq<AccountId> {
        if chilled {
            left_stashes(self.stashes, self.seats.reserved_seats as nat)
        } else {
            self.stashes
        }
    }

    /// The accounts fit the seats once they are set up.
    pub open spec fn valid(self) -> bool {
        let r = self.seats.reserved_seats;
        let n = self.seats.non_reserved_seats;
        &&& r + n <= u32::MAX
        &&& !(self.phase is Counting || self.phase is SettingUp) ==> {
            &&& r >= 1
            &&& n >= 1
            &&& self.stashes.len() == r + n
            &&& self.controllers.len() > r
        }
        &&& self.phase matches Phase::Observing { sessions, .. } ==> sessions >= 1
    }

    /// Whether the event is what the next action comes to.
    pub open spec fn expects(self, event: ElectionEvent) -> bool {
        match self.phase {
            Phase::Counting => event is ValidatorCount,
            Phase::SettingUp => event matches ElectionEvent::Accounts { stashes, controllers } && {
                &&& self.seats.reserved_seats <= stashes@.len() <= u32::MAX
                &&& controllers@.len() > self.seats.reserved_seats
            },
            Phase::Changing | Phase::Chilling => event is Acknowledged,
            Phase::AwaitingEra { .. } => event is EraReached,
            Phase::CheckingStakers { .. } => event is Stakers,
            Phase::Observing { .. } => event is Authorities,
            Phase::Finished => false,
        }
    }

    /// The state after an event that ends the scenario: all that may have changed
    /// is which authorities were seen.
    pub open spec fn looked_at(self, event: ElectionEvent) -> Self {
        match event {
            ElectionEvent::Authorities(authorities) => ElectionState {
                seen: self.seen.union(account_set(authorities@)),
                ..self
            },
            _ => self,
        }
    }

    /// What the event leads to.
    pub open spec fn next(self, event: ElectionEvent) -> Result<Self, ElectionFailure> {
        match (self.phase, event) {
            (Phase::Counting, ElectionEvent::ValidatorCount(count)) => {
                if count >= MIN_VALIDATOR_COUNT {
                    Ok(ElectionState { phase: Phase::SettingUp, ..self })
                } else {
                    Err(
                        ElectionFailure::TooFewValidators {
                            present: count,
                            minimum: MIN_VALIDATOR_COUNT,
                        },
                    )
                }
            },
            (Phase::SettingUp, ElectionEvent::Accounts { stashes, controllers }) => {
                let non_reserved = (stashes@.len() - self.seats.reserved_seats) as u32;
                if non_reserved != self.seats.non_reserved_seats {
                    Err(
                        ElectionFailure::NonReservedSeats {
                            desired: self.seats.non_reserved_seats,
                            got: non_reserved,
                        },
                    )
                } else {
                    match left_after_chilling(
                        self.seats.reserved_seats,
                        non_reserved,
                        TO_CHILL_COUNT,
                        TO_CHILL_COUNT,
                        MIN_VALIDATOR_COUNT,
                    ) {
                        Err(failure) => Err(failure),
                        Ok(_) => Ok(
                            ElectionState {
                                phase: Phase::Changing,
                                stashes: stashes@,
                                controllers: controllers@,
                                ..self
                            },
                        ),
                    }
                }
            },
            (Phase::Changing, ElectionEvent::Acknowledged) => Ok(
                ElectionState { phase: Phase::AwaitingEra { chilled: false }, ..self },
            ),
            (Phase::AwaitingEra { chilled }, ElectionEvent::EraReached(era)) => Ok(
                ElectionState { phase: Phase::CheckingStakers { chilled, era }, ..self },
            ),
            (Phase::CheckingStakers { chilled, .. }, ElectionEvent::Stakers { expected, actual }) => {
                if key_set(expected@) == key_set(actual@) {
                    Ok(
                        ElectionState {
                            phase: Phase::Observing {
                                chilled,
                                sessions: sessions_to_see_all(
                                    self.seats.non_reserved_seats as nat,
                                    self.seats.non_reserved_seats as nat,
                                ) as u32,
                            },
                            seen: Set::empty(),
                            ..self
                        },
                    )
                } else {
                    Err(ElectionFailure::UnexpectedStakers)
                }
            },
            (Phase::Observing { chilled, sessions }, ElectionEvent::Authorities(authorities)) => {
                let seen = self.seen.union(account_set(authorities@));
                if sessions > 1 {
                    Ok(
                        ElectionState {
                            phase: Phase::Observing { chilled, sessions: (sessions - 1) as u32 },
                            seen,
                            ..self
                        },
                    )
                } else if seen != account_set(self.expected(chilled)) {
                    Err(ElectionFailure::UnexpectedAuthorities)
                } else {
                    Ok(
                        ElectionState {
                            phase: if chilled {
                                Phase::Finished
                            } else {
                                Phase::Chilling
                            },
                            seen,
                            ..self
                        },
                    )
                }
            },
            (Phase::Chilling, ElectionEvent::Acknowledged) => Ok(
                ElectionState { phase: Phase::AwaitingEra { chilled: true }, ..self },
            ),
            _ => Ok(self),
        }
    }
}

/// The scenario: sets up a brand new set of validators, waits until they are in
/// force, lets one reserved and one non-reserved validator stop, and verifies
/// that only staking validators are in force.
#[derive(Debug)]
pub struct ElectionScenario {
    seats: CommitteeSeats,
    phase: Phase,
    stashes: Vec<AccountId>,
    controllers: Vec<AccountId>,
    seen: Vec<AccountId>,
}

impl View for ElectionScenario {
    type V = ElectionState;

    closed spec fn view(&self) -> ElectionState {
        ElectionState {
            seats: self.seats,
            phase: self.phase,
            stashes: self.stashes@,
            controllers: self.controllers@,
            seen: account_set(self.seen@),
        }
    }
}

/// The seats that a scenario is asked for, or their defaults.
pub open spec fn seats_or_default(
    reserved_seats: Option<u32>,
    non_reserved_seats: Option<u32>,
) -> CommitteeSeats {
    CommitteeSeats {
        reserved_seats: match reserved_seats {
            Some(seats) => seats,
            None => RESERVED_SEATS_DEFAULT,
        },
        non_reserved_seats: match non_reserved_seats {
            Some(seats) => seats,
            None => NON_RESERVED_SEATS_DEFAULT,
        },
    }
}

/// The scenario with the given seats, before anything is done.
pub fn authorities_are_staking(
    reserved_seats: Option<u32>,
    non_reserved_seats: Option<u32>,
) -> (scenario: ElectionScenario)
    requires
        seats_or_default(reserved_seats, non_reserved_seats).reserved_seats + seats_or_default(
            reserved_seats,
            non_reserved_seats,
        ).non_reserved_seats <= u32::MAX,
    ensures
        scenario@ == (ElectionState {
            seats: seats_or_default(reserved_seats, non_reserved_seats),
            phase: Phase::Counting,
            stashes: Seq::empty(),
            controllers: Seq::empty(),
            seen: Set::empty(),
        }),
        scenario@.valid(),
{
    let reserved_seats: u32 = match reserved_seats {
        Some(seats) => seats,
        None => RESERVED_SEATS_DEFAULT,
    };
    let non_reserved_seats: u32 = match non_reserved_seats {
        Some(seats) => seats,
        None => NON_RESERVED_SEATS_DEFAULT,
    };
    let scenario = ElectionScenario {
        seats: CommitteeSeats { reserved_seats, non_reserved_seats },
        phase: Phase::Counting,
        stashes: Vec::new(),
        controllers: Vec::new(),
        seen: Vec::new(),
    };
    proof {
        assert(scenario@.seen =~= Set::empty());
        assert(scenario@.stashes =~= Seq::empty());
        assert(scenario@.controllers =~= Seq::empty());
    }
    scenario
}

fn copy_accounts(accounts: &Vec<AccountId>, from: usize, to: usize) -> (copy: Vec<AccountId>)
    requires
        from <= to <= accounts@.len(),
    ensures
        copy@ == accounts@.subrange(from as int, to as int),
{
    let mut copy: Vec<AccountId> = Vec::new();
    let mut i: usize = from;
    while i < to
        invariant
            from <= i <= to <= accounts@.len(),
            copy@ == accounts@.subrange(from as int, i as int),
        decreases to - i,
    {
        copy.push(accounts[i]);
        i = i + 1;
        proof {
            assert(copy@ =~= accounts@.subrange(from as int, i as int));
        }
    }
    copy
}

impl ElectionScenario {
    fn expected(&self, chilled: bool) -> (accounts: Vec<AccountId>)
        requires
            self@.valid(),
            !(self@.phase is Counting || self@.phase is SettingUp),
        ensures
            accounts@ == self@.expected(chilled),
    {
        let mut accounts = copy_accounts(&self.stashes, 0, self.stashes.len());
        proof {
            assert(accounts@ =~= self.stashes@);
        }
        if chilled {
            let _ = accounts.remove(self.seats.reserved_seats as usize);
            let _ = accounts.remove(0);
        }
        accounts
    }

    /// What is to be done next.
    pub fn action(&self) -> (action: ElectionAction)
        requires
            self@.valid(),
        ensures
            match self@.phase {
                Phase::Counting => action is CountValidators,
                Phase::SettingUp => action == (ElectionAction::SetUpValidators {
                    count: (self@.seats.reserved_seats + self@.seats.non_reserved_seats) as u32,
                }),
                Phase::Changing => action matches ElectionAction::ChangeValidators {
                    reserved,
                    non_reserved,
                    seats,
                } && {
                    let r = self@.seats.reserved_seats as int;
                    &&& reserved@ == self@.stashes.subrange(0, r)
                    &&& non_reserved@ == self@.stashes.subrange(r, self@.stashes.len() as int)
                    &&& seats == self@.seats
                },
                Phase::AwaitingEra { .. } => action is AwaitFullEra,
                Phase::CheckingStakers { chilled, era } => action matches
                    ElectionAction::ReadStakers { expected, era: read } && expected@
                    == self@.expected(chilled) && read == era,
                Phase::Observing { .. } => action is ReadAuthorities,
                Phase::Chilling => action == (ElectionAction::Chill {
                    reserved_controller: self@.controllers[0],
                    non_reserved_controller: self@.controllers[self@.seats.reserved_seats as int],
                }),
                Phase::Finished => action is Finish,
            },
    {
        match self.phase {
            Phase::Counting => ElectionAction::CountValidators,
            Phase::SettingUp => ElectionAction::SetUpValidators {
                count: self.seats.reserved_seats + self.seats.non_reserved_seats,
            },
            Phase::Changing => {
                let reserved_seats: usize = self.seats.reserved_seats as usize;
                ElectionAction::ChangeValidators {
                    reserved: copy_accounts(&self.stashes, 0, reserved_seats),
                    non_reserved: copy_accounts(&self.stashes, reserved_seats, self.stashes.len()),
                    seats: self.seats,
                }
            },
            Phase::AwaitingEra { .. } => ElectionAction::AwaitFullEra,
            Phase::CheckingStakers { chilled, era } => ElectionAction::ReadStakers {
                expected: self.expected(chilled),
                era,
            },
            Phase::Observing { .. } => ElectionAction::ReadAuthorities,
            Phase::Chilling => ElectionAction::Chill {
                reserved_controller: self.controllers[0],
                non_reserved_controller: self.controllers[self.seats.reserved_seats as usize],
            },
            Phase::Finished => ElectionAction::Finish,
        }
    }

    /// Goes on with what came of the last action. An error ends the scenario:
    /// the chain is not as expected.
    pub fn on_event(&mut self, event: ElectionEvent) -> (result: Result<(), ElectionFailure>)
        requires
            old(self)@.valid(),
            old(self)@.expects(event),
        ensures
            match old(self)@.next(event) {
                Ok(next) => result is Ok && final(self)@ == next,
                Err(failure) => result == Err::<(), _>(failure) && final(self)@ == old(
                    self)@.looked_at(event),
            },
            final(self)@.valid(),
    {
        match event {
            ElectionEvent::ValidatorCount(count) => {
                match assert_enough_validators(count, MIN_VALIDATOR_COUNT) {
                    Err(failure) => Err(failure),
                    Ok(_) => {
                        self.phase = Phase::SettingUp;
                        Ok(())
                    },
                }
            },
            ElectionEvent::Accounts { stashes, controllers } => {
                let reserved_seats: u32 = self.seats.reserved_seats;
                let non_reserved_seats: u32 = self.seats.non_reserved_seats;
                let non_reserved_count: u32 = (stashes.len() - reserved_seats as usize) as u32;
                if non_reserved_count != non_reserved_seats {
                    return Err(
                        ElectionFailure::NonReservedSeats {
                            desired: non_reserved_seats,
                            got: non_reserved_count,
                        },
                    );
                }
                match assert_enough_validators_left_after_chilling(
                    reserved_seats,
                    non_reserved_count,
                    TO_CHILL_COUNT,
                    TO_CHILL_COUNT,
                    MIN_VALIDATOR_COUNT,
                ) {
                    Err(failure) => Err(failure),
                    Ok(_) => {
                        self.stashes = stashes;
                        self.controllers = controllers;
                        self.phase = Phase::Changing;
                        Ok(())
                    },
                }
            },
            ElectionEvent::Acknowledged => {
                match self.phase {
                    Phase::Changing => {
                        self.phase = Phase::AwaitingEra { chilled: false };
                    },
                    _ => {
                        self.phase = Phase::AwaitingEra { chilled: true };
                    },
                }
                Ok(())
            },
            ElectionEvent::EraReached(era) => {
                match self.phase {
                    Phase::AwaitingEra { chilled } => {
                        self.phase = Phase::CheckingStakers { chilled, era };
                    },
                    _ => {},
                }
                Ok(())
            },
            ElectionEvent::Stakers { expected, actual } => {
                match assert_validators_are_elected_stakers(&expected, &actual) {
                    Err(failure) => Err(failure),
                    Ok(_) => {
                        self.begin_observing();
                        Ok(())
                    },
                }
            },
            ElectionEvent::Authorities(authorities) => self.observe(authorities),
        }
    }

    fn begin_observing(&mut self)
        requires
            old(self)@.valid(),
            old(self)@.phase is CheckingStakers,
        ensures
            final(self)@ == (ElectionState {
                phase: Phase::Observing {
                    chilled: old(self)@.phase->CheckingStakers_chilled,
                    sessions: sessions_to_see_all(
                        old(self)@.seats.non_reserved_seats as nat,
                        old(self)@.seats.non_reserved_seats as nat,
                    ) as u32,
                },
                seen: Set::empty(),
                ..old(self)@
            }),
            final(self)@.valid(),
    {
        let chilled: bool = match self.phase {
            Phase::CheckingStakers { chilled, era: _ } => chilled,
            _ => false,
        };
        // As many non-reserved validators were set up as there are seats.
        let seats: u32 = self.seats.non_reserved_seats;
        proof {
            sessions_to_see_all_is_least(seats as nat, seats as nat);
            let q = sessions_to_see_all(seats as nat, seats as nat) as int;
            let s = seats as int;
            assert(q >= 1) by (nonlinear_arith)
                requires
                    q * s >= s,
                    s > 0,
            ;
            assert(q <= 1) by (nonlinear_arith)
                requires
                    (q - 1) * s < s,
                    s > 0,
            ;
        }
        let sessions: u32 = min_num_sessions_to_see_all_non_reserved_validators(seats, seats);
        self.phase = Phase::Observing { chilled, sessions };
        self.seen.clear();
        proof {
            assert(self@.seen =~= Set::empty());
        }
    }

    fn observe(&mut self, authorities: Vec<AccountId>) -> (result: Result<(), ElectionFailure>)
        requires
            old(self)@.valid(),
            old(self)@.phase is Observing,
        ensures
            match old(self)@.next(ElectionEvent::Authorities(authorities)) {
                Ok(next) => result is Ok && final(self)@ == next,
                Err(failure) => result == Err::<(), _>(failure) && final(self)@ == old(
                    self)@.looked_at(ElectionEvent::Authorities(authorities)),
            },
            final(self)@.valid(),
    {
        let (chilled, sessions): (bool, u32) = match self.phase {
            Phase::Observing { chilled, sessions } => (chilled, sessions),
            _ => (false, 0),
        };
        let mut authorities = authorities;
        let ghost given = authorities@;
        let ghost before = self.seen@;
        self.seen.append(&mut authorities);
        proof {
            let after = self.seen@;
            assert(after =~= before + given);
            assert forall|bytes: Seq<u8>| #[trigger] account_set(after).contains(bytes) implies (
            account_set(before).union(account_set(given))).contains(bytes) by {
                let i = choose|i: int|
                    0 <= i < after.len() && (#[trigger] after[i]).bytes@ == bytes;
                if i < before.len() {
                    assert(before[i].bytes@ == bytes);
                } else {
                    assert(given[i - before.len()].bytes@ == bytes);
                }
            }
            assert forall|bytes: Seq<u8>|
                (#[trigger] account_set(before).union(account_set(given)).contains(
                    bytes,
                )) implies account_set(after).contains(bytes) by {
                if account_set(before).contains(bytes) {
                    let i = choose|i: int|
                        0 <= i < before.len() && (#[trigger] before[i]).bytes@ == bytes;
                    assert(after[i].bytes@ == bytes);
                } else {
                    let i = choose|i: int|
                        0 <= i < given.len() && (#[trigger] given[i]).bytes@ == bytes;
                    assert(after[before.len() + i].bytes@ == bytes);
                }
            }
            assert(account_set(after) =~= account_set(before).union(account_set(given)));
        }
        if sessions > 1 {
            self.phase = Phase::Observing { chilled, sessions: sessions - 1 };
            return Ok(());
        }
        let expected = self.expected(chilled);
        if !same_accounts(&expected, &self.seen) {
            return Err(ElectionFailure::UnexpectedAuthorities);
        }
        self.phase = if chilled {
            Phase::Finished
        } else {
            Phase::Chilling
        };
        Ok(())
    }
}

/// Of distinct accounts exactly the first of each pool are not expected to be in
/// force after they stopped.
pub proof fn only_chilled_validators_leave(stashes: Seq<AccountId>, reserved_seats: nat)
    requires
        1 <= reserved_seats < stashes.len(),
        forall|i: int, j: int|
            0 <= i < j < stashes.len() ==> (#[trigger] stashes[i]).bytes@ != (
            #[trigger] stashes[j]).bytes@,
    ensures
        forall|i: int|
            #![trigger stashes[i]]
            0 <= i < stashes.len() ==> (account_set(
                left_stashes(stashes, reserved_seats),
            ).contains(stashes[i].bytes@) <==> i != 0 && i != reserved_seats),
{
    let left = left_stashes(stashes, reserved_seats);
    let r = reserved_seats as int;
    assert forall|i: int| #![trigger stashes[i]] 0 <= i < stashes.len() implies (account_set(
        left,
    ).contains(stashes[i].bytes@) <==> i != 0 && i != reserved_seats) by {
        if i != 0 && i != r {
            let k = if i < r {
                i - 1
            } else {
                i - 2
            };
            assert(left[k] == stashes[i]);
            assert(left[k].bytes@ == stashes[i].bytes@);
        } else if account_set(left).contains(stashes[i].bytes@) {
            let k = choose|k: int|
                0 <= k < left.len() && (#[trigger] left[k]).bytes@ == stashes[i].bytes@;
            let o = if k + 1 < r {
                k + 1
            } else {
                k + 2
            };
            assert(left[k] == stashes[o]);
            if o < i {
                assert(stashes[o].bytes@ != stashes[i].bytes@);
            } else {
                assert(stashes[i].bytes@ != stashes[o].bytes@);
            }
        }
    }
}

/// The scenario ends well only where the authorities that were seen after some
/// stopped are exactly the validators that are left; and some stop only where
/// the authorities that were seen before are exactly all validators.
pub proof fn only_staking_validators_are_in_force(state: ElectionState, event: ElectionEvent)
    requires
        state.valid(),
        state.expects(event),
        state.next(event) is Ok,
    ensures
        ({
            let next = state.next(event)->Ok_0;
            &&& next.phase == Phase::Finished ==> next.seen == account_set(
                left_stashes(next.stashes, next.seats.reserved_seats as nat),
            )
            &&& next.phase == Phase::Chilling ==> next.seen == account_set(next.stashes)
        }),
{
}

/// Without seats no session is waited for, and with as many seats as validators a
/// single one.
pub proof fn full_committees_are_seen_at_once(count: nat)
    ensures
        sessions_to_see_all(count, 0) == 0,
        count > 0 ==> sessions_to_see_all(count, count) == 1,
{
    if count > 0 {
        sessions_to_see_all_is_least(count, count);
        let sessions = sessions_to_see_all(count, count) as int;
        let c = count as int;
        assert(sessions >= 1) by (nonlinear_arith)
            requires
                sessions * c >= c,
                c > 0,
        ;
        assert(sessions - 1 < 1) by (nonlinear_arith)
            requires
                (sessions - 1) * c < c,
                c > 0,
        ;
    }
}

/// Validators may stop exactly where each pool has as many as are to stop and
/// enough are left in all; what is lacking first is the failure.
pub proof fn enough_validators_have_to_be_left(
    reserved: u32,
    non_reserved: u32,
    reserved_to_chill: u32,
    non_reserved_to_chill: u32,
    minimum: u32,
)
    requires
        reserved - reserved_to_chill + non_reserved - non_reserved_to_chill <= u32::MAX,
    ensures
        ({
            let result = left_after_chilling(
                reserved,
                non_reserved,
                reserved_to_chill,
                non_reserved_to_chill,
                minimum,
            );
            &&& result is Ok <==> reserved_to_chill <= reserved && non_reserved_to_chill
                <= non_reserved && reserved + non_reserved >= minimum + reserved_to_chill
                + non_reserved_to_chill
            &&& result == Err::<(), _>(ElectionFailure::TooFewReserved) <==> reserved
                < reserved_to_chill
            &&& result == Err::<(), _>(ElectionFailure::TooFewNonReserved) <==> reserved
                >= reserved_to_chill && non_reserved < non_reserved_to_chill
            &&& result matches Err(ElectionFailure::TooFewLeft { left, minimum: least }) ==> left
                + reserved_to_chill + non_reserved_to_chill == reserved + non_reserved && least
                == minimum && left < minimum
        }),
{
}

/// The accounts of a list, and the keys of one, are those that are in it.
pub proof fn listed_accounts_are_in_the_set(
    accounts: Seq<AccountId>,
    keys: Seq<Vec<u8>>,
    bytes: Seq<u8>,
)
    ensures
        account_set(accounts).contains(bytes) <==> exists|i: int|
            0 <= i < accounts.len() && (#[trigger] accounts[i]).bytes@ == bytes,
        key_set(keys).contains(bytes) <==> exists|i: int|
            0 <= i < keys.len() && (#[trigger] keys[i])@ == bytes,
{
}

/// Seats that are asked for are taken; three of each kind are the default.
pub proof fn seats_are_as_asked_for(reserved: u32, non_reserved: u32)
    ensures
        seats_or_default(Some(reserved), Some(non_reserved)) == (CommitteeSeats {
            reserved_seats: reserved,
            non_reserved_seats: non_reserved,
        }),
        seats_or_default(Some(reserved), None) == (CommitteeSeats {
            reserved_seats: reserved,
            non_reserved_seats: 3,
        }),
        seats_or_default(None, Some(non_reserved)) == (CommitteeSeats {
            reserved_seats: 3,
            non_reserved_seats: non_reserved,
        }),
        seats_or_default(None, None) == (CommitteeSeats {
            reserved_seats: 3,
            non_reserved_seats: 3,
        }),
{
}

/// Those who are left after some stopped stay in their order: all but the first
/// reserved and the first non-reserved one.
pub proof fn those_left_stay_in_order(stashes: Seq<AccountId>, reserved_seats: nat, i: int)
    requires
        1 <= reserved_seats < stashes.len(),
    ensures
        left_stashes(stashes, reserved_seats).len() == stashes.len() - 2,
        1 <= i < reserved_seats ==> left_stashes(stashes, reserved_seats)[i - 1] == stashes[i],
        reserved_seats < i < stashes.len() ==> left_stashes(stashes, reserved_seats)[i - 2]
            == stashes[i],
{
}

/// The scenario goes on from counting only where at least four validators are
/// present.
pub proof fn counting_needs_four_validators(state: ElectionState, count: u32)
    requires
        state.phase == Phase::Counting,
    ensures
        count >= 4 ==> state.next(ElectionEvent::ValidatorCount(count)) == Ok::<
            _,
            ElectionFailure,
        >(ElectionState { phase: Phase::SettingUp, ..state }),
        count < 4 ==> state.next(ElectionEvent::ValidatorCount(count)) == Err::<ElectionState, _>(
            ElectionFailure::TooFewValidators { present: count, minimum: 4 },
        ),
{
}

/// The accounts that are set up are taken exactly where they fill the seats, with
/// somebody to stop in each pool and at least four left; they are then the accounts
/// of the scenario.
pub proof fn accounts_have_to_fill_the_seats(
    state: ElectionState,
    stashes: Vec<AccountId>,
    controllers: Vec<AccountId>,
)
    requires
        state.valid(),
        state.phase == Phase::SettingUp,
        state.expects(ElectionEvent::Accounts { stashes, controllers }),
    ensures
        ({
            let r = state.seats.reserved_seats;
            let n = state.seats.non_reserved_seats;
            let next = state.next(ElectionEvent::Accounts { stashes, controllers });
            &&& next is Ok <==> stashes@.len() == r + n && r >= 1 && n >= 1 && r + n >= 6
            &&& next matches Ok(after) ==> {
                &&& after.phase == Phase::Changing
                &&& after.seats == state.seats
                &&& after.stashes == stashes@
                &&& after.controllers == controllers@
            }
            &&& stashes@.len() != r + n ==> next == Err::<ElectionState, _>(
                ElectionFailure::NonReservedSeats { desired: n, got: (stashes@.len() - r) as u32 },
            )
        }),
{
}

/// From the change of the validators on the scenario goes through the same course
/// twice, before some stop and after: a full era passes, the stakers of the era
/// that was reached are read, and authorities are observed. Then some stop, or all
/// is over. The accounts and seats stay what they are.
pub proof fn the_course_is_run_twice(state: ElectionState, chilled: bool, era: u32)
    ensures
        state.phase == Phase::Changing ==> state.next(ElectionEvent::Acknowledged) == Ok::<
            _,
            ElectionFailure,
        >(ElectionState { phase: Phase::AwaitingEra { chilled: false }, ..state }),
        state.phase == Phase::Chilling ==> state.next(ElectionEvent::Acknowledged) == Ok::<
            _,
            ElectionFailure,
        >(ElectionState { phase: Phase::AwaitingEra { chilled: true }, ..state }),
        state.phase == (Phase::AwaitingEra { chilled }) ==> state.next(
            ElectionEvent::EraReached(era),
        ) == Ok::<_, ElectionFailure>(
            ElectionState { phase: Phase::CheckingStakers { chilled, era }, ..state },
        ),
        state.expected(false) == state.stashes,
        state.expected(true) == left_stashes(state.stashes, state.seats.reserved_seats as nat),
        state.looked_at(ElectionEvent::Acknowledged) == state,
        state.looked_at(ElectionEvent::EraReached(era)) == state,
{
}

/// The stakers that were read have to be exactly the expected ones; then one
/// session is observed, with nobody seen yet.
pub proof fn stakers_have_to_be_as_expected(
    state: ElectionState,
    chilled: bool,
    era: u32,
    expected: Vec<Vec<u8>>,
    actual: Vec<Vec<u8>>,
)
    requires
        state.valid(),
        state.phase == (Phase::CheckingStakers { chilled, era }),
    ensures
        ({
            let next = state.next(ElectionEvent::Stakers { expected, actual });
            &&& next is Ok <==> key_set(expected@) == key_set(actual@)
            &&& next matches Err(failure) ==> failure == ElectionFailure::UnexpectedStakers
            &&& next matches Ok(after) ==> after == (ElectionState {
                phase: Phase::Observing { chilled, sessions: 1 },
                seen: Set::empty(),
                ..state
            })
        }),
{
    full_committees_are_seen_at_once(state.seats.non_reserved_seats as nat);
}

/// The authorities of each observed session count as seen, also where the scenario
/// ends there; those that were seen are judged once the last session is observed,
/// and have to be exactly the expected ones.
pub proof fn authorities_are_judged_in_the_end(
    state: ElectionState,
    chilled: bool,
    sessions: u32,
    authorities: Vec<AccountId>,
    account: Seq<u8>,
)
    requires
        state.phase == (Phase::Observing { chilled, sessions }),
        sessions >= 1,
    ensures
        ({
            let event = ElectionEvent::Authorities(authorities);
            let next = state.next(event);
            let seen = state.looked_at(event).seen;
            &&& seen.contains(account) <==> state.seen.contains(account) || account_set(
                authorities@,
            ).contains(account)
            &&& state.looked_at(event) == (ElectionState { seen, ..state })
            &&& sessions > 1 ==> next == Ok::<_, ElectionFailure>(
                ElectionState {
                    phase: Phase::Observing { chilled, sessions: (sessions - 1) as u32 },
                    seen,
                    ..state
                },
            )
            &&& sessions == 1 ==> (next is Ok <==> seen == account_set(state.expected(chilled)))
            &&& next matches Err(failure) ==> failure == ElectionFailure::UnexpectedAuthorities
            &&& sessions == 1 && next is Ok ==> next == Ok::<_, ElectionFailure>(
                ElectionState {
                    phase: if chilled {
                        Phase::Finished
                    } else {
                        Phase::Chilling
                    },
                    seen,
                    ..state
                },
            )
        }),
{
}

} // verus!
