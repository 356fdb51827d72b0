//! Responsible-gambling registry: per-identity betting limits, spending
//! totals, cooldowns and self-exclusion.
//!
//! Users are known by an anonymous 64-byte identity commitment. Amounts are
//! in micro CCD and times in milliseconds since the Unix epoch. A caller
//! asks [`validate_bet`] before a bet is committed and tells
//! [`record_bet`] once it has been. Every accepted change is noted in the
//! registry's audit log.

use vstd::prelude::*;

verus! {

/// An anonymous identity: the hash that stands for one user.
pub type IdentityCommitment = [u8; 64];

/// The daily limit that a new user starts with.
pub const DEFAULT_DAILY_LIMIT: u64 = 500_000_000;

/// The weekly limit that a new user starts with.
pub const DEFAULT_WEEKLY_LIMIT: u64 = 2_500_000_000;

/// The monthly limit that a new user starts with.
pub const DEFAULT_MONTHLY_LIMIT: u64 = 10_000_000_000;

/// The limit on a single bet that a new user starts with.
pub const DEFAULT_SINGLE_BET_LIMIT: u64 = 5_000_000_000;

/// The number of milliseconds in a day.
pub const MILLIS_PER_DAY: u64 = 86_400_000;

/// What a user may bet, in micro CCD, and how long to wait between bets.
#[derive(Clone, Copy, Debug, PartialEq, Eq)]
pub struct BettingLimits {
    pub daily_limit: u64,
    pub weekly_limit: u64,
    pub monthly_limit: u64,
    pub single_bet_limit: u64,
    /// The time that must pass between two bets, in seconds.
    pub cooldown_period: u64,
}

/// What a user has bet in the running day, week and month.
#[derive(Clone, Copy, Debug, PartialEq, Eq)]
pub struct SpendingTracker {
    pub daily_spent: u64,
    pub daily_reset_time: u64,
    pub weekly_spent: u64,
    pub weekly_reset_time: u64,
    pub monthly_spent: u64,
    pub monthly_reset_time: u64,
}

/// How much at risk a user is taken to be.
#[derive(Clone, Copy, Debug, PartialEq, Eq, Structural)]
pub enum RiskLevel {
    Low,
    Medium,
    High,
}

/// All that the registry keeps of one user.
#[derive(Clone, Copy, Debug, PartialEq, Eq)]
pub struct UserState {
    pub id_commitment: IdentityCommitment,
    pub limits: BettingLimits,
    pub spending: SpendingTracker,
    pub last_bet_timestamp: u64,
    pub self_excluded: bool,
    pub self_exclusion_expiry: Option<u64>,
    pub risk_level: RiskLevel,
    pub registered_at: u64,
}

/// What the registry reports for its audit log.
#[derive(Clone, Debug, PartialEq, Eq)]
pub enum RGEvent {
    UserRegistered { id_commitment: IdentityCommitment, timestamp: u64 },
    LimitSet { id_commitment: IdentityCommitment, limits: BettingLimits, timestamp: u64 },
    BetRecorded { id_commitment: IdentityCommitment, amount: u64, timestamp: u64 },
    SelfExcluded {
        id_commitment: IdentityCommitment,
        duration_days: u32,
        expiry: u64,
        timestamp: u64,
    },
    LimitViolated { id_commitment: IdentityCommitment, violation_type: String, timestamp: u64 },
}

/// What a registry is made with.
#[derive(Clone, Copy, Debug, PartialEq, Eq)]
pub struct InitParams {
    pub owner: [u8; 32],
    pub minimum_age: u8,
}

/// A request to register a user.
#[derive(Clone, Copy, Debug, PartialEq, Eq)]
pub struct RegisterUserParams {
    pub id_commitment: IdentityCommitment,
    pub age_verified: bool,
    pub jurisdiction_allowed: bool,
}

/// A request to change a user's limits.
#[derive(Clone, Copy, Debug, PartialEq, Eq)]
pub struct SetLimitsParams {
    pub id_commitment: IdentityCommitment,
    pub limits: BettingLimits,
}

/// A bet of a user, to be validated or recorded.
#[derive(Clone, Copy, Debug, PartialEq, Eq)]
pub struct RecordBetParams {
    pub id_commitment: IdentityCommitment,
    pub bet_amount: u64,
}

/// A request of a user to be kept from betting for some days.
#[derive(Clone, Copy, Debug, PartialEq, Eq)]
pub struct SelfExclusionParams {
    pub id_commitment: IdentityCommitment,
    pub duration_days: u32,
}

/// Whether a bet is allowed, and if not, why.
#[derive(Clone, Debug, PartialEq, Eq)]
pub struct BetValidationResult {
    pub allowed: bool,
    pub reason: Option<String>,
}

/// Why a request to the registry fails.
#[derive(Clone, Copy, Debug, PartialEq, Eq, Structural)]
pub enum Error {
    ParseError,
    UserAlreadyRegistered,
    UserNotFound,
    AgeNotVerified,
    JurisdictionNotAllowed,
    SelfExcluded,
    CooldownActive,
    DailyLimitExceeded,
    WeeklyLimitExceeded,
    MonthlyLimitExceeded,
    SingleBetLimitExceeded,
    InvalidLimits,
    Unauthorized,
}

/// Why a bet is not allowed.
#[derive(Clone, Copy, Debug, PartialEq, Eq, Structural)]
pub enum Denial {
    SelfExcluded,
    Cooldown,
    SingleBetLimit,
    DailyLimit,
    WeeklyLimit,
    MonthlyLimit,
}

/// The limits that a new user starts with.
pub open spec fn default_limits() -> BettingLimits {
    BettingLimits {
        daily_limit: DEFAULT_DAILY_LIMIT,
        weekly_limit: DEFAULT_WEEKLY_LIMIT,
        monthly_limit: DEFAULT_MONTHLY_LIMIT,
        single_bet_limit: DEFAULT_SINGLE_BET_LIMIT,
        cooldown_period: 0,
    }
}

/// The state of a user who registers at `now`: the default limits, nothing
/// spent, not excluded, at low risk.
pub open spec fn new_user(id_commitment: IdentityCommitment, now: u64) -> UserState {
    UserState {
        id_commitment,
        limits: default_limits(),
        spending: SpendingTracker {
            daily_spent: 0,
            daily_reset_time: now,
            weekly_spent: 0,
            weekly_reset_time: now,
            monthly_spent: 0,
            monthly_reset_time: now,
        },
        last_bet_timestamp: now,
        self_excluded: false,
        self_exclusion_expiry: None,
        risk_level: RiskLevel::Low,
        registered_at: now,
    }
}

/// The whole seconds from `before` to `now`; none where `before` is later.
pub open spec fn seconds_since(now: u64, before: u64) -> int {
    if now >= before {
        (now - before) / 1000
    } else {
        0
    }
}

/// Why a bet of `bet_amount` by `user` at `now` is not allowed, if anything
/// stands in the way. A running self-exclusion is looked at first, then the
/// cooldown, then the limit on a single bet, then the daily, the weekly and
/// the monthly limit, each against what is spent plus the bet.
pub open spec fn denial(user: UserState, bet_amount: u64, now: u64) -> Option<Denial> {
    if user.self_excluded && user.self_exclusion_expiry is Some && now
        < user.self_exclusion_expiry->0 {
        Some(Denial::SelfExcluded)
    } else if user.limits.cooldown_period > 0 && seconds_since(now, user.last_bet_timestamp)
        < user.limits.cooldown_period {
        Some(Denial::Cooldown)
    } else if bet_amount > user.limits.single_bet_limit {
        Some(Denial::SingleBetLimit)
    } else if user.spending.daily_spent + bet_amount > user.limits.daily_limit {
        Some(Denial::DailyLimit)
    } else if user.spending.weekly_spent + bet_amount > user.limits.weekly_limit {
        Some(Denial::WeeklyLimit)
    } else if user.spending.monthly_spent + bet_amount > user.limits.monthly_limit {
        Some(Denial::MonthlyLimit)
    } else {
        None
    }
}

/// The words in which a denial is reported.
pub open spec fn denial_reason(denial: Denial) -> Seq<char> {
    match denial {
        Denial::SelfExcluded => "Self-excluded"@,
        Denial::Cooldown => "Cooldown period active"@,
        Denial::SingleBetLimit => "Exceeds single bet limit"@,
        Denial::DailyLimit => "Would exceed daily limit"@,
        Denial::WeeklyLimit => "Would exceed weekly limit"@,
        Denial::MonthlyLimit => "Would exceed monthly limit"@,
    }
}

/// Whether the limits are ordered: the daily limit is no more than the
/// weekly one, which is no more than the monthly one.
pub open spec fn limits_ordered(limits: BettingLimits) -> bool {
    limits.daily_limit <= limits.weekly_limit && limits.weekly_limit <= limits.monthly_limit
}

/// The user after a bet of `amount` at `now` has been recorded.
pub open spec fn after_bet(user: UserState, amount: u64, now: u64) -> UserState
    recommends
        user.spending.daily_spent + amount <= u64::MAX,
        user.spending.weekly_spent + amount <= u64::MAX,
        user.spending.monthly_spent + amount <= u64::MAX,
{
    UserState {
        spending: SpendingTracker {
            daily_spent: (user.spending.daily_spent + amount) as u64,
            weekly_spent: (user.spending.weekly_spent + amount) as u64,
            monthly_spent: (user.spending.monthly_spent + amount) as u64,
            ..user.spending
        },
        last_bet_timestamp: now,
        ..user
    }
}

/// When a self-exclusion of `duration_days` days that starts at `now` ends.
pub open spec fn exclusion_expiry(now: u64, duration_days: u32) -> int {
    now + duration_days * MILLIS_PER_DAY
}

/// Tells whether `spent` plus `amount` is more than `limit`.
fn exceeds(spent: u64, amount: u64, limit: u64) -> (over: bool)
    ensures
        over == (spent + amount > limit),
{
    match spent.checked_add(amount) {
        Some(total) => total > limit,
        None => true,
    }
}

/// Decides why a bet of `bet_amount` by `user` at `now` is not allowed, if
/// it is not.
pub fn check_bet(user: &UserState, bet_amount: u64, now: u64) -> (verdict: Option<Denial>)
    ensures
        verdict == denial(*user, bet_amount, now),
{
    if user.self_excluded {
        match user.self_exclusion_expiry {
            Some(expiry) => {
                if now < expiry {
                    return Some(Denial::SelfExcluded);
                }
            },
            None => {},
        }
    }
    if user.limits.cooldown_period > 0 {
        let elapsed: u64 = if now >= user.last_bet_timestamp {
            (now - user.last_bet_timestamp) / 1000
        } else {
            0
        };
        if elapsed < user.limits.cooldown_period {
            return Some(Denial::Cooldown);
        }
    }
    if bet_amount > user.limits.single_bet_limit {
        return Some(Denial::SingleBetLimit);
    }
    if exceeds(user.spending.daily_spent, bet_amount, user.limits.daily_limit) {
        return Some(Denial::DailyLimit);
    }
    if exceeds(user.spending.weekly_spent, bet_amount, user.limits.weekly_limit) {
        return Some(Denial::WeeklyLimit);
    }
    if exceeds(user.spending.monthly_spent, bet_amount, user.limits.monthly_limit) {
        return Some(Denial::MonthlyLimit);
    }
    None
}

/// Puts a verdict into the form in which it is reported: allowed without a
/// reason, or not allowed with the words for the denial.
pub fn report(verdict: Option<Denial>) -> (result: BetValidationResult)
    ensures
        result.allowed == (verdict is None),
        match verdict {
            Some(d) => result.reason matches Some(words) && words@ == denial_reason(d),
            None => result.reason is None,
        },
{
    let words = match verdict {
        None => {
            return BetValidationResult { allowed: true, reason: None };
        },
        Some(Denial::SelfExcluded) => "Self-excluded",
        Some(Denial::Cooldown) => "Cooldown period active",
        Some(Denial::SingleBetLimit) => "Exceeds single bet limit",
        Some(Denial::DailyLimit) => "Would exceed daily limit",
        Some(Denial::WeeklyLimit) => "Would exceed weekly limit",
        Some(Denial::MonthlyLimit) => "Would exceed monthly limit",
    };
    BetValidationResult { allowed: false, reason: Some(words.to_owned()) }
}

/// Why a user cannot be registered, if anything stands in the way: the
/// identity is registered already, the age is not verified, or the
/// jurisdiction does not allow it.
pub open spec fn admission_rejection(registered: bool, params: RegisterUserParams) -> Option<Error> {
    if registered {
        Some(Error::UserAlreadyRegistered)
    } else if !params.age_verified {
        Some(Error::AgeNotVerified)
    } else if !params.jurisdiction_allowed {
        Some(Error::JurisdictionNotAllowed)
    } else {
        None
    }
}

/// Decides on a registration at `now`, given whether the identity is
/// registered already, and makes the new user's state.
///
/// Fails with `UserAlreadyRegistered`, `AgeNotVerified` or
/// `JurisdictionNotAllowed`, in this order of precedence.
pub fn admit_user(registered: bool, params: &RegisterUserParams, now: u64) -> (res: Result<
    UserState,
    Error,
>)
    ensures
        match res {
            Ok(user) => admission_rejection(registered, *params) is None && user == new_user(
                params.id_commitment,
                now,
            ),
            Err(e) => admission_rejection(registered, *params) == Some(e),
        },
{
    if registered {
        return Err(Error::UserAlreadyRegistered);
    }
    if !params.age_verified {
        return Err(Error::AgeNotVerified);
    }
    if !params.jurisdiction_allowed {
        return Err(Error::JurisdictionNotAllowed);
    }
    Ok(
        UserState {
            id_commitment: params.id_commitment,
            limits: BettingLimits {
                daily_limit: DEFAULT_DAILY_LIMIT,
                weekly_limit: DEFAULT_WEEKLY_LIMIT,
                monthly_limit: DEFAULT_MONTHLY_LIMIT,
                single_bet_limit: DEFAULT_SINGLE_BET_LIMIT,
                cooldown_period: 0,
            },
            spending: SpendingTracker {
                daily_spent: 0,
                daily_reset_time: now,
                weekly_spent: 0,
                weekly_reset_time: now,
                monthly_spent: 0,
                monthly_reset_time: now,
            },
            last_bet_timestamp: now,
            self_excluded: false,
            self_exclusion_expiry: None,
            risk_level: RiskLevel::Low,
            registered_at: now,
        },
    )
}

/// Whether the three spending totals of `user` can take `amount` more.
pub open spec fn can_record(user: UserState, amount: u64) -> bool {
    &&& user.spending.daily_spent + amount <= u64::MAX
    &&& user.spending.weekly_spent + amount <= u64::MAX
    &&& user.spending.monthly_spent + amount <= u64::MAX
}

/// Tells whether the three spending totals of `user` can take `amount` more.
pub fn spending_fits(user: &UserState, amount: u64) -> (fits: bool)
    ensures
        fits == can_record(*user, amount),
{
    amount <= u64::MAX - user.spending.daily_spent && amount <= u64::MAX
        - user.spending.weekly_spent && amount <= u64::MAX - user.spending.monthly_spent
}

/// Adds a bet of `amount` to the user's daily, weekly and monthly spending
/// and notes `now` as the time of the user's last bet. The spending totals
/// must be able to take the amount.
pub fn add_bet(user: &mut UserState, amount: u64, now: u64)
    requires
        can_record(*old(user), amount),
    ensures
        *final(user) == after_bet(*old(user), amount, now),
{
    user.spending.daily_spent = user.spending.daily_spent + amount;
    user.spending.weekly_spent = user.spending.weekly_spent + amount;
    user.spending.monthly_spent = user.spending.monthly_spent + amount;
    user.last_bet_timestamp = now;
}

/// Tells whether limits are ordered.
pub fn limits_are_ordered(limits: &BettingLimits) -> (ordered: bool)
    ensures
        ordered == limits_ordered(*limits),
{
    limits.daily_limit <= limits.weekly_limit && limits.weekly_limit <= limits.monthly_limit
}

/// Computes when a self-exclusion of `duration_days` days that starts at
/// `now` ends, if that is a time that a timestamp can hold.
pub fn expiry_of(now: u64, duration_days: u32) -> (expiry: Option<u64>)
    ensures
        expiry == if exclusion_expiry(now, duration_days) <= u64::MAX {
            Some(exclusion_expiry(now, duration_days) as u64)
        } else {
            None
        },
{
    let span: u64 = (duration_days as u64) * MILLIS_PER_DAY;
    now.checked_add(span)
}

/// The user after a self-exclusion that ends at `expiry` has been noted.
pub open spec fn excluded_until(user: UserState, expiry: u64) -> UserState {
    UserState { self_excluded: true, self_exclusion_expiry: Some(expiry), ..user }
}

/// Notes a self-exclusion of the user that ends at `expiry`.
pub fn exclude_until(user: &mut UserState, expiry: u64)
    ensures
        *final(user) == excluded_until(*old(user), expiry),
{
    user.self_excluded = true;
    user.self_exclusion_expiry = Some(expiry);
}

/// Compares two identity commitments byte by byte.
pub fn same_identity(a: &IdentityCommitment, b: &IdentityCommitment) -> (same: bool)
    ensures
        same == (*a == *b),
{
    let mut i: usize = 0;
    while i < 64
        invariant
            i <= 64,
            forall|k: int| 0 <= k < i ==> a@[k] == b@[k],
        decreases 64 - i,
    {
        if a[i] != b[i] {
            assert(a@[i as int] != b@[i as int]);
            return false;
        }
        i += 1;
    }
    assert(a@ =~= b@);
    assert(*a =~= *b);
    true
}

/// Whether the user at index `i` has the identity `id`.
pub open spec fn user_at(users: Seq<UserState>, id: IdentityCommitment, i: int) -> bool {
    0 <= i < users.len() && users[i].id_commitment == id
}

/// Whether a user with the identity `id` is registered.
pub open spec fn has_user(users: Seq<UserState>, id: IdentityCommitment) -> bool {
    exists|i: int| user_at(users, id, i)
}

/// The index of the user with the identity `id`, where there is one.
pub open spec fn user_index(users: Seq<UserState>, id: IdentityCommitment) -> int {
    choose|i: int| user_at(users, id, i)
}

/// Whether no identity is registered twice.
pub open spec fn distinct_users(users: Seq<UserState>) -> bool {
    forall|i: int, j: int|
        0 <= i < j < users.len() ==> (#[trigger] users[i]).id_commitment != (
        #[trigger] users[j]).id_commitment
}

/// Where no identity is registered twice, a user has one index only.
pub proof fn lemma_user_index(users: Seq<UserState>, id: IdentityCommitment, i: int)
    requires
        distinct_users(users),
        user_at(users, id, i),
    ensures
        has_user(users, id),
        user_index(users, id) == i,
{
    let j = user_index(users, id);
    assert(user_at(users, id, j));
    if j < i {
        assert(users[j].id_commitment != users[i].id_commitment);
    }
    if i < j {
        assert(users[i].id_commitment != users[j].id_commitment);
    }
}

/// The registry: its users in the order of their registration, its owner,
/// the minimum age that it was made with, and its audit log.
#[derive(Debug)]
pub struct State {
    users: Vec<UserState>,
    owner: [u8; 32],
    minimum_age: u8,
    events: Vec<RGEvent>,
}

/// What a registry holds, as plain values.
pub struct StateView {
    /// The users, in the order of their registration.
    pub users: Seq<UserState>,
    /// The account that owns the registry.
    pub owner: [u8; 32],
    /// The minimum age that the registry was made with.
    pub minimum_age: u8,
    /// The audit log: one event for each accepted change, oldest first.
    pub events: Seq<RGEvent>,
}

impl View for State {
    type V = StateView;

    closed spec fn view(&self) -> StateView {
        StateView {
            users: self.users@,
            owner: self.owner,
            minimum_age: self.minimum_age,
            events: self.events@,
        }
    }
}

impl State {
    /// Whether the registry is in a state that its operations can reach:
    /// no identity is registered twice.
    pub open spec fn wf(&self) -> bool {
        distinct_users(self@.users)
    }

    /// The user with the identity `id`, where there is one.
    pub open spec fn user(&self, id: IdentityCommitment) -> UserState {
        self@.users[user_index(self@.users, id)]
    }

    /// The account that owns the registry.
    pub fn owner(&self) -> (owner: [u8; 32])
        ensures
            owner == self@.owner,
    {
        self.owner
    }

    /// The minimum age that the registry was made with.
    pub fn minimum_age(&self) -> (age: u8)
        ensures
            age == self@.minimum_age,
    {
        self.minimum_age
    }

    /// Finds the index of the user with the identity `id`.
    fn find_user(&self, id: &IdentityCommitment) -> (found: Option<usize>)
        ensures
            match found {
                Some(i) => user_at(self@.users, *id, i as int),
                None => !has_user(self@.users, *id),
            },
    {
        let mut i: usize = 0;
        while i < self.users.len()
            invariant
                i <= self.users@.len(),
                forall|k: int| 0 <= k < i ==> !user_at(self.users@, *id, k),
            decreases self.users@.len() - i,
        {
            if same_identity(&self.users[i].id_commitment, id) {
                return Some(i);
            }
            i += 1;
        }
        None
    }

    /// The audit log: one event for each accepted change, oldest first.
    pub fn events(&self) -> (log: &Vec<RGEvent>)
        ensures
            log@ == self@.events,
    {
        &self.events
    }

    /// The number of registered users.
    pub fn user_count(&self) -> (count: usize)
        ensures
            count == self@.users.len(),
    {
        self.users.len()
    }
}

/// Makes a registry without users.
pub fn init(params: InitParams) -> (state: State)
    ensures
        state@.users == Seq::<UserState>::empty(),
        state@.owner == params.owner,
        state@.minimum_age == params.minimum_age,
        state@.events == Seq::<RGEvent>::empty(),
        state.wf(),
{
    let state = State {
        users: Vec::new(),
        owner: params.owner,
        minimum_age: params.minimum_age,
        events: Vec::new(),
    };
    assert(state@.users =~= Seq::<UserState>::empty());
    assert(state@.events =~= Seq::<RGEvent>::empty());
    state
}

/// Registers a user, with the default limits and nothing spent, and notes
/// the registration in the audit log.
///
/// Fails with `UserAlreadyRegistered`, `AgeNotVerified` or
/// `JurisdictionNotAllowed`, in this order of precedence, leaving the
/// registry as it was.
pub fn register_user(state: &mut State, params: RegisterUserParams, now: u64) -> (res: Result<
    (),
    Error,
>)
    requires
        old(state).wf(),
    ensures
        final(state).wf(),
        final(state)@.owner == old(state)@.owner,
        final(state)@.minimum_age == old(state)@.minimum_age,
        match res {
            Ok(_) => {
                &&& admission_rejection(
                    has_user(old(state)@.users, params.id_commitment),
                    params,
                ) is None
                &&& final(state)@.users == old(state)@.users.push(
                    new_user(params.id_commitment, now),
                )
                &&& final(state)@.events == old(state)@.events.push(
                    RGEvent::UserRegistered {
                        id_commitment: params.id_commitment,
                        timestamp: now,
                    },
                )
            },
            Err(e) => {
                &&& admission_rejection(
                    has_user(old(state)@.users, params.id_commitment),
                    params,
                ) == Some(e)
                &&& final(state)@.users == old(state)@.users
                &&& final(state)@.events == old(state)@.events
            },
        },
{
    let registered = state.find_user(&params.id_commitment).is_some();
    let user = match admit_user(registered, &params, now) {
        Ok(user) => user,
        Err(e) => {
            return Err(e);
        },
    };
    proof {
        let before = state@.users;
        let after = before.push(user);
        assert forall|i: int, j: int| 0 <= i < j < after.len() implies (
        #[trigger] after[i]).id_commitment != (#[trigger] after[j]).id_commitment by {
            assert(after[i] == before[i]);
            if j == before.len() {
                assert(!user_at(before, params.id_commitment, i));
            } else {
                assert(after[j] == before[j]);
            }
        }
    }
    state.users.push(user);
    state.events.push(
        RGEvent::UserRegistered { id_commitment: params.id_commitment, timestamp: now },
    );
    Ok(())
}

/// Tells whether a bet is allowed, and if not, why.
///
/// Fails with `UserNotFound` where the identity is not registered.
/// Otherwise the bet is allowed exactly if [`denial`] finds nothing against
/// it, and a denial is reported in the words of [`denial_reason`].
pub fn validate_bet(state: &State, params: RecordBetParams, now: u64) -> (res: Result<
    BetValidationResult,
    Error,
>)
    requires
        state.wf(),
    ensures
        match res {
            Ok(result) => {
                &&& has_user(state@.users, params.id_commitment)
                &&& result.allowed == (denial(
                    state.user(params.id_commitment),
                    params.bet_amount,
                    now,
                ) is None)
                &&& match denial(state.user(params.id_commitment), params.bet_amount, now) {
                    Some(d) => result.reason matches Some(words) && words@ == denial_reason(d),
                    None => result.reason is None,
                }
            },
            Err(e) => e == Error::UserNotFound && !has_user(state@.users, params.id_commitment),
        },
{
    match state.find_user(&params.id_commitment) {
        Some(i) => {
            proof {
                lemma_user_index(state@.users, params.id_commitment, i as int);
            }
            Ok(report(check_bet(&state.users[i], params.bet_amount, now)))
        },
        None => Err(Error::UserNotFound),
    }
}

/// Tells whether a bet of the user can be recorded without a spending total
/// running over; false too where the identity is not registered.
pub fn recordable(state: &State, params: RecordBetParams) -> (ok: bool)
    requires
        state.wf(),
    ensures
        ok == (has_user(state@.users, params.id_commitment) && can_record(
            state.user(params.id_commitment),
            params.bet_amount,
        )),
{
    match state.find_user(&params.id_commitment) {
        Some(i) => {
            proof {
                lemma_user_index(state@.users, params.id_commitment, i as int);
            }
            spending_fits(&state.users[i], params.bet_amount)
        },
        None => false,
    }
}

/// Records a bet: adds its amount to the user's daily, weekly and monthly
/// spending, notes the time as that of the user's last bet, and notes the
/// bet in the audit log.
///
/// Fails with `UserNotFound` where the identity is not registered. The
/// spending totals must be able to take the amount.
pub fn record_bet(state: &mut State, params: RecordBetParams, now: u64) -> (res: Result<
    (),
    Error,
>)
    requires
        old(state).wf(),
        has_user(old(state)@.users, params.id_commitment) ==> can_record(
            old(state).user(params.id_commitment),
            params.bet_amount,
        ),
    ensures
        final(state).wf(),
        final(state)@.owner == old(state)@.owner,
        final(state)@.minimum_age == old(state)@.minimum_age,
        match res {
            Ok(_) => {
                &&& has_user(old(state)@.users, params.id_commitment)
                &&& final(state)@.users == old(state)@.users.update(
                    user_index(old(state)@.users, params.id_commitment),
                    after_bet(old(state).user(params.id_commitment), params.bet_amount, now),
                )
                &&& final(state)@.events == old(state)@.events.push(
                    RGEvent::BetRecorded {
                        id_commitment: params.id_commitment,
                        amount: params.bet_amount,
                        timestamp: now,
                    },
                )
            },
            Err(e) => {
                &&& e == Error::UserNotFound
                &&& !has_user(old(state)@.users, params.id_commitment)
                &&& final(state)@.users == old(state)@.users
                &&& final(state)@.events == old(state)@.events
            },
        },
{
    let i = match state.find_user(&params.id_commitment) {
        Some(i) => i,
        None => {
            return Err(Error::UserNotFound);
        },
    };
    proof {
        lemma_user_index(state@.users, params.id_commitment, i as int);
    }
    let mut user = state.users[i];
    add_bet(&mut user, params.bet_amount, now);
    proof {
        lemma_update_keeps_distinct(state@.users, i as int, user);
    }
    state.users[i] = user;
    state.events.push(
        RGEvent::BetRecorded {
            id_commitment: params.id_commitment,
            amount: params.bet_amount,
            timestamp: now,
        },
    );
    Ok(())
}

/// Replacing a user by one with the same identity keeps the identities
/// distinct.
pub proof fn lemma_update_keeps_distinct(users: Seq<UserState>, i: int, user: UserState)
    requires
        distinct_users(users),
        0 <= i < users.len(),
        user.id_commitment == users[i].id_commitment,
    ensures
        distinct_users(users.update(i, user)),
{
    let after = users.update(i, user);
    assert forall|a: int, b: int| 0 <= a < b < after.len() implies (
    #[trigger] after[a]).id_commitment != (#[trigger] after[b]).id_commitment by {
        assert(after[a].id_commitment == users[a].id_commitment);
        assert(after[b].id_commitment == users[b].id_commitment);
    }
}

/// Why a user's limits cannot be set, if anything stands in the way: the
/// limits are not ordered, or the identity is not registered.
pub open spec fn limits_rejection(users: Seq<UserState>, params: SetLimitsParams) -> Option<Error> {
    if !limits_ordered(params.limits) {
        Some(Error::InvalidLimits)
    } else if !has_user(users, params.id_commitment) {
        Some(Error::UserNotFound)
    } else {
        None
    }
}

/// Sets a user's limits and notes the change in the audit log.
///
/// Fails with `InvalidLimits` where the daily limit is above the weekly or
/// the weekly above the monthly one, else with `UserNotFound` where the
/// identity is not registered; the registry is then left as it was.
pub fn set_limits(state: &mut State, params: SetLimitsParams, now: u64) -> (res: Result<
    (),
    Error,
>)
    requires
        old(state).wf(),
    ensures
        final(state).wf(),
        final(state)@.owner == old(state)@.owner,
        final(state)@.minimum_age == old(state)@.minimum_age,
        match res {
            Ok(_) => {
                &&& limits_rejection(old(state)@.users, params) is None
                &&& final(state)@.users == old(state)@.users.update(
                    user_index(old(state)@.users, params.id_commitment),
                    (UserState { limits: params.limits, ..old(state).user(params.id_commitment) }),
                )
                &&& final(state)@.events == old(state)@.events.push(
                    RGEvent::LimitSet {
                        id_commitment: params.id_commitment,
                        limits: params.limits,
                        timestamp: now,
                    },
                )
            },
            Err(e) => {
                &&& limits_rejection(old(state)@.users, params) == Some(e)
                &&& final(state)@.users == old(state)@.users
                &&& final(state)@.events == old(state)@.events
            },
        },
{
    if !limits_are_ordered(&params.limits) {
        return Err(Error::InvalidLimits);
    }
    let i = match state.find_user(&params.id_commitment) {
        Some(i) => i,
        None => {
            return Err(Error::UserNotFound);
        },
    };
    proof {
        lemma_user_index(state@.users, params.id_commitment, i as int);
    }
    let mut user = state.users[i];
    user.limits = params.limits;
    proof {
        lemma_update_keeps_distinct(state@.users, i as int, user);
    }
    state.users[i] = user;
    state.events.push(
        RGEvent::LimitSet {
            id_commitment: params.id_commitment,
            limits: params.limits,
            timestamp: now,
        },
    );
    Ok(())
}

/// Tells whether a self-exclusion of the user can start at `now` with an
/// expiry that a timestamp can hold; false too where the identity is not
/// registered.
pub fn excludable(state: &State, params: SelfExclusionParams, now: u64) -> (ok: bool)
    requires
        state.wf(),
    ensures
        ok == (has_user(state@.users, params.id_commitment) && exclusion_expiry(
            now,
            params.duration_days,
        ) <= u64::MAX),
{
    match state.find_user(&params.id_commitment) {
        Some(_) => expiry_of(now, params.duration_days).is_some(),
        None => false,
    }
}

/// Excludes a user from betting for `duration_days` days from `now` on,
/// and notes the exclusion in the audit log.
///
/// Fails with `UserNotFound` where the identity is not registered. The
/// expiry must be a time that a timestamp can hold.
pub fn self_exclude(state: &mut State, params: SelfExclusionParams, now: u64) -> (res: Result<
    (),
    Error,
>)
    requires
        old(state).wf(),
        has_user(old(state)@.users, params.id_commitment) ==> exclusion_expiry(
            now,
            params.duration_days,
        ) <= u64::MAX,
    ensures
        final(state).wf(),
        final(state)@.owner == old(state)@.owner,
        final(state)@.minimum_age == old(state)@.minimum_age,
        match res {
            Ok(_) => {
                &&& has_user(old(state)@.users, params.id_commitment)
                &&& final(state)@.users == old(state)@.users.update(
                    user_index(old(state)@.users, params.id_commitment),
                    excluded_until(
                        old(state).user(params.id_commitment),
                        exclusion_expiry(now, params.duration_days) as u64,
                    ),
                )
                &&& final(state)@.events == old(state)@.events.push(
                    RGEvent::SelfExcluded {
                        id_commitment: params.id_commitment,
                        duration_days: params.duration_days,
                        expiry: exclusion_expiry(now, params.duration_days) as u64,
                        timestamp: now,
                    },
                )
            },
            Err(e) => {
                &&& e == Error::UserNotFound
                &&& !has_user(old(state)@.users, params.id_commitment)
                &&& final(state)@.users == old(state)@.users
                &&& final(state)@.events == old(state)@.events
            },
        },
{
    let i = match state.find_user(&params.id_commitment) {
        Some(i) => i,
        None => {
            return Err(Error::UserNotFound);
        },
    };
    proof {
        lemma_user_index(state@.users, params.id_commitment, i as int);
    }
    let expiry: u64 = now + (params.duration_days as u64) * MILLIS_PER_DAY;
    let mut user = state.users[i];
    exclude_until(&mut user, expiry);
    proof {
        lemma_update_keeps_distinct(state@.users, i as int, user);
    }
    state.users[i] = user;
    state.events.push(
        RGEvent::SelfExcluded {
            id_commitment: params.id_commitment,
            duration_days: params.duration_days,
            expiry,
            timestamp: now,
        },
    );
    Ok(())
}

/// Looks up what the registry keeps of a user.
///
/// Fails with `UserNotFound` where the identity is not registered.
pub fn get_user_state(state: &State, id_commitment: IdentityCommitment) -> (res: Result<
    UserState,
    Error,
>)
    requires
        state.wf(),
    ensures
        match res {
            Ok(user) => has_user(state@.users, id_commitment) && user == state.user(id_commitment),
            Err(e) => e == Error::UserNotFound && !has_user(state@.users, id_commitment),
        },
{
    match state.find_user(&id_commitment) {
        Some(i) => {
            proof {
                lemma_user_index(state@.users, id_commitment, i as int);
            }
            Ok(state.users[i])
        },
        None => Err(Error::UserNotFound),
    }
}

} // verus!
