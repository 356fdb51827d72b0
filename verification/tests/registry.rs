use darkbet::registry::{
    add_bet, admit_user, check_bet, excludable, exclude_until, expiry_of, get_user_state, init,
    limits_are_ordered, record_bet, recordable, register_user, report, same_identity,
    self_exclude, set_limits, spending_fits, validate_bet, BetValidationResult, BettingLimits,
    Denial, Error, InitParams, RGEvent, RecordBetParams, RegisterUserParams, RiskLevel,
    SelfExclusionParams, SetLimitsParams, SpendingTracker, State, UserState,
};

const ANN: [u8; 64] = [1u8; 64];
const BEN: [u8; 64] = [2u8; 64];
const NOW: u64 = 1_700_000_000_000;

fn registry_with(ids: &[[u8; 64]]) -> State {
    let mut state = init(InitParams { owner: [9u8; 32], minimum_age: 18 });
    for id in ids {
        let params =
            RegisterUserParams { id_commitment: *id, age_verified: true, jurisdiction_allowed: true };
        register_user(&mut state, params, NOW).unwrap();
    }
    state
}

fn bet(id: [u8; 64], bet_amount: u64) -> RecordBetParams {
    RecordBetParams { id_commitment: id, bet_amount }
}

fn denied(words: &str) -> BetValidationResult {
    BetValidationResult { allowed: false, reason: Some(words.to_string()) }
}

fn allowed() -> BetValidationResult {
    BetValidationResult { allowed: true, reason: None }
}

#[test]
fn init_makes_an_empty_registry() {
    let state = init(InitParams { owner: [9u8; 32], minimum_age: 21 });
    assert_eq!(state.user_count(), 0);
    assert_eq!(state.owner(), [9u8; 32]);
    assert_eq!(state.minimum_age(), 21);
}

#[test]
fn register_user_starts_with_default_limits() {
    let mut state = registry_with(&[]);
    let params =
        RegisterUserParams { id_commitment: ANN, age_verified: true, jurisdiction_allowed: true };
    assert_eq!(register_user(&mut state, params, NOW), Ok(()));
    assert_eq!(
        state.events(),
        &vec![RGEvent::UserRegistered { id_commitment: ANN, timestamp: NOW }]
    );
    assert_eq!(
        get_user_state(&state, ANN),
        Ok(UserState {
            id_commitment: ANN,
            limits: BettingLimits {
                daily_limit: 500_000_000,
                weekly_limit: 2_500_000_000,
                monthly_limit: 10_000_000_000,
                single_bet_limit: 5_000_000_000,
                cooldown_period: 0,
            },
            spending: SpendingTracker {
                daily_spent: 0,
                daily_reset_time: NOW,
                weekly_spent: 0,
                weekly_reset_time: NOW,
                monthly_spent: 0,
                monthly_reset_time: NOW,
            },
            last_bet_timestamp: NOW,
            self_excluded: false,
            self_exclusion_expiry: None,
            risk_level: RiskLevel::Low,
            registered_at: NOW,
        })
    );
}

#[test]
fn register_user_refusals_come_in_order() {
    let mut state = registry_with(&[ANN]);
    let taken =
        RegisterUserParams { id_commitment: ANN, age_verified: false, jurisdiction_allowed: false };
    assert_eq!(register_user(&mut state, taken, NOW), Err(Error::UserAlreadyRegistered));
    let minor =
        RegisterUserParams { id_commitment: BEN, age_verified: false, jurisdiction_allowed: false };
    assert_eq!(register_user(&mut state, minor, NOW), Err(Error::AgeNotVerified));
    let abroad =
        RegisterUserParams { id_commitment: BEN, age_verified: true, jurisdiction_allowed: false };
    assert_eq!(register_user(&mut state, abroad, NOW), Err(Error::JurisdictionNotAllowed));
    assert_eq!(state.user_count(), 1);
    assert_eq!(state.events().len(), 1);
    assert_eq!(get_user_state(&state, BEN), Err(Error::UserNotFound));
}

#[test]
fn validate_bet_needs_a_registered_user() {
    let state = registry_with(&[ANN]);
    assert_eq!(validate_bet(&state, bet(BEN, 1), NOW), Err(Error::UserNotFound));
}

#[test]
fn validate_bet_allows_up_to_the_daily_limit() {
    let state = registry_with(&[ANN]);
    assert_eq!(validate_bet(&state, bet(ANN, 500_000_000), NOW), Ok(allowed()));
    assert_eq!(
        validate_bet(&state, bet(ANN, 500_000_001), NOW),
        Ok(denied("Would exceed daily limit"))
    );
    assert_eq!(validate_bet(&state, bet(ANN, 0), NOW), Ok(allowed()));
}

#[test]
fn validate_bet_counts_what_was_spent() {
    let mut state = registry_with(&[ANN]);
    record_bet(&mut state, bet(ANN, 200_000_000), NOW + 5).unwrap();
    assert_eq!(validate_bet(&state, bet(ANN, 300_000_000), NOW + 6), Ok(allowed()));
    assert_eq!(
        validate_bet(&state, bet(ANN, 300_000_001), NOW + 6),
        Ok(denied("Would exceed daily limit"))
    );
}

#[test]
fn validate_bet_checks_each_limit_in_turn() {
    let mut state = registry_with(&[ANN]);
    let limits = BettingLimits {
        daily_limit: 100,
        weekly_limit: 100,
        monthly_limit: 100,
        single_bet_limit: 50,
        cooldown_period: 0,
    };
    set_limits(&mut state, SetLimitsParams { id_commitment: ANN, limits }, NOW).unwrap();
    assert_eq!(validate_bet(&state, bet(ANN, 51), NOW), Ok(denied("Exceeds single bet limit")));
    assert_eq!(validate_bet(&state, bet(ANN, 50), NOW), Ok(allowed()));

    let mut user = get_user_state(&state, ANN).unwrap();
    user.limits.single_bet_limit = 1_000;
    user.spending.daily_spent = 10;
    user.spending.weekly_spent = 95;
    user.spending.monthly_spent = 99;
    assert_eq!(check_bet(&user, 100, NOW), Some(Denial::DailyLimit));
    assert_eq!(check_bet(&user, 6, NOW), Some(Denial::WeeklyLimit));
    assert_eq!(check_bet(&user, 2, NOW), Some(Denial::MonthlyLimit));
    assert_eq!(check_bet(&user, 1, NOW), None);
    assert_eq!(check_bet(&user, 1_001, NOW), Some(Denial::SingleBetLimit));
}

#[test]
fn spending_that_would_overflow_exceeds_every_limit() {
    let mut user = get_user_state(&registry_with(&[ANN]), ANN).unwrap();
    user.limits = BettingLimits {
        daily_limit: u64::MAX,
        weekly_limit: u64::MAX,
        monthly_limit: u64::MAX,
        single_bet_limit: u64::MAX,
        cooldown_period: 0,
    };
    user.spending.daily_spent = u64::MAX;
    assert_eq!(check_bet(&user, 1, NOW), Some(Denial::DailyLimit));
    assert_eq!(check_bet(&user, 0, NOW), None);
}

#[test]
fn cooldown_is_counted_in_whole_seconds() {
    let mut user = get_user_state(&registry_with(&[ANN]), ANN).unwrap();
    user.limits.cooldown_period = 60;
    user.last_bet_timestamp = NOW;
    assert_eq!(check_bet(&user, 1, NOW), Some(Denial::Cooldown));
    assert_eq!(check_bet(&user, 1, NOW + 59_999), Some(Denial::Cooldown));
    assert_eq!(check_bet(&user, 1, NOW + 60_000), None);
    assert_eq!(check_bet(&user, 1, NOW - 1), Some(Denial::Cooldown));
    user.limits.cooldown_period = 0;
    assert_eq!(check_bet(&user, 1, NOW - 1), None);
}

#[test]
fn self_exclusion_holds_until_its_expiry() {
    let mut state = registry_with(&[ANN]);
    let params = SelfExclusionParams { id_commitment: ANN, duration_days: 7 };
    let expiry = NOW + 7 * 86_400_000;
    assert!(excludable(&state, params, NOW));
    assert_eq!(self_exclude(&mut state, params, NOW), Ok(()));
    assert_eq!(
        state.events().last(),
        Some(&RGEvent::SelfExcluded {
            id_commitment: ANN,
            duration_days: 7,
            expiry,
            timestamp: NOW,
        })
    );
    let user = get_user_state(&state, ANN).unwrap();
    assert!(user.self_excluded);
    assert_eq!(user.self_exclusion_expiry, Some(expiry));
    assert_eq!(validate_bet(&state, bet(ANN, 1), NOW), Ok(denied("Self-excluded")));
    assert_eq!(validate_bet(&state, bet(ANN, 1), expiry - 1), Ok(denied("Self-excluded")));
    assert_eq!(validate_bet(&state, bet(ANN, 1), expiry), Ok(allowed()));
}

#[test]
fn self_exclusion_comes_before_the_other_checks() {
    let mut user = get_user_state(&registry_with(&[ANN]), ANN).unwrap();
    user.self_excluded = true;
    user.self_exclusion_expiry = Some(NOW + 1);
    user.limits.cooldown_period = 60;
    assert_eq!(check_bet(&user, u64::MAX, NOW), Some(Denial::SelfExcluded));
    user.self_exclusion_expiry = None;
    assert_eq!(check_bet(&user, 1, NOW), Some(Denial::Cooldown));
}

#[test]
fn self_exclude_needs_a_registered_user() {
    let mut state = registry_with(&[ANN]);
    let params = SelfExclusionParams { id_commitment: BEN, duration_days: 1 };
    assert!(!excludable(&state, params, NOW));
    assert_eq!(self_exclude(&mut state, params, NOW), Err(Error::UserNotFound));
}

#[test]
fn excludable_tells_when_the_expiry_does_not_fit() {
    let state = registry_with(&[ANN]);
    let params = SelfExclusionParams { id_commitment: ANN, duration_days: 1 };
    assert!(excludable(&state, params, u64::MAX - 86_400_000));
    assert!(!excludable(&state, params, u64::MAX - 86_399_999));
    let longest = SelfExclusionParams { id_commitment: ANN, duration_days: u32::MAX };
    assert!(excludable(&state, longest, NOW));
}

#[test]
fn record_bet_adds_to_all_three_totals() {
    let mut state = registry_with(&[ANN, BEN]);
    assert!(recordable(&state, bet(BEN, 40)));
    assert_eq!(record_bet(&mut state, bet(BEN, 40), NOW + 9), Ok(()));
    assert_eq!(
        state.events().last(),
        Some(&RGEvent::BetRecorded { id_commitment: BEN, amount: 40, timestamp: NOW + 9 })
    );
    record_bet(&mut state, bet(BEN, 2), NOW + 10).unwrap();
    let ben = get_user_state(&state, BEN).unwrap();
    assert_eq!(ben.spending.daily_spent, 42);
    assert_eq!(ben.spending.weekly_spent, 42);
    assert_eq!(ben.spending.monthly_spent, 42);
    assert_eq!(ben.spending.daily_reset_time, NOW);
    assert_eq!(ben.last_bet_timestamp, NOW + 10);
    let ann = get_user_state(&state, ANN).unwrap();
    assert_eq!(ann.spending.daily_spent, 0);
    assert_eq!(ann.last_bet_timestamp, NOW);
}

#[test]
fn record_bet_needs_a_registered_user() {
    let mut state = registry_with(&[ANN]);
    assert!(!recordable(&state, bet(BEN, 1)));
    assert_eq!(record_bet(&mut state, bet(BEN, 1), NOW), Err(Error::UserNotFound));
}

#[test]
fn recordable_tells_when_a_total_would_run_over() {
    let mut state = registry_with(&[ANN]);
    record_bet(&mut state, bet(ANN, 10), NOW).unwrap();
    assert!(recordable(&state, bet(ANN, u64::MAX - 10)));
    assert!(!recordable(&state, bet(ANN, u64::MAX - 9)));
}

#[test]
fn set_limits_needs_ordered_limits() {
    let mut state = registry_with(&[ANN]);
    let before = get_user_state(&state, ANN);
    let daily_over_weekly = BettingLimits {
        daily_limit: 11,
        weekly_limit: 10,
        monthly_limit: 20,
        single_bet_limit: 5,
        cooldown_period: 0,
    };
    let params = SetLimitsParams { id_commitment: ANN, limits: daily_over_weekly };
    assert_eq!(set_limits(&mut state, params, NOW), Err(Error::InvalidLimits));
    let weekly_over_monthly = BettingLimits { daily_limit: 1, weekly_limit: 21, ..daily_over_weekly };
    let params = SetLimitsParams { id_commitment: ANN, limits: weekly_over_monthly };
    assert_eq!(set_limits(&mut state, params, NOW), Err(Error::InvalidLimits));
    assert_eq!(get_user_state(&state, ANN), before);
    let unknown = SetLimitsParams { id_commitment: BEN, limits: daily_over_weekly };
    assert_eq!(set_limits(&mut state, unknown, NOW), Err(Error::InvalidLimits));
}

#[test]
fn set_limits_replaces_the_limits() {
    let mut state = registry_with(&[ANN]);
    let limits = BettingLimits {
        daily_limit: 10,
        weekly_limit: 10,
        monthly_limit: 10,
        single_bet_limit: 500,
        cooldown_period: 30,
    };
    let params = SetLimitsParams { id_commitment: ANN, limits };
    assert_eq!(set_limits(&mut state, params, NOW + 1), Ok(()));
    assert_eq!(
        state.events().last(),
        Some(&RGEvent::LimitSet { id_commitment: ANN, limits, timestamp: NOW + 1 })
    );
    let user = get_user_state(&state, ANN).unwrap();
    assert_eq!(user.limits, limits);
    assert_eq!(user.registered_at, NOW);
    let unknown = SetLimitsParams { id_commitment: BEN, limits };
    assert_eq!(set_limits(&mut state, unknown, NOW), Err(Error::UserNotFound));
    assert_eq!(state.events().len(), 2);
}

#[test]
fn report_words_each_denial() {
    assert_eq!(report(None), allowed());
    assert_eq!(report(Some(Denial::SelfExcluded)), denied("Self-excluded"));
    assert_eq!(report(Some(Denial::Cooldown)), denied("Cooldown period active"));
    assert_eq!(report(Some(Denial::SingleBetLimit)), denied("Exceeds single bet limit"));
    assert_eq!(report(Some(Denial::DailyLimit)), denied("Would exceed daily limit"));
    assert_eq!(report(Some(Denial::WeeklyLimit)), denied("Would exceed weekly limit"));
    assert_eq!(report(Some(Denial::MonthlyLimit)), denied("Would exceed monthly limit"));
}

#[test]
fn same_identity_compares_all_bytes() {
    assert!(same_identity(&ANN, &ANN));
    assert!(!same_identity(&ANN, &BEN));
    let mut last = ANN;
    last[63] = 0;
    assert!(!same_identity(&ANN, &last));
}

#[test]
fn admit_user_decides_in_order() {
    let good =
        RegisterUserParams { id_commitment: ANN, age_verified: true, jurisdiction_allowed: true };
    let user = admit_user(false, &good, NOW).unwrap();
    assert_eq!(user.id_commitment, ANN);
    assert_eq!(user.registered_at, NOW);
    assert_eq!(user.limits.daily_limit, 500_000_000);
    assert_eq!(user.risk_level, RiskLevel::Low);
    assert_eq!(admit_user(true, &good, NOW), Err(Error::UserAlreadyRegistered));
    let minor = RegisterUserParams { age_verified: false, ..good };
    assert_eq!(admit_user(false, &minor, NOW), Err(Error::AgeNotVerified));
    let abroad = RegisterUserParams { jurisdiction_allowed: false, ..good };
    assert_eq!(admit_user(false, &abroad, NOW), Err(Error::JurisdictionNotAllowed));
    let neither = RegisterUserParams { age_verified: false, ..abroad };
    assert_eq!(admit_user(false, &neither, NOW), Err(Error::AgeNotVerified));
}

#[test]
fn add_bet_adds_where_the_totals_fit() {
    let good =
        RegisterUserParams { id_commitment: ANN, age_verified: true, jurisdiction_allowed: true };
    let mut user = admit_user(false, &good, NOW).unwrap();
    user.spending.weekly_spent = 5;
    user.spending.monthly_spent = u64::MAX - 7;
    assert!(spending_fits(&user, 7));
    assert!(!spending_fits(&user, 8));
    add_bet(&mut user, 7, NOW + 3);
    assert_eq!(user.spending.daily_spent, 7);
    assert_eq!(user.spending.weekly_spent, 12);
    assert_eq!(user.spending.monthly_spent, u64::MAX);
    assert_eq!(user.last_bet_timestamp, NOW + 3);
    assert_eq!(user.registered_at, NOW);
    assert!(spending_fits(&user, 0));
    assert!(!spending_fits(&user, 1));
}

#[test]
fn limits_are_ordered_compares_neighbours() {
    let limits = BettingLimits {
        daily_limit: 1,
        weekly_limit: 1,
        monthly_limit: 1,
        single_bet_limit: 9,
        cooldown_period: 0,
    };
    assert!(limits_are_ordered(&limits));
    assert!(limits_are_ordered(&BettingLimits { weekly_limit: 2, monthly_limit: 3, ..limits }));
    assert!(!limits_are_ordered(&BettingLimits { daily_limit: 2, ..limits }));
    assert!(!limits_are_ordered(&BettingLimits { weekly_limit: 2, ..limits }));
    assert!(!limits_are_ordered(&BettingLimits { daily_limit: 3, monthly_limit: 5, ..limits }));
}

#[test]
fn expiry_of_counts_days_in_milliseconds() {
    assert_eq!(expiry_of(NOW, 0), Some(NOW));
    assert_eq!(expiry_of(NOW, 1), Some(NOW + 86_400_000));
    assert_eq!(expiry_of(NOW, 30), Some(NOW + 2_592_000_000));
    assert_eq!(expiry_of(0, u32::MAX), Some(4_294_967_295 * 86_400_000));
    assert_eq!(expiry_of(u64::MAX, 0), Some(u64::MAX));
    assert_eq!(expiry_of(u64::MAX, 1), None);
    assert_eq!(expiry_of(u64::MAX - 86_400_000, 1), Some(u64::MAX));
}

#[test]
fn exclude_until_sets_flag_and_expiry() {
    let good =
        RegisterUserParams { id_commitment: ANN, age_verified: true, jurisdiction_allowed: true };
    let mut user = admit_user(false, &good, NOW).unwrap();
    let before = user;
    exclude_until(&mut user, NOW + 5);
    assert_eq!(
        user,
        UserState { self_excluded: true, self_exclusion_expiry: Some(NOW + 5), ..before }
    );
}
