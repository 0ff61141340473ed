use gamma::error::GammaError;
use gamma::oracle::{ObservationState, OBSERVATION_NUM};

#[test]
fn first_update_seeds_current_slot() {
    let mut o = ObservationState::default();
    assert_eq!(o.observations.len(), OBSERVATION_NUM);
    assert_eq!(o.update(10, 7, 9), Ok(()));
    assert!(o.initialized);
    assert_eq!(o.observation_index, 0);
    assert_eq!(o.observations[0].block_timestamp, 10);
    assert_eq!(o.observations[0].cumulative_token_0_price_x32, 0);
    assert_eq!(o.observations[0].cumulative_token_1_price_x32, 0);
}

#[test]
fn same_timestamp_twice_changes_nothing() {
    let mut o = ObservationState::default();
    o.update(10, 7, 9).unwrap();
    o.update(15, 7, 9).unwrap();
    let index = o.observation_index;
    let snapshot = o.observations.clone();
    assert_eq!(o.update(15, 1_000, 2_000), Ok(()));
    assert_eq!(o.observation_index, index);
    assert_eq!(o.observations, snapshot);
}

#[test]
fn cumulative_grows_by_price_times_elapsed() {
    let mut o = ObservationState::default();
    o.update(10, 7, 9).unwrap();
    o.update(15, 7, 9).unwrap();
    assert_eq!(o.observation_index, 1);
    assert_eq!(o.observations[1].block_timestamp, 15);
    assert_eq!(o.observations[1].cumulative_token_0_price_x32, 35);
    assert_eq!(o.observations[1].cumulative_token_1_price_x32, 45);
    o.update(18, 2, 3).unwrap();
    assert_eq!(o.observations[2].cumulative_token_0_price_x32, 41);
    assert_eq!(o.observations[2].cumulative_token_1_price_x32, 54);
}

#[test]
fn clock_going_back_changes_nothing() {
    let mut o = ObservationState::default();
    o.update(10, 7, 9).unwrap();
    assert_eq!(o.update(5, 7, 9), Ok(()));
    assert_eq!(o.observation_index, 0);
    assert_eq!(o.observations[0].block_timestamp, 10);
}

#[test]
fn cumulative_wraps_modulo_2_128() {
    let mut o = ObservationState::default();
    o.update(10, 0, 0).unwrap();
    o.observations[0].cumulative_token_0_price_x32 = u128::MAX;
    o.update(11, 2, 0).unwrap();
    assert_eq!(o.observations[1].cumulative_token_0_price_x32, 1);
}

#[test]
fn delta_overflow_fails_and_changes_nothing() {
    let mut o = ObservationState::default();
    o.update(10, 0, 0).unwrap();
    assert_eq!(o.update(12, u128::MAX, 1), Err(GammaError::MathOverflow));
    assert_eq!(o.observation_index, 0);
    assert_eq!(o.observations[1].block_timestamp, 0);
}

#[test]
fn ring_wraps_after_one_hundred_one_writes() {
    let mut o = ObservationState::default();
    let mut t: u64 = 1;
    while t <= 100 {
        o.update(t, 1, 2).unwrap();
        t += 1;
    }
    assert_eq!(o.observation_index, 99);
    assert_eq!(o.observations[0].block_timestamp, 1);
    assert_eq!(o.observations[99].block_timestamp, 100);
    assert_eq!(o.observations[99].cumulative_token_0_price_x32, 99);
    o.update(101, 1, 2).unwrap();
    assert_eq!(o.observation_index, 0);
    assert_eq!(o.observations[0].block_timestamp, 101);
    assert_eq!(o.observations[0].cumulative_token_0_price_x32, 100);
    assert_eq!(o.observations[0].cumulative_token_1_price_x32, 200);
}
