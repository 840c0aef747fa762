use sagahalla_dao::voting_power::{governance_voting_power, project_voting_power, scaled_share};

#[test]
fn primary_component_example() {
    assert_eq!(scaled_share(100_000, 1_000_000, 6), Some(100_000));
    assert_eq!(scaled_share(50_000, 1_000_000, 6), Some(50_000));
    assert_eq!(governance_voting_power(100_000, 50_000, 1_000_000, 1_000_000), Some(150_000));
}

#[test]
fn scaled_share_rounds_down() {
    assert_eq!(scaled_share(1, 3, 6), Some(333_333));
    assert_eq!(scaled_share(2, 3, 2), Some(66));
    assert_eq!(scaled_share(7, 7, 6), Some(1_000_000));
    assert_eq!(scaled_share(0, 5, 6), Some(0));
}

#[test]
fn scaled_share_large_values() {
    // The product would overflow a u128, the share does not.
    let whole = u128::MAX;
    let part = u128::MAX / 2;
    assert_eq!(scaled_share(part, whole, 6), Some(499_999));
    assert_eq!(scaled_share(u128::MAX, 1, 0), Some(u128::MAX));
    assert_eq!(scaled_share(u128::MAX, 1, 6), None);
    assert_eq!(scaled_share(u128::MAX / 1_000_000, 1, 6), Some(u128::MAX / 1_000_000 * 1_000_000));
}

#[test]
fn governance_power_zero_denominators() {
    assert_eq!(governance_voting_power(10, 10, 0, 10), Some(0));
    assert_eq!(governance_voting_power(10, 10, 10, 0), Some(0));
    assert_eq!(governance_voting_power(u128::MAX, u128::MAX, 0, 0), Some(0));
}

#[test]
fn governance_power_overflow() {
    assert_eq!(governance_voting_power(u128::MAX, 0, 1, 1), None);
    assert_eq!(governance_voting_power(u128::MAX / 1_000_000, u128::MAX / 1_000_000, 1, 1), None);
}

#[test]
fn project_power_examples() {
    assert_eq!(project_voting_power(40, 100), 40);
    assert_eq!(project_voting_power(1, 3), 33);
    assert_eq!(project_voting_power(0, 0), 0);
    assert_eq!(project_voting_power(u128::MAX, u128::MAX), 100);
}
