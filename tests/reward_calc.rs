use sn_node_auth::{Money, RewardCalc};

#[test]
fn first_reward_is_32bn_nanos() {
    let age = 5;
    let prefix_len = 1;
    let reward = RewardCalc::reward_from(age, prefix_len);
    assert!(reward == Money::from_nano(32_000_000_000));
}

#[test]
fn min_reward_payable_up_to_at_least_2000bn_nodes() {
    let age = 5;
    let prefix_len = 34;
    let reward = RewardCalc::reward_from(age, prefix_len);
    assert!(reward >= Money::from_nano(1));
}

#[test]
fn reward_at_prefix_34_is_exact() {
    // 32e9 / 2^34 = 1, times 35
    assert_eq!(RewardCalc::reward_from(5, 34).as_nano(), 35);
}

#[test]
fn reward_checked_matches_reward_from() {
    let calc = RewardCalc::new();
    assert_eq!(calc.reward(5, 1), Some(Money::from_nano(32_000_000_000)));
    assert_eq!(calc.reward(0, 0), Some(Money::from_nano(1_000_000_000)));
}

#[test]
fn reward_that_overflows_is_none() {
    let calc = RewardCalc::new();
    // 2^35 units of 1e9 nanos exceed 64 bits
    assert_eq!(calc.reward(35, 0), None);
    assert_eq!(calc.reward(34, 0), Some(Money::from_nano(17_179_869_184_000_000_000)));
    // a network of 2^64 sections cannot be sized
    assert_eq!(calc.reward(5, 64), None);
    assert_eq!(calc.reward(5, 63), Some(Money::from_nano(0)));
}

#[test]
fn reward_does_not_grow_with_prefix_length() {
    let mut last = RewardCalc::reward_from(5, 0);
    assert_eq!(last.as_nano(), 32_000_000_000);
    for prefix_len in 1..40 {
        let next = RewardCalc::reward_from(5, prefix_len);
        assert!(next <= last, "prefix length {}", prefix_len);
        last = next;
    }
    assert_eq!(RewardCalc::reward_from(5, 2).as_nano(), 24_000_000_000);
}
