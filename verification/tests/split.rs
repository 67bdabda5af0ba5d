use rcli::split;

#[test]
fn split_half_of_thousand() {
    assert_eq!(split(1000, 50), (500, 500));
}

#[test]
fn split_adds_up_for_every_percentage_and_boundary_amount() {
    let amounts = [0u64, 1, 2, 99, 100, 101, 1000, 1 << 32, u64::MAX - 1, u64::MAX];
    for amount in amounts {
        for percent in 0..=100u8 {
            let (kept, revoked) = split(amount, percent);
            assert_eq!(kept as u128 + revoked as u128, amount as u128);
            assert_eq!(kept as u128, amount as u128 * percent as u128 / 100);
        }
    }
}

#[test]
fn split_rounds_the_kept_amount_down() {
    assert_eq!(split(999, 50), (499, 500));
    assert_eq!(split(1, 99), (0, 1));
    assert_eq!(split(3, 34), (1, 2));
}

#[test]
fn split_keeps_everything_at_hundred_percent() {
    assert_eq!(split(u64::MAX, 100), (u64::MAX, 0));
    assert_eq!(split(0, 100), (0, 0));
}

#[test]
fn split_revokes_everything_at_zero_percent() {
    assert_eq!(split(u64::MAX, 0), (0, u64::MAX));
    assert_eq!(split(0, 0), (0, 0));
}

#[test]
fn split_of_the_largest_amount() {
    assert_eq!(split(u64::MAX, 50), (9223372036854775807, 9223372036854775808));
    assert_eq!(split(u64::MAX, 1), (184467440737095516, 18262276632972456099));
}
