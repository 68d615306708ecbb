use zetamac::testconfig::TestConfig;

fn config(ends: [i32; 8], time_limit: u64) -> TestConfig {
    TestConfig {
        add_min_a: ends[0],
        add_max_a: ends[1],
        add_min_b: ends[2],
        add_max_b: ends[3],
        mul_min_a: ends[4],
        mul_max_a: ends[5],
        mul_min_b: ends[6],
        mul_max_b: ends[7],
        time_limit,
    }
}

#[test]
fn default_has_the_first_values() {
    let c = TestConfig::default();
    assert_eq!(c, config([2, 100, 2, 100, 2, 12, 2, 100], 120));
}

#[test]
fn default_ranges_are_ordered() {
    let c = TestConfig::default();
    assert!(c.add_min_a <= c.add_max_a);
    assert!(c.add_min_b <= c.add_max_b);
    assert!(c.mul_min_a <= c.mul_max_a);
    assert!(c.mul_min_b <= c.mul_max_b);
    assert!(c.is_generable());
}

#[test]
fn get_reads_each_place() {
    let c = config([1, 2, 3, 4, 5, 6, 7, 8], 9);
    for index in 0..9 {
        assert_eq!(c.get(index), index as i32 + 1);
    }
    assert_eq!(c.get(9), 0);
    assert_eq!(c.get(10), 0);
    assert_eq!(c.get(usize::MAX), 0);
}

#[test]
fn get_cuts_the_time_limit_to_32_bits() {
    assert_eq!(config([0; 8], 2_147_483_647).get(8), i32::MAX);
    assert_eq!(config([0; 8], 2_147_483_648).get(8), i32::MIN);
    assert_eq!(config([0; 8], 4_294_967_296 + 5).get(8), 5);
    assert_eq!(config([0; 8], u64::MAX).get(8), -1);
}

#[test]
fn set_writes_each_place_and_no_other() {
    for index in 0..9 {
        let mut c = config([1, 2, 3, 4, 5, 6, 7, 8], 9);
        c.set(index, 77);
        for other in 0..9 {
            let expected = if other == index { 77 } else { other as i32 + 1 };
            assert_eq!(c.get(other), expected);
        }
    }
}

#[test]
fn set_past_the_settings_does_nothing() {
    let before = config([1, 2, 3, 4, 5, 6, 7, 8], 9);
    for index in [9, 10, 100, usize::MAX] {
        let mut c = before;
        c.set(index, 77);
        assert_eq!(c, before);
    }
}

#[test]
fn set_does_not_check_the_value() {
    let mut c = TestConfig::default();
    c.set(0, -5);
    assert_eq!(c.add_min_a, -5);
    c.set(1, -50);
    assert_eq!(c.add_max_a, -50);
    c.set(8, 45);
    assert_eq!(c.time_limit, 45);
    c.set(8, -1);
    assert_eq!(c.time_limit, u64::MAX);
}

#[test]
fn remaining_counts_down_to_zero() {
    let c = config([0; 8], 120);
    assert_eq!(c.remaining_after(0), 120);
    assert_eq!(c.remaining_after(1), 119);
    assert_eq!(c.remaining_after(119), 1);
    assert_eq!(c.remaining_after(120), 0);
    assert_eq!(c.remaining_after(121), 0);
    assert_eq!(c.remaining_after(u64::MAX), 0);
    assert_eq!(config([0; 8], 0).remaining_after(0), 0);
    assert_eq!(config([0; 8], u64::MAX).remaining_after(1), u64::MAX - 1);
}

#[test]
fn generable_wants_ordered_ranges() {
    assert!(config([2, 100, 2, 100, 2, 12, 2, 100], 120).is_generable());
    assert!(config([5, 5, 5, 5, 5, 5, 5, 5], 1).is_generable());
    assert!(!config([101, 100, 2, 100, 2, 12, 2, 100], 120).is_generable());
    assert!(!config([2, 100, 101, 100, 2, 12, 2, 100], 120).is_generable());
    assert!(!config([2, 100, 2, 100, 13, 12, 2, 100], 120).is_generable());
    assert!(!config([2, 100, 2, 100, 2, 12, 101, 100], 120).is_generable());
}

#[test]
fn generable_wants_a_divisor() {
    assert!(config([0, 0, 0, 0, 0, 0, -5, 1], 1).is_generable());
    assert!(!config([0, 0, 0, 0, 0, 0, -5, 0], 1).is_generable());
    assert!(!config([0, 0, 0, 0, 0, 0, -5, -1], 1).is_generable());
    assert!(config([0, 0, 0, 0, 0, 0, 1, 1], 1).is_generable());
}

#[test]
fn generable_wants_sums_and_products_in_32_bits() {
    let m = i32::MAX;
    assert!(config([0, m, 0, 0, 1, 1, 1, 1], 1).is_generable());
    assert!(!config([0, m, 0, 1, 1, 1, 1, 1], 1).is_generable());
    assert!(!config([i32::MIN, 0, -1, 0, 1, 1, 1, 1], 1).is_generable());
    assert!(config([0, 0, 0, 0, 1, 46340, 1, 46340], 1).is_generable());
    assert!(!config([0, 0, 0, 0, 1, 46341, 1, 46341], 1).is_generable());
    assert!(!config([0, 0, 0, 0, -46341, 1, 1, 46342], 1).is_generable());
    assert!(config([0, 0, 0, 0, i32::MIN, 0, 1, 1], 1).is_generable());
    assert!(!config([0, 0, 0, 0, i32::MIN, 0, -1, 1], 1).is_generable());
}
