use drift_stream::zmq::filter::{AccountFilter, Memcmp, MemcmpEncodedBytes};

const KEY: [u8; 32] = [1; 32];
const OTHER: [u8; 32] = [2; 32];
const DISCRIMINATOR: &[u8] = &[1, 2, 3, 4, 5, 6, 7, 8];
const DATA: [u8; 10] = [1, 2, 3, 4, 5, 6, 7, 8, 9, 10];

fn raw(offset: usize, bytes: &[u8]) -> Memcmp {
    Memcmp {
        offset,
        bytes: MemcmpEncodedBytes::Bytes(bytes.to_vec()),
    }
}

fn base58(offset: usize, text: &str) -> Memcmp {
    Memcmp {
        offset,
        bytes: MemcmpEncodedBytes::Base58(text.to_string()),
    }
}

fn base64(offset: usize, text: &str) -> Memcmp {
    Memcmp {
        offset,
        bytes: MemcmpEncodedBytes::Base64(text.to_string()),
    }
}

fn compares(memcmp: Memcmp, data: &[u8]) -> bool {
    AccountFilter::full().with_memcmp(memcmp).matches(&KEY, data)
}

#[test]
fn firehose_matches_all_accounts() {
    let filter = AccountFilter::firehose();
    assert!(filter.matches(&KEY, &DATA));
    assert!(filter.matches(&OTHER, &[]));
}

#[test]
fn empty_partial_and_default_match_nothing() {
    assert!(!AccountFilter::partial().matches(&KEY, &DATA));
    assert!(!AccountFilter::default().matches(&KEY, &DATA));
    assert!(AccountFilter::full().matches(&KEY, &DATA));
}

#[test]
fn accounts_are_matched_by_key() {
    for filter in [AccountFilter::full(), AccountFilter::partial()] {
        let filter = filter.with_accounts(vec![KEY, [7; 32], KEY]);
        assert!(filter.matches(&KEY, &[]));
        assert!(filter.matches(&[7; 32], &DATA));
        assert!(!filter.matches(&OTHER, &DATA));
    }
    assert!(!AccountFilter::full()
        .with_accounts(vec![])
        .matches(&KEY, &DATA));
}

#[test]
fn discriminators_are_matched_at_the_start() {
    for filter in [AccountFilter::full(), AccountFilter::partial()] {
        let filter = filter.with_discriminator(DISCRIMINATOR);
        assert!(filter.matches(&KEY, &DATA));
        assert!(filter.matches(&KEY, DISCRIMINATOR));
        assert!(!filter.matches(&KEY, &DATA[..7]));
        assert!(!filter.matches(&KEY, &DATA[1..]));
        assert!(!filter.matches(&KEY, &[]));
    }
}

#[test]
fn discriminators_of_other_lengths_match_nothing() {
    let short = AccountFilter::partial().with_discriminator(&[1, 2, 3]);
    assert!(!short.matches(&KEY, &DATA));
    assert!(!short.matches(&KEY, &[1, 2, 3]));
    let long = AccountFilter::partial().with_discriminator(&[1, 2, 3, 4, 5, 6, 7, 8, 9]);
    assert!(!long.matches(&KEY, &DATA));
}

#[test]
fn discriminator_is_a_comparison_at_the_start() {
    for data in [&DATA[..], &DATA[..8], &DATA[..7], &DATA[1..]] {
        assert_eq!(
            AccountFilter::full()
                .with_discriminator(DISCRIMINATOR)
                .matches(&KEY, data),
            compares(raw(0, DISCRIMINATOR), data)
        );
    }
}

#[test]
fn raw_bytes_are_compared_at_the_offset() {
    assert!(compares(raw(0, &[1, 2]), &DATA));
    assert!(compares(raw(8, &[9, 10]), &DATA));
    assert!(compares(raw(0, &DATA), &DATA));
    assert!(!compares(raw(1, &[1, 2]), &DATA));
    assert!(!compares(raw(9, &[10, 11]), &DATA));
    assert!(!compares(raw(11, &[1]), &DATA));
    assert!(!compares(raw(usize::MAX, &[1, 2]), &DATA));
}

#[test]
fn no_bytes_match_up_to_the_end() {
    assert!(compares(raw(0, &[]), &[]));
    assert!(compares(raw(10, &[]), &DATA));
    assert!(!compares(raw(11, &[]), &DATA));
}

#[test]
fn base58_bytes_are_decoded_and_compared() {
    assert!(compares(base58(0, "7bWpTW"), &[1, 2, 3, 4, 5]));
    assert!(compares(base58(2, "4"), &DATA));
    assert!(!compares(base58(2, "5"), &DATA));
    assert!(!compares(base58(0, "III"), &DATA));
    assert!(!compares(base58(0, "7bWpTW"), b"7bWpTW"));
}

#[test]
fn base64_bytes_are_decoded_and_compared() {
    assert!(compares(base64(0, "AQID"), &DATA));
    assert!(compares(base64(3, "BAU="), &DATA));
    assert!(!compares(base64(1, "AQID"), &DATA));
    assert!(!compares(base64(3, "BAU"), &DATA));
    assert!(!compares(base64(0, "!"), &DATA));
    assert!(!compares(base64(0, "AQID"), b"AQID"));
}

#[test]
fn full_needs_every_criterion() {
    let filter = AccountFilter::full()
        .with_accounts(vec![KEY])
        .with_discriminator(DISCRIMINATOR)
        .with_memcmp(raw(8, &[9]));
    assert!(filter.matches(&KEY, &DATA));
    assert!(!filter.matches(&OTHER, &DATA));
    assert!(!filter.matches(&KEY, &DATA[..8]));
    assert!(!filter.matches(&KEY, &[0, 2, 3, 4, 5, 6, 7, 8, 9]));
}

#[test]
fn partial_needs_one_criterion() {
    let filter = AccountFilter::partial()
        .with_accounts(vec![KEY])
        .with_discriminator(DISCRIMINATOR)
        .with_memcmp(raw(8, &[9]));
    assert!(filter.matches(&KEY, &[]));
    assert!(filter.matches(&OTHER, &DATA[..8]));
    assert!(filter.matches(&OTHER, &[0, 2, 3, 4, 5, 6, 7, 8, 9]));
    assert!(!filter.matches(&OTHER, &[0; 9]));
}

#[test]
fn what_full_matches_partial_matches() {
    for key in [KEY, OTHER] {
        for data in [&DATA[..], &DATA[..8], &DATA[..2]] {
            let full = AccountFilter::full()
                .with_accounts(vec![KEY])
                .with_discriminator(DISCRIMINATOR);
            let partial = AccountFilter::partial()
                .with_accounts(vec![KEY])
                .with_discriminator(DISCRIMINATOR);
            assert!(!full.matches(&key, data) || partial.matches(&key, data));
        }
    }
}

#[test]
fn criteria_narrow_full_and_widen_partial() {
    let full = AccountFilter::full().with_accounts(vec![KEY]);
    assert!(full.matches(&KEY, &[]));
    assert!(!full.with_memcmp(raw(0, &[1])).matches(&KEY, &[]));
    let partial = AccountFilter::partial().with_accounts(vec![KEY]);
    assert!(!partial.matches(&OTHER, &DATA));
    assert!(partial.with_memcmp(raw(0, &[1])).matches(&OTHER, &DATA));
}

#[test]
fn the_last_setting_stands() {
    let filter = AccountFilter::full()
        .with_accounts(vec![KEY])
        .with_accounts(vec![OTHER]);
    assert!(!filter.matches(&KEY, &[]));
    assert!(filter.matches(&OTHER, &[]));
}

#[test]
fn a_known_comparison_is_taken_as_given() {
    let filter = AccountFilter::full().with_memcmp(raw(0, &[1]));
    assert!(filter.matches_given(&KEY, &[], true));
    assert!(!filter.matches_given(&KEY, &DATA, false));
    let filter = AccountFilter::partial().with_memcmp(raw(0, &[1]));
    assert!(filter.matches_given(&KEY, &[], true));
    assert!(!AccountFilter::partial().matches_given(&KEY, &[], true));
}

#[test]
fn clones_of_filters_match_the_same() {
    let filter = AccountFilter::full()
        .with_accounts(vec![KEY, [3; 32]])
        .with_memcmp(base58(2, "4"));
    let copy = filter.clone();
    for key in [KEY, OTHER, [3; 32]] {
        assert_eq!(copy.matches(&key, &DATA), filter.matches(&key, &DATA));
    }
    assert!(copy.matches(&[3; 32], &DATA));
}
