use textnonce::entropy::random_bytes;
use textnonce::layout::time_prefix_bytes;
use textnonce::{Alphabet, ConfigError, TextNonce, Timestamp};

fn text_of(secs: i64, nanos: u32, random: &[u8], alphabet: Alphabet) -> String {
    TextNonce::from_parts(Timestamp { secs, nanos }, random, alphabet, false)
        .unwrap()
        .into_string()
}

#[test]
fn prefix_is_nanoseconds_then_seconds_little_endian() {
    let raw = time_prefix_bytes(Timestamp { secs: 0x0102030405060708, nanos: 0x0A0B0C0D });
    assert_eq!(raw, vec![0x0D, 0x0C, 0x0B, 0x0A, 8, 7, 6, 5, 4, 3, 2, 1]);
}

#[test]
fn prefix_of_small_values() {
    let raw = time_prefix_bytes(Timestamp { secs: 1, nanos: 258 });
    assert_eq!(raw, vec![2, 1, 0, 0, 1, 0, 0, 0, 0, 0, 0, 0]);
}

#[test]
fn prefix_of_negative_seconds_is_twos_complement() {
    let raw = time_prefix_bytes(Timestamp { secs: -2, nanos: 1_999_999_999 });
    assert_eq!(raw, vec![255, 147, 53, 119, 254, 255, 255, 255, 255, 255, 255, 255]);
    let raw = time_prefix_bytes(Timestamp { secs: i64::MIN, nanos: u32::MAX });
    assert_eq!(raw, vec![255, 255, 255, 255, 0, 0, 0, 0, 0, 0, 0, 128]);
}

#[test]
fn prefix_of_the_epoch_is_blank() {
    assert_eq!(time_prefix_bytes(Timestamp { secs: 0, nanos: 0 }), vec![0u8; 12]);
}

#[test]
fn text_of_the_epoch() {
    assert_eq!(text_of(0, 0, &[], Alphabet::Standard), "AAAAAAAAAAAAAAAA");
    assert_eq!(text_of(0, 0, &[], Alphabet::UrlSafe), "AAAAAAAAAAAAAAAA");
}

#[test]
fn text_of_a_given_instant() {
    assert_eq!(
        text_of(1_500_000_000, 123_456_789, &[0xfb, 0xff, 0xbe], Alphabet::Standard),
        "Fc1bBwAvaFkAAAAA+/++"
    );
    assert_eq!(
        text_of(1_500_000_000, 123_456_789, &[0xfb, 0xff, 0xbe], Alphabet::UrlSafe),
        "Fc1bBwAvaFkAAAAA-_--"
    );
}

#[test]
fn text_of_all_ones() {
    assert_eq!(text_of(-1, u32::MAX, &[], Alphabet::Standard), "////////////////");
    assert_eq!(text_of(-1, u32::MAX, &[], Alphabet::UrlSafe), "________________");
}

#[test]
fn text_of_counting_bytes() {
    let random: Vec<u8> = (0..12).collect();
    assert_eq!(
        text_of(0x0102030405060708, 0x0A0B0C0D, &random, Alphabet::Standard),
        "DQwLCggHBgUEAwIBAAECAwQFBgcICQoL"
    );
}

#[test]
fn text_with_a_leap_second_and_negative_seconds() {
    assert_eq!(text_of(-2, 1_999_999_999, &[0, 0, 0], Alphabet::Standard), "/5M1d/7/////////AAAA");
    assert_eq!(text_of(1, 258, &[255; 6], Alphabet::UrlSafe), "AgEAAAEAAAAAAAAA________");
}

#[test]
fn same_parts_give_the_same_text() {
    let stamp = Timestamp { secs: 1_700_000_000, nanos: 42 };
    let random = [9u8, 8, 7, 6, 5, 4, 3, 2, 1];
    let first = TextNonce::from_parts(stamp, &random, Alphabet::Standard, false).unwrap();
    let second = TextNonce::from_parts(stamp, &random, Alphabet::Standard, false).unwrap();
    assert_eq!(first, second);
    assert_eq!(first.as_str().len(), 28);
}

#[test]
fn same_instant_gives_the_same_first_sixteen_characters() {
    let stamp = Timestamp { secs: 1_700_000_000, nanos: 999_999_999 };
    let first = TextNonce::from_parts(stamp, &[1, 2, 3], Alphabet::Standard, false).unwrap();
    let second = TextNonce::from_parts(stamp, &[200, 100, 50, 25, 12, 6], Alphabet::Standard, false)
        .unwrap();
    let alone = TextNonce::from_parts(stamp, &[], Alphabet::Standard, false).unwrap();
    assert_eq!(&first.as_str()[..16], alone.as_str());
    assert_eq!(&second.as_str()[..16], alone.as_str());
    assert_ne!(first, second);
}

#[test]
fn another_instant_gives_another_prefix() {
    let first = text_of(1_700_000_000, 0, &[], Alphabet::Standard);
    let second = text_of(1_700_000_000, 1, &[], Alphabet::Standard);
    let third = text_of(1_700_000_001, 0, &[], Alphabet::Standard);
    assert_ne!(first, second);
    assert_ne!(first, third);
    assert_ne!(second, third);
}

#[test]
fn padding_flag_leaves_whole_groups_alone() {
    let stamp = Timestamp { secs: 77, nanos: 88 };
    let random = [10u8, 20, 30, 40, 50, 60];
    let plain = TextNonce::from_parts(stamp, &random, Alphabet::UrlSafe, false).unwrap();
    let padded = TextNonce::from_parts(stamp, &random, Alphabet::UrlSafe, true).unwrap();
    assert_eq!(plain, padded);
    assert!(!padded.as_str().contains('='));
}

#[test]
fn broken_groups_are_not_aligned() {
    let stamp = Timestamp { secs: 0, nanos: 0 };
    for padded in [false, true] {
        assert_eq!(
            TextNonce::from_parts(stamp, &[1], Alphabet::Standard, padded),
            Err(ConfigError::NotAligned)
        );
        assert_eq!(
            TextNonce::from_parts(stamp, &[1, 2], Alphabet::Standard, padded),
            Err(ConfigError::NotAligned)
        );
        assert_eq!(
            TextNonce::from_parts(stamp, &[1, 2, 3, 4], Alphabet::UrlSafe, padded),
            Err(ConfigError::NotAligned)
        );
        assert!(TextNonce::from_parts(stamp, &[1, 2, 3], Alphabet::UrlSafe, padded).is_ok());
    }
}

#[test]
fn random_bytes_come_in_the_number_asked_for() {
    for count in [0usize, 1, 3, 12, 36, 1000] {
        assert_eq!(random_bytes(count).len(), count);
    }
}

#[test]
fn random_bytes_are_drawn_afresh() {
    let first = random_bytes(32);
    let second = random_bytes(32);
    assert_ne!(first, vec![0u8; 32]);
    assert_ne!(first, second);
}

#[test]
fn other_random_bytes_give_another_text() {
    let stamp = Timestamp { secs: 1_700_000_000, nanos: 5 };
    let first = TextNonce::from_parts(stamp, &[0, 0, 0, 0, 0, 1], Alphabet::Standard, false).unwrap();
    let second = TextNonce::from_parts(stamp, &[0, 0, 0, 0, 0, 2], Alphabet::Standard, false).unwrap();
    let third = TextNonce::from_parts(stamp, &[1, 0, 0, 0, 0, 1], Alphabet::Standard, false).unwrap();
    assert_ne!(first, second);
    assert_ne!(first, third);
    assert_ne!(second, third);
    assert_eq!(&first.as_str()[..16], &second.as_str()[..16]);
}

#[test]
fn characters_after_the_sixteenth_stand_for_the_random_bytes() {
    let random = [0xfbu8, 0xff, 0xbe, 0x00, 0x10, 0x83];
    let early = TextNonce::from_parts(Timestamp { secs: 1, nanos: 2 }, &random, Alphabet::Standard, false)
        .unwrap();
    let late = TextNonce::from_parts(Timestamp { secs: 3, nanos: 4 }, &random, Alphabet::Standard, true)
        .unwrap();
    assert_eq!(&early.as_str()[16..], "+/++ABCD");
    assert_eq!(&late.as_str()[16..], "+/++ABCD");
    assert_eq!(base64::decode_config(&early.as_str()[16..], base64::STANDARD).unwrap(), random);
    assert_ne!(&early.as_str()[..16], &late.as_str()[..16]);
}

#[test]
fn no_random_bytes_is_an_empty_draw() {
    assert_eq!(random_bytes(0), Vec::<u8>::new());
}
