use bv2av::{dec, decode, enc, encode, BiliAv, BiliBv, DecodeError};

#[test]
fn enc_works() {
    assert_eq!(BiliAv(170001).enc().get(), "17x411w7KC");
    assert_eq!(BiliAv(314).enc().get(), "1xx411c7XW");

    assert_eq!(enc(314), "1xx411c7XW".to_owned());
}

#[test]
fn dec_works() {
    assert_eq!(BiliBv("17x411w7KC".to_string()).dec().get(), 170001);
    assert_eq!(BiliBv("1xx411c7XW".to_string()).dec().get(), 314);

    assert_eq!(dec("1xx411c7XW"), 314);
}

#[test]
fn display_works() {
    assert_eq!(BiliBv("1xx411c7XW".to_string()).display(), "bv1xx411c7XW".to_string());
    assert_eq!(BiliAv(170001).display(), "av170001".to_string())
}

#[test]
fn known_vectors() {
    assert_eq!(enc(170001), "17x411w7KC".to_owned());
    assert_eq!(dec("17x411w7KC"), 170001);
    assert_eq!(decode("1xx411c7XW"), Ok(314));
}

#[test]
fn round_trip_samples() {
    for n in [0u64, 1, 314, 170001, 99999999, 2147483647] {
        assert_eq!(dec(&enc(n)), n);
    }
}

#[test]
fn round_trip_domain_edges() {
    // The largest number whose obfuscated value still fits in six
    // base-58 digits, and the smallest one past it.
    assert_eq!(enc(29498649947), "1FF4F1F7FF".to_owned());
    assert_eq!(dec("1FF4F1F7FF"), 29498649947);
    assert_eq!(encode(29498649947), Some("1FF4F1F7FF".to_owned()));
    assert_eq!(encode(29498650020), None);
    assert_eq!(encode(u64::MAX), None);
}

#[test]
fn fixed_format() {
    for n in [0u64, 1, 314, 170001, 29498649947] {
        let code = enc(n);
        assert_eq!(code.len(), 10);
        let b = code.as_bytes();
        assert_eq!(b[0], b'1');
        assert_eq!(b[3], b'4');
        assert_eq!(b[5], b'1');
        assert_eq!(b[7], b'7');
    }
}

#[test]
fn decode_ignores_template_positions() {
    // Only the six digit positions are read; the four template
    // positions may hold anything.
    assert_eq!(decode("!xx!1!c!XW"), Ok(314));
}

#[test]
fn decode_rejects_short_input() {
    assert_eq!(decode(""), Err(DecodeError::MalformedLength));
    assert_eq!(decode("1xx411c7X"), Err(DecodeError::MalformedLength));
}

#[test]
fn decode_rejects_invalid_symbol() {
    // '0' and 'O' are not alphabet symbols.
    assert_eq!(decode("17x411w7K0"), Err(DecodeError::InvalidSymbol));
    assert_eq!(decode("1Ox411c7XW"), Err(DecodeError::InvalidSymbol));
}

#[test]
fn decode_rejects_underflow() {
    // 'f' carries digit value zero, so this code sums below the offset.
    assert_eq!(decode("ffffffffff"), Err(DecodeError::Underflow));
}

#[test]
fn deterministic() {
    assert_eq!(enc(170001), enc(170001));
    assert_eq!(decode("1xx411c7XW"), decode("1xx411c7XW"));
}

#[test]
fn display_edges() {
    assert_eq!(BiliAv(0).display(), "av0".to_string());
    assert_eq!(BiliAv(u64::MAX).display(), "av18446744073709551615".to_string());
    assert_eq!(BiliBv(String::new()).display(), "bv".to_string());
}

#[test]
fn from_impls() {
    assert_eq!(BiliAv::from(170001u64).get(), 170001);
    assert_eq!(BiliBv::from("17x411w7KC").get(), "17x411w7KC");
}

#[test]
fn getters() {
    assert_eq!(BiliAv(42).get(), 42);
    assert_eq!(BiliBv("1xx411c7XW".to_string()).get(), "1xx411c7XW");
}
