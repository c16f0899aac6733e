use pterodactyl::numfmt::{push_dec_i64, push_dec_u64, push_frac9};

#[test]
fn unsigned_decimal_digits() {
    let mut out: Vec<u8> = Vec::new();
    push_dec_u64(0, &mut out);
    assert_eq!(out, b"0");
    out.clear();
    push_dec_u64(42, &mut out);
    assert_eq!(out, b"42");
    out.clear();
    push_dec_u64(u64::MAX, &mut out);
    assert_eq!(out, b"18446744073709551615");
}

#[test]
fn signed_decimal_digits() {
    let mut out: Vec<u8> = Vec::new();
    push_dec_i64(-1, &mut out);
    assert_eq!(out, b"-1");
    out.clear();
    push_dec_i64(i64::MIN, &mut out);
    assert_eq!(out, b"-9223372036854775808");
    out.clear();
    push_dec_i64(7, &mut out);
    assert_eq!(out, b"7");
}

#[test]
fn fractional_digits_are_zero_padded() {
    let mut out: Vec<u8> = Vec::new();
    push_frac9(0, &mut out);
    assert_eq!(out, b"000000000");
    out.clear();
    push_frac9(5, &mut out);
    assert_eq!(out, b"000000005");
    out.clear();
    push_frac9(999_999_999, &mut out);
    assert_eq!(out, b"999999999");
    out.clear();
    push_frac9(150_000_000, &mut out);
    assert_eq!(out, b"150000000");
}
