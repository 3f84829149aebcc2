use bpf_disasm::text::{
    push_dec, push_dec_signed, push_hex, push_hex_lit, push_reg, push_signed_hex, to_tabbed,
    u32_bits, u64_bits,
};

#[test]
fn decimal_digits() {
    let mut s = String::from("n=");
    push_dec(&mut s, 0);
    push_dec(&mut s, 1234567890);
    assert_eq!(s, "n=01234567890");
    let mut m = String::new();
    push_dec(&mut m, u64::MAX);
    assert_eq!(m, u64::MAX.to_string());
}

#[test]
fn signed_decimal() {
    let mut s = String::new();
    push_dec_signed(&mut s, -42);
    push_dec_signed(&mut s, 7);
    assert_eq!(s, "-427");
    let mut m = String::new();
    push_dec_signed(&mut m, i64::MIN);
    assert_eq!(m, i64::MIN.to_string());
}

#[test]
fn hex_digits() {
    let mut s = String::new();
    push_hex(&mut s, 0xdeadbeef);
    assert_eq!(s, "deadbeef");
    let mut t = String::new();
    push_hex_lit(&mut t, 0);
    push_hex_lit(&mut t, u64::MAX);
    assert_eq!(t, "0x00xffffffffffffffff");
}

#[test]
fn registers_and_offsets() {
    let mut s = String::new();
    push_reg(&mut s, 10);
    push_signed_hex(&mut s, 255);
    push_signed_hex(&mut s, -255);
    push_signed_hex(&mut s, i16::MIN);
    assert_eq!(s, "r10+0xff-0xff-0x8000");
}

#[test]
fn bit_patterns() {
    assert_eq!(u32_bits(-1), u32::MAX);
    assert_eq!(u32_bits(i32::MIN), 0x8000_0000);
    assert_eq!(u32_bits(5), 5);
    assert_eq!(u64_bits(-2), u64::MAX - 1);
    assert_eq!(u64_bits(i64::MIN), 1 << 63);
}

#[test]
fn spaces_become_tabs() {
    assert_eq!(to_tabbed("jeq r1, 0x0, +0x2"), "jeq\tr1,\t0x0,\t+0x2");
    assert_eq!(to_tabbed(""), "");
    assert_eq!(to_tabbed("é é"), "é\té");
}
