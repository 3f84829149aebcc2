//! Rendering of integers as text, the way Rust's `{}` and `{:#x}` render them.
use vstd::prelude::*;

verus! {

/// The character of a digit `d < 16` (lower-case for `a`..`f`).
pub open spec fn digit_char(d: nat) -> char {
    if d < 10 {
        (48 + d) as char
    } else {
        (87 + d) as char
    }
}

/// Decimal digits of `n`, most significant first, without leading zeros.
pub open spec fn dec_digits(n: nat) -> Seq<char>
    decreases n,
{
    if n < 10 {
        seq![digit_char(n)]
    } else {
        dec_digits(n / 10).push(digit_char(n % 10))
    }
}

/// Lower-case hexadecimal digits of `n`, most significant first, without leading zeros.
pub open spec fn hex_digits(n: nat) -> Seq<char>
    decreases n,
{
    if n < 16 {
        seq![digit_char(n)]
    } else {
        hex_digits(n / 16).push(digit_char(n % 16))
    }
}

/// Appends the digit `d` to `s`.
fn push_digit(s: &mut String, d: u64)
    requires
        d < 16,
    ensures
        final(s)@ == old(s)@.push(digit_char(d as nat)),
{
    let digits = "0123456789abcdef";
    proof {
        reveal_strlit("0123456789abcdef");
    }
    let one = digits.substring_char(d as usize, d as usize + 1);
    assert(one@ =~= seq![digit_char(d as nat)]);
    s.append(one);
}

/// Appends the decimal digits of `n` to `s`.
pub fn push_dec(s: &mut String, n: u64)
    ensures
        final(s)@ == old(s)@ + dec_digits(n as nat),
    decreases n,
{
    if n >= 10 {
        push_dec(s, n / 10);
    }
    push_digit(s, n % 10);
    assert(s@ =~= old(s)@ + dec_digits(n as nat));
}

/// Appends the lower-case hexadecimal digits of `n` to `s`.
pub fn push_hex(s: &mut String, n: u64)
    ensures
        final(s)@ == old(s)@ + hex_digits(n as nat),
    decreases n,
{
    if n >= 16 {
        push_hex(s, n / 16);
    }
    push_digit(s, n % 16);
    assert(s@ =~= old(s)@ + hex_digits(n as nat));
}

/// The two's-complement bit pattern of `v`, read as an unsigned number.
pub open spec fn bits32(v: i32) -> nat {
    if v < 0 {
        (v + 0x1_0000_0000) as nat
    } else {
        v as nat
    }
}

/// The two's-complement bit pattern of `v`, read as an unsigned number.
pub open spec fn bits64(v: i64) -> nat {
    if v < 0 {
        (v + 0x1_0000_0000_0000_0000) as nat
    } else {
        v as nat
    }
}

/// The absolute value of `v`.
pub open spec fn magnitude(v: i16) -> nat {
    if v < 0 {
        (-v) as nat
    } else {
        v as nat
    }
}

/// `n` as Rust's `{:#x}` renders an unsigned number: `0x`, then its hex digits.
pub open spec fn hex_lit(n: nat) -> Seq<char> {
    seq!['0', 'x'] + hex_digits(n)
}

/// `v` as Rust's `{}` renders a signed number.
pub open spec fn dec_signed(v: int) -> Seq<char> {
    if v < 0 {
        seq!['-'] + dec_digits((-v) as nat)
    } else {
        dec_digits(v as nat)
    }
}

/// A register operand: `r` and the register number.
pub open spec fn reg(r: u8) -> Seq<char> {
    seq!['r'] + dec_digits(r as nat)
}

/// A signed offset: `+` or `-`, then the absolute value in hex.
pub open spec fn signed_hex(v: i16) -> Seq<char> {
    (if v >= 0 {
        seq!['+']
    } else {
        seq!['-']
    }) + hex_lit(magnitude(v))
}

/// The bit pattern of `v` (see `bits32`).
pub fn u32_bits(v: i32) -> (r: u32)
    ensures
        r == bits32(v),
{
    if v >= 0 {
        v as u32
    } else {
        (v as i64 + 0x1_0000_0000) as u32
    }
}

/// The bit pattern of `v` (see `bits64`).
pub fn u64_bits(v: i64) -> (r: u64)
    ensures
        r == bits64(v),
{
    if v >= 0 {
        v as u64
    } else {
        (v - i64::MIN) as u64 + 0x8000_0000_0000_0000
    }
}

/// Appends `0x` and the hex digits of `n`.
pub fn push_hex_lit(s: &mut String, n: u64)
    ensures
        final(s)@ == old(s)@ + hex_lit(n as nat),
{
    proof {
        reveal_strlit("0x");
    }
    s.append("0x");
    push_hex(s, n);
    assert(s@ =~= old(s)@ + hex_lit(n as nat));
}

/// Appends `v` in decimal, with a leading `-` when it is negative.
pub fn push_dec_signed(s: &mut String, v: i64)
    ensures
        final(s)@ == old(s)@ + dec_signed(v as int),
{
    if v < 0 {
        proof {
            reveal_strlit("-");
        }
        s.append("-");
        push_dec(s, (-(v as i128)) as u64);
    } else {
        push_dec(s, v as u64);
    }
    assert(s@ =~= old(s)@ + dec_signed(v as int));
}

/// `s` with every space replaced by a tab.
pub open spec fn with_tabs(s: Seq<char>) -> Seq<char> {
    s.map_values(|c: char| if c == ' ' { '\t' } else { c })
}

/// `s` with every space replaced by a tab.
pub fn to_tabbed(s: &str) -> (r: String)
    ensures
        r@ == with_tabs(s@),
{
    let n = s.unicode_len();
    let mut r = String::new();
    let mut i: usize = 0;
    while i < n
        invariant
            n == s@.len(),
            i <= n,
            r@ == with_tabs(s@.take(i as int)),
        decreases n - i,
    {
        let c = s.get_char(i);
        let ghost before = r@;
        if c == ' ' {
            proof {
                reveal_strlit("\t");
            }
            r.append("\t");
            assert(r@ =~= before.push('\t'));
        } else {
            let piece = s.substring_char(i, i + 1);
            assert(piece@ =~= seq![c]);
            r.append(piece);
        }
        assert(s@.take(i + 1) =~= s@.take(i as int).push(c));
        i += 1;
        assert(r@ =~= with_tabs(s@.take(i as int)));
    }
    assert(s@.take(n as int) =~= s@);
    r
}

/// Appends the register operand `r<n>`.
pub fn push_reg(s: &mut String, r: u8)
    ensures
        final(s)@ == old(s)@ + reg(r),
{
    proof {
        reveal_strlit("r");
    }
    s.append("r");
    push_dec(s, r as u64);
    assert(s@ =~= old(s)@ + reg(r));
}

/// Appends a signed offset: `+0x..` or `-0x..`.
pub fn push_signed_hex(s: &mut String, v: i16)
    ensures
        final(s)@ == old(s)@ + signed_hex(v),
{
    if v >= 0 {
        proof {
            reveal_strlit("+");
        }
        s.append("+");
        push_hex_lit(s, v as u64);
    } else {
        proof {
            reveal_strlit("-");
        }
        s.append("-");
        push_hex_lit(s, (-(v as i32)) as u64);
    }
    assert(s@ =~= old(s)@ + signed_hex(v));
}

/// The value of a decimal or lower-case hexadecimal digit, read from its
/// character code; -1 for any other character.
pub open spec fn digit_value(c: char) -> int {
    let v = c as int;
    if 48 <= v <= 57 {
        v - 48
    } else if 97 <= v <= 102 {
        v - 87
    } else {
        -1
    }
}

/// The number that the digits `s` spell in base `base`.
pub open spec fn value_in_base(s: Seq<char>, base: int) -> int
    decreases s.len(),
{
    if s.len() == 0 {
        0
    } else {
        value_in_base(s.drop_last(), base) * base + digit_value(s.last())
    }
}

/// The hex digits of `n` are lower-case hex digits, without a leading zero
/// unless `n` is zero, and read back in base 16 they give `n`.
pub proof fn law_hex_digits(n: nat)
    ensures
        hex_digits(n).len() >= 1,
        forall|i: int|
            0 <= i < hex_digits(n).len() ==> 0 <= digit_value(#[trigger] hex_digits(n)[i]) < 16,
        n > 0 ==> hex_digits(n)[0] != '0',
        value_in_base(hex_digits(n), 16) == n,
    decreases n,
{
    if n < 16 {
        assert(digit_value(digit_char(n)) == n);
        assert(hex_digits(n).drop_last() =~= Seq::<char>::empty());
        assert(value_in_base(Seq::<char>::empty(), 16) == 0);
        assert(value_in_base(hex_digits(n), 16) == digit_value(digit_char(n)));
    } else {
        law_hex_digits(n / 16);
        let s = hex_digits(n);
        assert(s.drop_last() =~= hex_digits(n / 16));
        assert(digit_value(digit_char(n % 16)) == n % 16);
        assert(n == (n / 16) * 16 + n % 16) by (nonlinear_arith);
        assert(s.last() == digit_char(n % 16));
        assert(value_in_base(s, 16) == value_in_base(s.drop_last(), 16) * 16 + digit_value(s.last()));
        assert forall|i: int| 0 <= i < s.len() implies 0 <= digit_value(#[trigger] s[i]) < 16 by {
            if i < s.len() - 1 {
                assert(s[i] == hex_digits(n / 16)[i]);
            }
        }
    }
}

/// The decimal digits of `n` are decimal digits, without a leading zero
/// unless `n` is zero, and read back in base 10 they give `n`.
pub proof fn law_dec_digits(n: nat)
    ensures
        dec_digits(n).len() >= 1,
        forall|i: int|
            0 <= i < dec_digits(n).len() ==> 0 <= digit_value(#[trigger] dec_digits(n)[i]) < 10,
        n > 0 ==> dec_digits(n)[0] != '0',
        value_in_base(dec_digits(n), 10) == n,
    decreases n,
{
    if n < 10 {
        assert(digit_value(digit_char(n)) == n);
        assert(dec_digits(n).drop_last() =~= Seq::<char>::empty());
        assert(value_in_base(Seq::<char>::empty(), 10) == 0);
        assert(value_in_base(dec_digits(n), 10) == digit_value(digit_char(n)));
    } else {
        law_dec_digits(n / 10);
        let s = dec_digits(n);
        assert(s.drop_last() =~= dec_digits(n / 10));
        assert(digit_value(digit_char(n % 10)) == n % 10);
        assert(n == (n / 10) * 10 + n % 10) by (nonlinear_arith);
        assert(s.last() == digit_char(n % 10));
        assert(value_in_base(s, 10) == value_in_base(s.drop_last(), 10) * 10 + digit_value(s.last()));
        assert forall|i: int| 0 <= i < s.len() implies 0 <= digit_value(#[trigger] s[i]) < 10 by {
            if i < s.len() - 1 {
                assert(s[i] == dec_digits(n / 10)[i]);
            }
        }
    }
}

} // verus!
