//! Hexadecimal quantity codec.
//!
//! JSON-RPC quantities arrive as `0x`-prefixed base-16 strings.  This module
//! decodes them into `i128` values (rejecting non-hex characters and values
//! too wide for the target width) and encodes non-negative `i128` values back
//! into `0x`-prefixed form.

use vstd::prelude::*;

verus! {

/// A hex quantity that cannot be decoded: a character outside the
/// hexadecimal alphabet remained, or the value does not fit in 128 bits.
#[derive(Clone, Copy, PartialEq, Eq, Structural, Debug)]
pub struct HexError;

pub open spec fn is_hex_digit(c: char) -> bool {
    ('0' <= c && c <= '9') || ('a' <= c && c <= 'f') || ('A' <= c && c <= 'F')
}

/// Numeric value of one hexadecimal digit character.
pub open spec fn hex_digit_value(c: char) -> int {
    if '0' <= c && c <= '9' {
        c as int - '0' as int
    } else if 'a' <= c && c <= 'f' {
        c as int - 'a' as int + 10
    } else {
        c as int - 'A' as int + 10
    }
}

pub open spec fn all_hex(s: Seq<char>) -> bool {
    forall|i: int| 0 <= i < s.len() ==> is_hex_digit(#[trigger] s[i])
}

/// Value of a big-endian sequence of hexadecimal digits; the empty sequence
/// has value zero.
pub open spec fn hex_value(s: Seq<char>) -> int
    decreases s.len(),
{
    if s.len() == 0 {
        0
    } else {
        hex_value(s.drop_last()) * 16 + hex_digit_value(s.last())
    }
}

/// One leading `0x` removed, if present; otherwise the sequence unchanged.
pub open spec fn strip_0x(s: Seq<char>) -> Seq<char> {
    if s.len() >= 2 && s[0] == '0' && s[1] == 'x' {
        s.skip(2)
    } else {
        s
    }
}

/// The digits of a wire quantity (after prefix removal) are hexadecimal and
/// the value fits in an `i128`.
pub open spec fn quantity_ok(s: Seq<char>) -> bool {
    all_hex(strip_0x(s)) && hex_value(strip_0x(s)) <= i128::MAX
}

/// Decoded value of a wire quantity, after prefix removal.
pub open spec fn quantity_value(s: Seq<char>) -> int {
    hex_value(strip_0x(s))
}

pub proof fn lemma_hex_value_nonneg(s: Seq<char>)
    requires
        all_hex(s),
    ensures
        hex_value(s) >= 0,
    decreases s.len(),
{
    if s.len() > 0 {
        assert(is_hex_digit(s.last()));
        assert(forall|i: int| 0 <= i < s.drop_last().len() ==> is_hex_digit(
            #[trigger] s.drop_last()[i],
        ));
        lemma_hex_value_nonneg(s.drop_last());
    }
}

/// The value of a prefix of a digit sequence never exceeds the value of the
/// whole sequence.
pub proof fn lemma_hex_value_take_le(s: Seq<char>, k: int)
    requires
        all_hex(s),
        0 <= k <= s.len(),
    ensures
        hex_value(s.take(k)) <= hex_value(s),
    decreases s.len(),
{
    if k == s.len() {
        assert(s.take(k) =~= s);
    } else {
        assert(forall|i: int| 0 <= i < s.drop_last().len() ==> is_hex_digit(
            #[trigger] s.drop_last()[i],
        ));
        lemma_hex_value_take_le(s.drop_last(), k);
        assert(s.take(k) =~= s.drop_last().take(k));
        lemma_hex_value_nonneg(s.drop_last());
        assert(is_hex_digit(s.last()));
    }
}

/// Decodes a base-16 string to an `i128`.  When `with_prefix` is set, one
/// leading `0x` is first removed (a no-op if absent).  Fails when a character
/// outside `[0-9a-fA-F]` remains or the value does not fit; an empty string
/// (after prefix removal) decodes to zero.
pub fn hex_to_decimals(hex: &String, with_prefix: bool) -> (r: Result<i128, HexError>)
    ensures
        ({
            let t = if with_prefix {
                strip_0x(hex@)
            } else {
                hex@
            };
            match r {
                Ok(v) => all_hex(t) && hex_value(t) <= i128::MAX && v == hex_value(t),
                Err(_) => !(all_hex(t) && hex_value(t) <= i128::MAX),
            }
        }),
{
    let s: &str = hex.as_str();
    let n: usize = s.unicode_len();
    let mut start: usize = 0;
    if with_prefix && n >= 2 && s.get_char(0) == '0' && s.get_char(1) == 'x' {
        start = 2;
    }
    let ghost t: Seq<char> = if with_prefix {
        strip_0x(hex@)
    } else {
        hex@
    };
    proof {
        assert(s@.subrange(start as int, n as int) =~= t);
    }
    let mut acc: u128 = 0;
    let mut i: usize = start;
    while i < n
        invariant
            start <= i <= n,
            n == s@.len(),
            s@ == hex@,
            t == s@.subrange(start as int, n as int),
            t == (if with_prefix {
                strip_0x(hex@)
            } else {
                hex@
            }),
            all_hex(s@.subrange(start as int, i as int)),
            acc == hex_value(s@.subrange(start as int, i as int)),
            acc <= i128::MAX as u128,
        decreases n - i,
    {
        let c = s.get_char(i);
        let u = c as u32;
        let d: u32 = if u >= 48 && u <= 57 {
            u - 48
        } else if u >= 97 && u <= 102 {
            u - 97 + 10
        } else if u >= 65 && u <= 70 {
            u - 65 + 10
        } else {
            proof {
                assert(!is_hex_digit(c));
                assert(t[i - start] == s@[i as int]);
                assert(!all_hex(t));
            }
            return Err(HexError);
        };
        proof {
            assert(is_hex_digit(c));
            assert(d == hex_digit_value(c));
            assert(s@.subrange(start as int, i as int + 1).drop_last() =~= s@.subrange(
                start as int,
                i as int,
            ));
            assert(s@.subrange(start as int, i as int + 1).last() == s@[i as int]);
        }
        let limit: u128 = ((i128::MAX as u128) - d as u128) / 16;
        if acc > limit {
            proof {
                assert(acc * 16 + d > i128::MAX) by (nonlinear_arith)
                    requires
                        acc > (i128::MAX as u128 - d as u128) / 16,
                        d < 16,
                        acc >= 0,
                ;
                if all_hex(t) {
                    assert(s@.subrange(start as int, i as int + 1) =~= t.take(i + 1 - start));
                    lemma_hex_value_take_le(t, i + 1 - start);
                    assert(hex_value(t.take(i + 1 - start)) == acc * 16 + d);
                    assert(hex_value(t) > i128::MAX);
                }
                assert(!(all_hex(t) && hex_value(t) <= i128::MAX));
            }
            return Err(HexError);
        }
        proof {
            assert(acc * 16 + d <= i128::MAX) by (nonlinear_arith)
                requires
                    acc <= (i128::MAX as u128 - d as u128) / 16,
                    d < 16,
                    acc >= 0,
            ;
            assert forall|j: int| 0 <= j < i + 1 - start implies is_hex_digit(
                #[trigger] s@.subrange(start as int, i as int + 1)[j],
            ) by {
                if j < i - start {
                    assert(s@.subrange(start as int, i as int + 1)[j] == s@.subrange(
                        start as int,
                        i as int,
                    )[j]);
                } else {
                    assert(s@.subrange(start as int, i as int + 1)[j] == s@[i as int]);
                }
            }
        }
        acc = acc * 16 + d as u128;
        i = i + 1;
    }
    proof {
        assert(s@.subrange(start as int, i as int) =~= t);
    }
    Ok(acc as i128)
}

/// The character for one hexadecimal digit value, in lower case.
pub open spec fn hex_digit_char(d: int) -> char {
    if d == 0 {
        '0'
    } else if d == 1 {
        '1'
    } else if d == 2 {
        '2'
    } else if d == 3 {
        '3'
    } else if d == 4 {
        '4'
    } else if d == 5 {
        '5'
    } else if d == 6 {
        '6'
    } else if d == 7 {
        '7'
    } else if d == 8 {
        '8'
    } else if d == 9 {
        '9'
    } else if d == 10 {
        'a'
    } else if d == 11 {
        'b'
    } else if d == 12 {
        'c'
    } else if d == 13 {
        'd'
    } else if d == 14 {
        'e'
    } else {
        'f'
    }
}

/// Minimal big-endian hexadecimal digit sequence for a value; zero is `0`.
pub open spec fn hex_digits(n: nat) -> Seq<char>
    decreases n,
{
    if n < 16 {
        seq![hex_digit_char(n as int)]
    } else {
        hex_digits(n / 16).push(hex_digit_char((n % 16) as int))
    }
}

pub proof fn lemma_hex_digits_wellformed(n: nat)
    ensures
        hex_digits(n).len() >= 1,
        all_hex(hex_digits(n)),
        hex_value(hex_digits(n)) == n,
    decreases n,
{
    if n < 16 {
        let s = hex_digits(n);
        let c = hex_digit_char(n as int);
        assert(s.len() == 1);
        assert(is_hex_digit(s[0]));
        assert(s.drop_last() =~= Seq::<char>::empty());
        assert(s.last() == c);
        assert(hex_value(Seq::<char>::empty()) == 0);
        assert(hex_digit_value(c) == n);
        assert(hex_value(s) == 0 * 16 + hex_digit_value(c));
    } else {
        lemma_hex_digits_wellformed(n / 16);
        let base = hex_digits(n / 16);
        let c = hex_digit_char((n % 16) as int);
        let s = base.push(c);
        assert(s.drop_last() =~= base);
        assert(s.last() == c);
        assert(forall|i: int| 0 <= i < s.len() - 1 ==> #[trigger] s[i] == base[i]);
        assert(hex_digit_value(c) == n % 16);
        assert(hex_value(s) == (n / 16) * 16 + n % 16);
        assert((n / 16) * 16 + n % 16 == n) by (nonlinear_arith);
    }
}

fn hex_digit_str(d: u8) -> (r: &'static str)
    requires
        d < 16,
    ensures
        r@ == seq![hex_digit_char(d as int)],
{
    let r: &'static str = if d == 0 {
        "0"
    } else if d == 1 {
        "1"
    } else if d == 2 {
        "2"
    } else if d == 3 {
        "3"
    } else if d == 4 {
        "4"
    } else if d == 5 {
        "5"
    } else if d == 6 {
        "6"
    } else if d == 7 {
        "7"
    } else if d == 8 {
        "8"
    } else if d == 9 {
        "9"
    } else if d == 10 {
        "a"
    } else if d == 11 {
        "b"
    } else if d == 12 {
        "c"
    } else if d == 13 {
        "d"
    } else if d == 14 {
        "e"
    } else {
        "f"
    };
    proof {
        reveal_strlit("0");
        reveal_strlit("1");
        reveal_strlit("2");
        reveal_strlit("3");
        reveal_strlit("4");
        reveal_strlit("5");
        reveal_strlit("6");
        reveal_strlit("7");
        reveal_strlit("8");
        reveal_strlit("9");
        reveal_strlit("a");
        reveal_strlit("b");
        reveal_strlit("c");
        reveal_strlit("d");
        reveal_strlit("e");
        reveal_strlit("f");
        assert(r@ =~= seq![hex_digit_char(d as int)]);
    }
    r
}

fn push_hex_digits(n: u128, out: &mut String)
    ensures
        final(out)@ == old(out)@ + hex_digits(n as nat),
    decreases n,
{
    if n < 16 {
        out.append(hex_digit_str(n as u8));
    } else {
        push_hex_digits(n / 16, out);
        out.append(hex_digit_str((n % 16) as u8));
        proof {
            assert(hex_digits((n / 16) as nat).push(hex_digit_char((n % 16) as int)) =~= hex_digits(
                (n / 16) as nat,
            ) + seq![hex_digit_char((n % 16) as int)]);
            assert(old(out)@ + hex_digits((n / 16) as nat) + seq![
                hex_digit_char((n % 16) as int),
            ] =~= old(out)@ + hex_digits(n as nat));
        }
    }
}

/// Encodes a non-negative value as a minimal `0x`-prefixed lower-case hex
/// string; zero encodes as `0x0`.
pub fn decimals_to_hex(value: i128) -> (r: String)
    requires
        0 <= value,
    ensures
        r@ == seq!['0', 'x'] + hex_digits(value as nat),
{
    let mut out = String::from_str("0x");
    proof {
        reveal_strlit("0x");
        assert(out@ =~= seq!['0', 'x']);
    }
    push_hex_digits(value as u128, &mut out);
    out
}

/// Round-trip law: decoding a hex string, re-encoding the value, and decoding
/// again yields the first decoded value.
pub proof fn lemma_decode_encode_round_trip(h: Seq<char>)
    requires
        quantity_ok(h),
    ensures
        quantity_ok(seq!['0', 'x'] + hex_digits(quantity_value(h) as nat)),
        quantity_value(seq!['0', 'x'] + hex_digits(quantity_value(h) as nat)) == quantity_value(h),
{
    lemma_hex_value_nonneg(strip_0x(h));
    let n = quantity_value(h) as nat;
    lemma_hex_digits_wellformed(n);
    let e = seq!['0', 'x'] + hex_digits(n);
    assert(e[0] == '0');
    assert(e[1] == 'x');
    assert(e.skip(2) =~= hex_digits(n));
}

} // verus!
