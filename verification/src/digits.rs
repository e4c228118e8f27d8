//! Decimal numerals: rendering `u64` values as decimal text (for query
//! parameters and JSON bodies) and parsing decimal byte strings (for
//! response headers).

use vstd::prelude::*;

verus! {

use vstd::string::StringExecFns;
use vstd::utf8::{encode_scalar, encode_utf8};

/// The decimal digit character for `d` (meaningful for `d < 10`).
pub open spec fn digit_char(d: nat) -> char {
    if d == 0 {
        '0'
    } else if d == 1 {
        '1'
    } else if d == 2 {
        '2'
    } else if d == 3 {
        '3'
    } else if d == 4 {
        '4'
    } else if d == 5 {
        '5'
    } else if d == 6 {
        '6'
    } else if d == 7 {
        '7'
    } else if d == 8 {
        '8'
    } else {
        '9'
    }
}

/// The decimal numeral of `n` as characters, most significant digit first,
/// with no leading zeros (a single `'0'` for zero).
pub open spec fn dec_chars(n: nat) -> Seq<char>
    decreases n,
{
    if n < 10 {
        seq![digit_char(n)]
    } else {
        dec_chars(n / 10).push(digit_char(n % 10))
    }
}

/// The decimal numeral of `n` as ASCII bytes, most significant digit first,
/// with no leading zeros (a single `b'0'` for zero).
pub open spec fn dec_bytes(n: nat) -> Seq<u8>
    decreases n,
{
    if n < 10 {
        seq![(48 + n) as u8]
    } else {
        dec_bytes(n / 10).push((48 + n % 10) as u8)
    }
}

fn digit_str(d: u64) -> (r: &'static str)
    requires
        d < 10,
    ensures
        r@ == seq![digit_char(d as nat)],
{
    proof {
        reveal_strlit("0");
        reveal_strlit("1");
        reveal_strlit("2");
        reveal_strlit("3");
        reveal_strlit("4");
        reveal_strlit("5");
        reveal_strlit("6");
        reveal_strlit("7");
        reveal_strlit("8");
        reveal_strlit("9");
    }
    let r = match d {
        0 => "0",
        1 => "1",
        2 => "2",
        3 => "3",
        4 => "4",
        5 => "5",
        6 => "6",
        7 => "7",
        8 => "8",
        _ => "9",
    };
    proof {
        assert(r@ =~= seq![digit_char(d as nat)]);
    }
    r
}

/// Render `n` as its decimal numeral.
pub fn u64_to_dec(n: u64) -> (r: String)
    ensures
        r@ == dec_chars(n as nat),
    decreases n,
{
    if n < 10 {
        digit_str(n).to_owned()
    } else {
        let mut s = u64_to_dec(n / 10);
        s.append(digit_str(n % 10));
        proof {
            assert(s@ =~= dec_chars((n / 10) as nat) + seq![digit_char((n % 10) as nat)]);
            assert(dec_chars(n as nat) =~= dec_chars((n / 10) as nat) + seq![
                digit_char((n % 10) as nat),
            ]);
        }
        s
    }
}

/// Render `n` as its decimal numeral in ASCII bytes.
pub fn u64_to_dec_bytes(n: u64) -> (r: Vec<u8>)
    ensures
        r@ == dec_bytes(n as nat),
    decreases n,
{
    if n < 10 {
        let mut v: Vec<u8> = Vec::new();
        v.push(48 + n as u8);
        proof {
            assert(v@ =~= dec_bytes(n as nat));
        }
        v
    } else {
        let mut v = u64_to_dec_bytes(n / 10);
        v.push(48 + (n % 10) as u8);
        proof {
            assert(v@ =~= dec_bytes(n as nat));
        }
        v
    }
}

/// Whether `x` is the ASCII code of a decimal digit.
pub open spec fn is_digit_byte(x: u8) -> bool {
    48 <= x <= 57
}

/// Whether every byte of `s` is a decimal digit.
pub open spec fn all_digits(s: Seq<u8>) -> bool {
    forall|i: int| 0 <= i < s.len() ==> is_digit_byte(#[trigger] s[i])
}

/// The numeric value of the decimal byte string `s` (meaningful when
/// `all_digits(s)` holds).
pub open spec fn dec_val(s: Seq<u8>) -> int
    decreases s.len(),
{
    if s.len() == 0 {
        0
    } else {
        dec_val(s.drop_last()) * 10 + s.last() - 48
    }
}

/// Whether `s` is a decimal numeral whose value fits in a `u64`.
pub open spec fn parses_u64(s: Seq<u8>) -> bool {
    s.len() > 0 && all_digits(s) && dec_val(s) <= u64::MAX
}

pub proof fn lemma_dec_val_nonneg(s: Seq<u8>)
    requires
        all_digits(s),
    ensures
        dec_val(s) >= 0,
    decreases s.len(),
{
    if s.len() > 0 {
        assert(all_digits(s.drop_last())) by {
            assert(forall|i: int| 0 <= i < s.len() - 1 ==> s.drop_last()[i] == s[i]);
        }
        lemma_dec_val_nonneg(s.drop_last());
    }
}

pub proof fn lemma_dec_val_prefix(s: Seq<u8>, i: int)
    requires
        all_digits(s),
        0 <= i <= s.len(),
    ensures
        dec_val(s.take(i)) <= dec_val(s),
    decreases s.len() - i,
{
    assert(all_digits(s.take(i)));
    lemma_dec_val_nonneg(s.take(i));
    if i < s.len() {
        assert(s.take(i + 1).drop_last() =~= s.take(i));
        assert(s.take(i + 1).last() == s[i]);
        assert(dec_val(s.take(i + 1)) == dec_val(s.take(i)) * 10 + s[i] - 48);
        assert(dec_val(s.take(i)) * 10 >= dec_val(s.take(i)));
        assert(dec_val(s.take(i)) <= dec_val(s.take(i + 1)));
        lemma_dec_val_prefix(s, i + 1);
    } else {
        assert(s.take(i) =~= s);
    }
}

proof fn lemma_encode_scalar_ascii(v: u32)
    requires
        v < 0x80,
    ensures
        encode_scalar(v) == seq![v as u8],
{
    assert((v & 0x7F) == v) by (bit_vector)
        requires
            v < 0x80,
    ;
    assert(encode_scalar(v) =~= seq![v as u8]);
}

proof fn lemma_encode_utf8_push(s: Seq<char>, c: char)
    ensures
        encode_utf8(s.push(c)) == encode_utf8(s) + encode_scalar(c as u32),
    decreases s.len(),
{
    if s.len() == 0 {
        assert(s.push(c)[0] == c);
        assert(s.push(c).drop_first() =~= Seq::<char>::empty());
        assert(encode_utf8(s.push(c)) == encode_scalar(s.push(c)[0] as u32) + encode_utf8(
            s.push(c).drop_first(),
        ));
        assert(encode_utf8(s.push(c).drop_first()) == Seq::<u8>::empty());
        assert(encode_utf8(s) == Seq::<u8>::empty());
        assert(encode_utf8(s.push(c)) =~= encode_utf8(s) + encode_scalar(c as u32));
    } else {
        assert(s.push(c)[0] == s[0]);
        assert(s.push(c).drop_first() =~= s.drop_first().push(c));
        lemma_encode_utf8_push(s.drop_first(), c);
        assert(encode_utf8(s.push(c)) =~= encode_utf8(s) + encode_scalar(c as u32));
    }
}

/// Law: the two renderings of a numeral agree. The UTF-8 bytes of the
/// characters a request carries (the `index` and `wait` parameters) are the
/// byte numeral the header parser reads.
pub proof fn lemma_dec_chars_utf8(n: nat)
    ensures
        encode_utf8(dec_chars(n)) == dec_bytes(n),
    decreases n,
{
    if n < 10 {
        let c = digit_char(n);
        let s1 = seq![c];
        assert(c as u32 == 48 + n);
        lemma_encode_scalar_ascii(c as u32);
        assert(s1[0] == c);
        assert(s1.drop_first() =~= Seq::<char>::empty());
        assert(encode_utf8(s1) == encode_scalar(s1[0] as u32) + encode_utf8(s1.drop_first()));
        assert(encode_utf8(s1.drop_first()) == Seq::<u8>::empty());
        assert(((c as u32) as u8) == (48 + n) as u8);
        assert(encode_utf8(dec_chars(n)) =~= dec_bytes(n));
    } else {
        lemma_dec_chars_utf8(n / 10);
        let c = digit_char(n % 10);
        assert(c as u32 == 48 + n % 10);
        lemma_encode_scalar_ascii(c as u32);
        lemma_encode_utf8_push(dec_chars(n / 10), c);
        assert(encode_utf8(dec_chars(n)) =~= dec_bytes(n));
    }
}

/// Law: rendering and parsing are inverse. The numeral of `n` is all
/// digits and reads back as `n`, so an index a caller took from a response
/// header and rendered into its next request names the same index.
pub proof fn lemma_dec_round_trip(n: nat)
    ensures
        all_digits(dec_bytes(n)),
        dec_val(dec_bytes(n)) == n,
    decreases n,
{
    if n < 10 {
        let s = seq![(48 + n) as u8];
        assert(dec_bytes(n) == s);
        assert(s.drop_last() =~= Seq::<u8>::empty());
        assert(dec_val(Seq::<u8>::empty()) == 0);
        assert(s.last() == (48 + n) as u8);
        assert((48 + n) as u8 == 48 + n);
        assert(dec_val(s) == n);
    } else {
        lemma_dec_round_trip(n / 10);
        let d = dec_bytes(n / 10);
        let b = (48 + n % 10) as u8;
        assert(d.push(b).drop_last() =~= d);
        assert(d.push(b).last() == b);
        assert(dec_val(d.push(b)) == dec_val(d) * 10 + b - 48);
        assert(all_digits(d.push(b))) by {
            assert(forall|i: int| 0 <= i < d.len() ==> d.push(b)[i] == d[i]);
            assert(d.push(b)[d.len() as int] == b);
        }
    }
}

/// Parse a decimal byte string into a `u64`. Returns `Some` exactly when
/// `s` is nonempty, all digits, and its value fits in a `u64`.
pub fn parse_u64(s: &[u8]) -> (r: Option<u64>)
    ensures
        r is Some <==> parses_u64(s@),
        r matches Some(v) ==> v == dec_val(s@),
{
    if s.len() == 0 {
        return None;
    }
    let mut acc: u64 = 0;
    let mut i: usize = 0;
    while i < s.len()
        invariant
            0 < s@.len(),
            i <= s@.len(),
            all_digits(s@.take(i as int)),
            acc == dec_val(s@.take(i as int)),
        decreases s@.len() - i,
    {
        let b = s[i];
        if b < 48 || b > 57 {
            proof {
                assert(!is_digit_byte(s@[i as int]));
            }
            return None;
        }
        let d: u64 = (b - 48) as u64;
        if acc > (u64::MAX - d) / 10 {
            proof {
                let t = s@.take(i as int + 1);
                assert(t.drop_last() =~= s@.take(i as int));
                assert(t.last() == s@[i as int]);
                assert(dec_val(t) == acc * 10 + d);
                assert(acc * 10 + d > u64::MAX) by (nonlinear_arith)
                    requires
                        acc > (u64::MAX - d) / 10,
                        0 <= d <= 9,
                {
                }
                if all_digits(s@) {
                    lemma_dec_val_prefix(s@, i as int + 1);
                }
            }
            return None;
        }
        proof {
            assert(acc * 10 + d <= u64::MAX) by (nonlinear_arith)
                requires
                    acc <= (u64::MAX - d) / 10,
                    0 <= d <= 9,
            {
            }
            let t = s@.take(i as int + 1);
            assert(t.drop_last() =~= s@.take(i as int));
            assert(t.last() == s@[i as int]);
        }
        acc = acc * 10 + d;
        i = i + 1;
    }
    proof {
        assert(s@.take(s@.len() as int) =~= s@);
    }
    Some(acc)
}

} // verus!
