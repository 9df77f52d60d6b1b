//! Numbers written in the source: the value of a string of digits, parsing
//! into machine integers, and arbitrary-size naturals.
use vstd::prelude::*;
use vstd::string::StrSliceExecFns;
use num_bigint::BigUint;
use vstd::arithmetic::power::pow;

verus! {

pub open spec fn is_decimal_digit(c: char) -> bool {
    '0' <= c && c <= '9'
}

pub open spec fn is_hex_digit(c: char) -> bool {
    ('0' <= c && c <= '9') || ('a' <= c && c <= 'f') || ('A' <= c && c <= 'F')
}

/// The value of one digit in any radix up to sixteen.
pub open spec fn digit_value(c: char) -> nat {
    if '0' <= c && c <= '9' {
        (c as int - '0' as int) as nat
    } else if 'a' <= c && c <= 'f' {
        (c as int - 'a' as int + 10) as nat
    } else if 'A' <= c && c <= 'F' {
        (c as int - 'A' as int + 10) as nat
    } else {
        0
    }
}

/// A nonempty string of decimal digits.
pub open spec fn is_decimal(s: Seq<char>) -> bool {
    s.len() > 0 && forall|i: int| 0 <= i < s.len() ==> is_decimal_digit(#[trigger] s[i])
}

/// A nonempty string of hexadecimal digits.
pub open spec fn is_hex(s: Seq<char>) -> bool {
    s.len() > 0 && forall|i: int| 0 <= i < s.len() ==> is_hex_digit(#[trigger] s[i])
}

/// The value of the digits `s`, most significant first, in base `radix`.
pub open spec fn digits_value(s: Seq<char>, radix: nat) -> nat
    decreases s.len(),
{
    if s.len() == 0 {
        0
    } else {
        digits_value(s.drop_last(), radix) * radix + digit_value(s.last())
    }
}

pub open spec fn decimal_value(s: Seq<char>) -> nat {
    digits_value(s, 10)
}

pub open spec fn hex_value(s: Seq<char>) -> nat {
    digits_value(s, 16)
}

/// The value of the limbs `s` in base 2^32, least significant first.
pub open spec fn limbs_value(s: Seq<u32>) -> nat
    decreases s.len(),
{
    if s.len() == 0 {
        0
    } else {
        s[0] as nat + 0x1_0000_0000 * limbs_value(s.drop_first())
    }
}

/// A prefix of a string of digits is worth no more than the whole string.
pub proof fn lemma_digits_prefix_value(s: Seq<char>, radix: nat, i: int)
    requires
        radix >= 1,
        0 <= i <= s.len(),
    ensures
        digits_value(s.take(i), radix) <= digits_value(s, radix),
    decreases s.len() - i,
{
    if i < s.len() {
        lemma_digits_prefix_value(s, radix, i + 1);
        let p = s.take(i + 1);
        assert(p.drop_last() =~= s.take(i));
        let x = digits_value(s.take(i), radix);
        assert(x * radix + digit_value(p.last()) >= x) by (nonlinear_arith)
            requires
                radix >= 1,
        ;
    } else {
        assert(s.take(i) =~= s);
    }
}

/// An arbitrary-size natural number, as limbs in base 2^32 with the least
/// significant first.
#[derive(Debug, Clone, PartialEq, Eq)]
pub struct BigNat {
    pub digits: Vec<u32>,
}

impl View for BigNat {
    type V = nat;

    open spec fn view(&self) -> nat {
        limbs_value(self.digits@)
    }
}

impl BigNat {
    /// The number `n`, with no zero limb at the most significant end.
    pub fn from_u64(n: u64) -> (r: BigNat)
        ensures
            r@ == n,
            r.digits@.len() == 0 || r.digits@.last() != 0,
    {
        let low: u32 = (n % 0x1_0000_0000) as u32;
        let high: u32 = (n / 0x1_0000_0000) as u32;
        let mut digits: Vec<u32> = Vec::new();
        if n != 0 {
            digits.push(low);
            if high != 0 {
                digits.push(high);
            }
        }
        proof {
            reveal_with_fuel(limbs_value, 3);
            if n != 0 && high != 0 {
                assert(digits@.drop_first() =~= seq![high]);
            } else if n != 0 {
                assert(digits@.drop_first() =~= Seq::<u32>::empty());
            }
        }
        BigNat { digits }
    }
}

/// `BigUint::parse_bytes` with radix ten, whose result is read out with
/// `BigUint::to_u32_digits`. For a nonempty string of decimal digits, which
/// holds no sign and no `_` separator, the crate's documentation and source
/// give the number those digits denote, and `to_u32_digits` gives its limbs
/// in base 2^32, least significant first. Which representation of the value
/// comes back (whether zero limbs may end it) is left unsaid here.
#[verifier::external_body]
fn biguint_parse_decimal(s: &str) -> (r: Option<BigNat>)
    requires
        is_decimal(s@),
    ensures
        r is Some,
        r.unwrap()@ == decimal_value(s@),
{
    match BigUint::parse_bytes(s.as_bytes(), 10) {
        Some(b) => Some(BigNat { digits: b.to_u32_digits() }),
        None => None,
    }
}

/// The number that a nonempty string of decimal digits denotes, of any size.
pub fn parse_big_decimal(s: &str) -> (r: BigNat)
    requires
        is_decimal(s@),
    ensures
        r@ == decimal_value(s@),
{
    biguint_parse_decimal(s).unwrap()
}

/// Whether `s` is a nonempty string of decimal digits.
pub fn check_decimal(s: &str) -> (r: bool)
    ensures
        r == is_decimal(s@),
{
    let n = s.unicode_len();
    if n == 0 {
        return false;
    }
    let mut i: usize = 0;
    while i < n
        invariant
            n == s@.len(),
            i <= n,
            forall|j: int| 0 <= j < i ==> is_decimal_digit(#[trigger] s@[j]),
        decreases n - i,
    {
        let c = s.get_char(i);
        if !('0' <= c && c <= '9') {
            return false;
        }
        i += 1;
    }
    true
}

/// Whether `s` is a nonempty string of hexadecimal digits.
pub fn check_hex(s: &str) -> (r: bool)
    ensures
        r == is_hex(s@),
{
    let n = s.unicode_len();
    if n == 0 {
        return false;
    }
    let mut i: usize = 0;
    while i < n
        invariant
            n == s@.len(),
            i <= n,
            forall|j: int| 0 <= j < i ==> is_hex_digit(#[trigger] s@[j]),
        decreases n - i,
    {
        let c = s.get_char(i);
        if !(('0' <= c && c <= '9') || ('a' <= c && c <= 'f') || ('A' <= c && c <= 'F')) {
            return false;
        }
        i += 1;
    }
    true
}

fn digit_to_u64(c: char) -> (r: u64)
    ensures
        r == digit_value(c),
        r < 16,
{
    if '0' <= c && c <= '9' {
        (c as u32 - '0' as u32) as u64
    } else if 'a' <= c && c <= 'f' {
        (c as u32 - 'a' as u32 + 10) as u64
    } else if 'A' <= c && c <= 'F' {
        (c as u32 - 'A' as u32 + 10) as u64
    } else {
        0
    }
}

/// The value of a string of digits in base ten or sixteen, where it fits in
/// a `u64`.
pub fn parse_u64(s: &str, radix: u64) -> (r: Option<u64>)
    requires
        radix == 10 || radix == 16,
    ensures
        r is Some <==> digits_value(s@, radix as nat) <= u64::MAX,
        r matches Some(v) ==> v == digits_value(s@, radix as nat),
{
    let n = s.unicode_len();
    let mut acc: u64 = 0;
    let mut i: usize = 0;
    assert(s@.take(0) =~= Seq::<char>::empty());
    while i < n
        invariant
            n == s@.len(),
            i <= n,
            radix == 10 || radix == 16,
            acc == digits_value(s@.take(i as int), radix as nat),
        decreases n - i,
    {
        let c = s.get_char(i);
        let d = digit_to_u64(c);
        let ghost next = s@.take(i + 1);
        assert(next.drop_last() =~= s@.take(i as int));
        assert(next.last() == c);
        let scaled = acc.checked_mul(radix);
        match scaled {
            Some(m) => {
                let added = m.checked_add(d);
                match added {
                    Some(v) => {
                        acc = v;
                    },
                    None => {
                        proof {
                            lemma_digits_prefix_value(s@, radix as nat, i + 1);
                        }
                        return None;
                    },
                }
            },
            None => {
                proof {
                    lemma_digits_prefix_value(s@, radix as nat, i + 1);
                    assert(acc * radix + digit_value(c) >= acc * radix) by (nonlinear_arith);
                }
                return None;
            },
        }
        i += 1;
    }
    assert(s@.take(n as int) =~= s@);
    Some(acc)
}


/// The first digit of a string of digits is the most significant: it
/// counts `radix` to the power of the number of digits after it.
pub proof fn lemma_leading_digit(c: char, s: Seq<char>, radix: nat)
    ensures
        digits_value(seq![c] + s, radix) == digit_value(c) * pow(radix as int, s.len())
            + digits_value(s, radix),
    decreases s.len(),
{
    reveal(pow);
    let t = seq![c] + s;
    if s.len() == 0 {
        assert(t.drop_last() =~= Seq::<char>::empty());
        assert(t.last() == c);
        let z = digits_value(t.drop_last(), radix) as int;
        assert(z == 0);
        assert(z * radix == 0) by (nonlinear_arith)
            requires
                z == 0,
        ;
        let d = digit_value(c) as int;
        assert(pow(radix as int, 0) == 1);
        assert(d * pow(radix as int, 0) == d) by (nonlinear_arith)
            requires
                pow(radix as int, 0) == 1,
        ;
    } else {
        let init = s.drop_last();
        assert(t.drop_last() =~= seq![c] + init);
        assert(t.last() == s.last());
        lemma_leading_digit(c, init, radix);
        let p = pow(radix as int, init.len());
        assert(pow(radix as int, s.len()) == radix * p);
        let d = digit_value(c) as int;
        let v = digits_value(init, radix) as int;
        assert((d * p + v) * radix == d * (radix * p) + v * radix) by (nonlinear_arith);
        assert(digits_value(t, radix) == digits_value(seq![c] + init, radix) * radix + digit_value(
            s.last(),
        ));
        assert(digits_value(s, radix) == v * radix + digit_value(s.last()));
    }
}

/// Zeros in front of a string of digits do not change its value.
pub proof fn lemma_leading_zero(s: Seq<char>, radix: nat)
    ensures
        digits_value(seq!['0'] + s, radix) == digits_value(s, radix),
{
    lemma_leading_digit('0', s, radix);
    let d = digit_value('0') as int;
    let p = pow(radix as int, s.len());
    assert(d == 0);
    assert(d * p == 0) by (nonlinear_arith)
        requires
            d == 0,
    ;
}

} // verus!
