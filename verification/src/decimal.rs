use vstd::prelude::*;
use vstd::slice::slice_subrange;
use vstd::string::StringExecFns;

verus! {

/// The byte is one of the ASCII digits `0` to `9`.
pub open spec fn is_digit(b: u8) -> bool {
    48 <= b && b <= 57
}

/// A non-empty run of ASCII digits.
pub open spec fn is_digits(s: Seq<u8>) -> bool {
    s.len() > 0 && forall|i: int| 0 <= i < s.len() ==> is_digit(#[trigger] s[i])
}

/// The number that a run of digits writes in base ten.
pub open spec fn digits_value(s: Seq<u8>) -> nat
    decreases s.len(),
{
    if s.len() == 0 {
        0
    } else {
        digits_value(s.drop_last()) * 10 + (s.last() - 48) as nat
    }
}

/// Reads an unsigned decimal number: an optional `+`, then digits and
/// nothing else.
pub open spec fn parse_unsigned(s: Seq<u8>) -> Option<nat> {
    let digits = if s.len() > 0 && s[0] == 43 {
        s.skip(1)
    } else {
        s
    };
    if is_digits(digits) {
        Some(digits_value(digits))
    } else {
        None
    }
}

/// The digits of `n` in base ten, without leading zeros.
pub open spec fn decimal_digits(n: nat) -> Seq<u8>
    decreases n,
{
    if n < 10 {
        seq![(48 + n) as u8]
    } else {
        decimal_digits(n / 10).push((48 + n % 10) as u8)
    }
}

/// A number read back from its own digits is the number itself.
pub proof fn lemma_decimal_round_trip(n: nat)
    ensures
        is_digits(decimal_digits(n)),
        digits_value(decimal_digits(n)) == n,
        parse_unsigned(decimal_digits(n)) == Some(n),
    decreases n,
{
    let d = decimal_digits(n);
    if n < 10 {
        assert(d.drop_last() =~= Seq::<u8>::empty());
        assert(digits_value(d.drop_last()) == 0);
    } else {
        lemma_decimal_round_trip(n / 10);
        assert(d.drop_last() =~= decimal_digits(n / 10));
    }
    assert(d[0] != 43);
}

/// Reading more digits never gives a smaller number.
pub proof fn lemma_digits_value_grows(s: Seq<u8>, k: int)
    requires
        0 <= k <= s.len(),
        forall|i: int| 0 <= i < s.len() ==> is_digit(#[trigger] s[i]),
    ensures
        digits_value(s.take(k)) <= digits_value(s),
    decreases s.len(),
{
    if k < s.len() {
        lemma_digits_value_grows(s.drop_last(), k);
        assert(s.drop_last().take(k) =~= s.take(k));
    } else {
        assert(s.take(k) =~= s);
    }
}

/// Reads an unsigned decimal number that fits in `usize`.
pub fn parse_usize(bytes: &[u8]) -> (r: Option<usize>)
    ensures
        r == match parse_unsigned(bytes@) {
            Some(v) => if v <= usize::MAX { Some(v as usize) } else { None },
            None => None,
        },
{
    let n = bytes.len();
    let start: usize = if n > 0 && bytes[0] == 43 { 1 } else { 0 };
    let digits = slice_subrange(bytes, start, n);
    assert(digits@ =~= if start == 1 { bytes@.skip(1) } else { bytes@ });
    let m = digits.len();
    if m == 0 {
        return None;
    }
    let mut value: usize = 0;
    let mut i: usize = 0;
    assert(digits@.take(0) =~= Seq::<u8>::empty());
    while i < m
        invariant
            m == digits.len(),
            i <= m,
            digits@ == if bytes@.len() > 0 && bytes@[0] == 43 {
                bytes@.skip(1)
            } else {
                bytes@
            },
            forall|k: int| 0 <= k < i ==> is_digit(#[trigger] digits@[k]),
            value == digits_value(digits@.take(i as int)),
        decreases m - i,
    {
        let b = digits[i];
        if !(48 <= b && b <= 57) {
            assert(!is_digit(digits@[i as int]));
            return None;
        }
        let ghost prefix = digits@.take(i as int + 1);
        assert(prefix.drop_last() =~= digits@.take(i as int));
        assert(digits_value(prefix) == value * 10 + (b - 48));
        let next = match value.checked_mul(10) {
            Some(t) => t.checked_add((b - 48) as usize),
            None => None,
        };
        match next {
            Some(v) => {
                value = v;
            },
            None => {
                proof {
                    if is_digits(digits@) {
                        lemma_digits_value_grows(digits@, i as int + 1);
                    }
                }
                return None;
            },
        }
        i += 1;
    }
    assert(digits@.take(m as int) =~= digits@);
    Some(value)
}

/// Writes `n` in base ten.
pub fn decimal_bytes(n: usize) -> (r: Vec<u8>)
    ensures
        r@ == decimal_digits(n as nat),
{
    decimal_bytes_u64(n as u64)
}

/// Writes `n` in base ten.
pub fn decimal_bytes_u64(n: u64) -> (r: Vec<u8>)
    ensures
        r@ == decimal_digits(n as nat),
    decreases n,
{
    if n < 10 {
        let mut out: Vec<u8> = Vec::new();
        out.push(48 + n as u8);
        assert(out@ =~= decimal_digits(n as nat));
        out
    } else {
        let mut out = decimal_bytes_u64(n / 10);
        out.push(48 + (n % 10) as u8);
        out
    }
}

/// ASCII bytes as characters.
pub open spec fn ascii_text(bytes: Seq<u8>) -> Seq<char> {
    bytes.map_values(|b: u8| b as char)
}

/// A whole number in base ten, with `-` in front where it is negative.
pub open spec fn decimal_text(n: int) -> Seq<char> {
    if n < 0 {
        seq!['-'] + ascii_text(decimal_digits((-n) as nat))
    } else {
        ascii_text(decimal_digits(n as nat))
    }
}

fn digit_str(digit: u8) -> (r: &'static str)
    requires
        is_digit(digit),
    ensures
        r@ == seq![digit as char],
{
    proof {
        reveal_strlit("0");
        reveal_strlit("1");
        reveal_strlit("2");
        reveal_strlit("3");
        reveal_strlit("4");
        reveal_strlit("5");
        reveal_strlit("6");
        reveal_strlit("7");
        reveal_strlit("8");
        reveal_strlit("9");
    }
    let r = match digit {
        48 => "0",
        49 => "1",
        50 => "2",
        51 => "3",
        52 => "4",
        53 => "5",
        54 => "6",
        55 => "7",
        56 => "8",
        _ => "9",
    };
    assert(r@ =~= seq![digit as char]);
    r
}

/// Writes a whole number in base ten.
pub fn decimal_string(n: i64) -> (r: String)
    ensures
        r@ == decimal_text(n as int),
{
    let mut out = String::from_str("");
    proof {
        reveal_strlit("");
        reveal_strlit("-");
    }
    let magnitude: u64 = if n < 0 {
        out.append("-");
        if n == i64::MIN {
            9223372036854775808u64
        } else {
            (-n) as u64
        }
    } else {
        n as u64
    };
    let ghost sign = out@;
    assert(sign =~= if n < 0 { seq!['-'] } else { Seq::<char>::empty() });
    proof {
        lemma_decimal_round_trip(magnitude as nat);
    }
    let digits = decimal_bytes_u64(magnitude);
    let mut i: usize = 0;
    while i < digits.len()
        invariant
            i <= digits@.len(),
            is_digits(digits@),
            out@ == sign + ascii_text(digits@.take(i as int)),
        decreases digits@.len() - i,
    {
        out.append(digit_str(digits[i]));
        assert(ascii_text(digits@.take(i as int + 1)) =~= ascii_text(digits@.take(i as int)).push(
            digits@[i as int] as char,
        ));
        assert(out@ =~= sign + ascii_text(digits@.take(i as int + 1)));
        i += 1;
    }
    assert(digits@.take(digits@.len() as int) =~= digits@);
    assert(out@ =~= decimal_text(n as int));
    out
}

} // verus!
