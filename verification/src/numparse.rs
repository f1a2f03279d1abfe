//! Decimal parsing and formatting of integer argument values.
//!
//! Marshalling converts a string-encoded argument into a typed integer by a
//! plain decimal parse with a range check against the target width; formatting
//! is the inverse on canonical representations, which is what the round-trip
//! law in this crate is stated over.

use vstd::prelude::*;

verus! {

/// The numeric value of a decimal digit character; 10 for anything that is
/// not a digit.
pub open spec fn digit_of(c: char) -> nat {
    if c == '0' {
        0
    } else if c == '1' {
        1
    } else if c == '2' {
        2
    } else if c == '3' {
        3
    } else if c == '4' {
        4
    } else if c == '5' {
        5
    } else if c == '6' {
        6
    } else if c == '7' {
        7
    } else if c == '8' {
        8
    } else if c == '9' {
        9
    } else {
        10
    }
}

pub open spec fn is_digit_char(c: char) -> bool {
    digit_of(c) < 10
}

/// The digit character for a value below ten.
pub open spec fn digit_char(d: nat) -> char {
    if d == 0 {
        '0'
    } else if d == 1 {
        '1'
    } else if d == 2 {
        '2'
    } else if d == 3 {
        '3'
    } else if d == 4 {
        '4'
    } else if d == 5 {
        '5'
    } else if d == 6 {
        '6'
    } else if d == 7 {
        '7'
    } else if d == 8 {
        '8'
    } else {
        '9'
    }
}

pub open spec fn all_digits(s: Seq<char>) -> bool {
    forall|i: int| 0 <= i < s.len() ==> is_digit_char(#[trigger] s[i])
}

/// The value of a digit string read as a base-ten numeral.
pub open spec fn digits_val(s: Seq<char>) -> nat
    decreases s.len(),
{
    if s.len() == 0 {
        0
    } else {
        digits_val(s.drop_last()) * 10 + digit_of(s.last())
    }
}

/// The canonical decimal form of an unsigned value: non-empty, digits only,
/// and no leading zero except for the single digit zero itself.
pub open spec fn is_canonical_unsigned(s: Seq<char>) -> bool {
    &&& s.len() > 0
    &&& all_digits(s)
    &&& s.len() > 1 ==> s[0] != '0'
}

/// What a decimal parse of an unsigned numeral accepts: a non-empty digit
/// string, possibly with redundant leading zeros.
pub open spec fn spec_parse_unsigned(s: Seq<char>) -> Option<nat> {
    if s.len() > 0 && all_digits(s) {
        Some(digits_val(s))
    } else {
        None
    }
}

/// What a decimal parse of a signed numeral accepts: an optional leading
/// minus sign followed by a non-empty digit string.
pub open spec fn spec_parse_signed(s: Seq<char>) -> Option<int> {
    if s.len() >= 1 && s[0] == '-' {
        match spec_parse_unsigned(s.subrange(1, s.len() as int)) {
            Some(n) => Some(-(n as int)),
            None => None,
        }
    } else {
        match spec_parse_unsigned(s) {
            Some(n) => Some(n as int),
            None => None,
        }
    }
}

/// Canonical decimal form of a signed value: the canonical unsigned form,
/// or a minus sign followed by the canonical form of a non-zero magnitude.
pub open spec fn is_canonical_signed(s: Seq<char>) -> bool {
    if s.len() >= 1 && s[0] == '-' {
        &&& is_canonical_unsigned(s.subrange(1, s.len() as int))
        &&& digits_val(s.subrange(1, s.len() as int)) >= 1
    } else {
        is_canonical_unsigned(s)
    }
}

/// The canonical digit string of an unsigned value.
pub open spec fn spec_digits(v: nat) -> Seq<char>
    decreases v,
{
    if v < 10 {
        seq![digit_char(v)]
    } else {
        spec_digits(v / 10).push(digit_char(v % 10))
    }
}

/// The canonical decimal string of a signed value.
pub open spec fn spec_signed_digits(v: int) -> Seq<char> {
    if v < 0 {
        seq!['-'] + spec_digits((-v) as nat)
    } else {
        spec_digits(v as nat)
    }
}

proof fn lemma_digits_val_take_succ(s: Seq<char>, j: int)
    requires
        0 <= j < s.len(),
    ensures
        digits_val(s.take(j + 1)) == digits_val(s.take(j)) * 10 + digit_of(s[j]),
{
    assert(s.take(j + 1).drop_last() =~= s.take(j));
    assert(s.take(j + 1).last() == s[j]);
}

/// Along a digit string, the value of a prefix never exceeds the value of
/// the whole string.
proof fn lemma_digits_val_prefix_le(s: Seq<char>, i: int)
    requires
        0 <= i <= s.len(),
    ensures
        digits_val(s.take(i)) <= digits_val(s),
    decreases s.len() - i,
{
    if i < s.len() {
        lemma_digits_val_take_succ(s, i);
        lemma_digits_val_prefix_le(s, i + 1);
    } else {
        assert(s.take(i) =~= s);
    }
}

/// Parse a non-empty digit string as an unsigned value, rejecting anything
/// that is not all digits and any value above `u128::MAX`.
pub fn parse_u128(s: &str) -> (r: Option<u128>)
    ensures
        match r {
            Some(v) => spec_parse_unsigned(s@) == Some(v as nat),
            None => match spec_parse_unsigned(s@) {
                Some(n) => n > u128::MAX,
                None => true,
            },
        },
        r is None <==> (match spec_parse_unsigned(s@) {
            Some(n) => n > u128::MAX,
            None => true,
        }),
{
    let n = s.unicode_len();
    if n == 0 {
        return None;
    }
    let mut i: usize = 0;
    let mut val: u128 = 0;
    while i < n
        invariant
            0 <= i <= n,
            n == s@.len(),
            all_digits(s@.take(i as int)),
            val as nat == digits_val(s@.take(i as int)),
        decreases n - i,
    {
        let c = s.get_char(i);
        let d: u128 = if c == '0' {
            0
        } else if c == '1' {
            1
        } else if c == '2' {
            2
        } else if c == '3' {
            3
        } else if c == '4' {
            4
        } else if c == '5' {
            5
        } else if c == '6' {
            6
        } else if c == '7' {
            7
        } else if c == '8' {
            8
        } else if c == '9' {
            9
        } else {
            proof {
                assert(!is_digit_char(s@[i as int]));
            }
            return None;
        };
        proof {
            assert(d as nat == digit_of(s@[i as int]));
            lemma_digits_val_take_succ(s@, i as int);
        }
        if val > (u128::MAX - d) / 10 {
            proof {
                assert(val * 10 + d > u128::MAX) by {
                    assert(val >= (u128::MAX - d) / 10 + 1);
                    assert(((u128::MAX - d) / 10 + 1) * 10 == ((u128::MAX - d) / 10) * 10 + 10);
                    assert(((u128::MAX - d) / 10) * 10 + 10 > u128::MAX - d) by {
                        assert(((u128::MAX - d) as int / 10) * 10 > (u128::MAX - d) - 10);
                    };
                    assert(val * 10 >= ((u128::MAX - d) / 10 + 1) * 10);
                };
                assert(digits_val(s@.take(i as int + 1)) > u128::MAX);
                lemma_digits_val_prefix_le(s@, i as int + 1);
                assert(digits_val(s@) > u128::MAX);
            }
            return None;
        }
        proof {
            assert(val * 10 + d <= u128::MAX) by {
                assert(val <= (u128::MAX - d) / 10);
                assert(val * 10 <= ((u128::MAX - d) / 10) * 10);
                assert(((u128::MAX - d) as int / 10) * 10 <= (u128::MAX - d) as int);
            };
        }
        val = val * 10 + d;
        i = i + 1;
    }
    proof {
        assert(s@.take(n as int) =~= s@);
    }
    Some(val)
}

/// Parse a signed decimal numeral: an optional leading minus sign followed
/// by digits, rejecting values outside `[i128::MIN, i128::MAX]`.
pub fn parse_i128(s: &str) -> (r: Option<i128>)
    ensures
        match r {
            Some(v) => spec_parse_signed(s@) == Some(v as int),
            None => match spec_parse_signed(s@) {
                Some(n) => n > i128::MAX || n < i128::MIN,
                None => true,
            },
        },
        r is None <==> (match spec_parse_signed(s@) {
            Some(n) => n > i128::MAX || n < i128::MIN,
            None => true,
        }),
{
    let n = s.unicode_len();
    if n >= 1 && s.get_char(0) == '-' {
        let rest = s.substring_char(1, n);
        let mag = parse_u128(rest);
        match mag {
            Some(m) => {
                if m <= i128::MAX as u128 {
                    Some(-(m as i128))
                } else if m == i128::MAX as u128 + 1 {
                    Some(i128::MIN)
                } else {
                    None
                }
            },
            None => None,
        }
    } else {
        let v = parse_u128(s);
        match v {
            Some(m) => {
                if m <= i128::MAX as u128 {
                    Some(m as i128)
                } else {
                    None
                }
            },
            None => None,
        }
    }
}

fn digit_str(d: u128) -> (r: &'static str)
    requires
        d < 10,
    ensures
        r@ =~= seq![digit_char(d as nat)],
{
    proof {
        reveal_strlit("0");
        reveal_strlit("1");
        reveal_strlit("2");
        reveal_strlit("3");
        reveal_strlit("4");
        reveal_strlit("5");
        reveal_strlit("6");
        reveal_strlit("7");
        reveal_strlit("8");
        reveal_strlit("9");
    }
    if d == 0 {
        "0"
    } else if d == 1 {
        "1"
    } else if d == 2 {
        "2"
    } else if d == 3 {
        "3"
    } else if d == 4 {
        "4"
    } else if d == 5 {
        "5"
    } else if d == 6 {
        "6"
    } else if d == 7 {
        "7"
    } else if d == 8 {
        "8"
    } else {
        "9"
    }
}

/// Format an unsigned value as its canonical digit string.
pub fn format_u128(v: u128) -> (r: String)
    ensures
        r@ == spec_digits(v as nat),
    decreases v,
{
    if v < 10 {
        let r = String::from_str(digit_str(v));
        proof {
            assert(r@ =~= spec_digits(v as nat));
        }
        r
    } else {
        let mut r = format_u128(v / 10);
        r.append(digit_str(v % 10));
        proof {
            assert(r@ =~= spec_digits(v as nat));
        }
        r
    }
}

/// Format a signed value as its canonical decimal string.
pub fn format_i128(v: i128) -> (r: String)
    ensures
        r@ == spec_signed_digits(v as int),
{
    if v >= 0 {
        let r = format_u128(v as u128);
        r
    } else {
        let mag: u128 = ((-(v + 1)) as u128) + 1;
        proof {
            assert(mag as int == -(v as int));
        }
        let mut r = String::from_str("-");
        let digits = format_u128(mag);
        r.append(digits.as_str());
        proof {
            reveal_strlit("-");
            assert(r@ =~= spec_signed_digits(v as int));
        }
        r
    }
}

/// The canonical digit string of a value is made of digits, is non-empty,
/// reads back as the same value, and carries no leading zero unless the
/// value itself is below ten.
pub proof fn lemma_spec_digits_val(v: nat)
    ensures
        all_digits(spec_digits(v)),
        spec_digits(v).len() >= 1,
        digits_val(spec_digits(v)) == v,
        v >= 1 ==> spec_digits(v)[0] != '0',
        v < 10 ==> spec_digits(v).len() == 1,
        v >= 10 ==> spec_digits(v).len() > 1,
    decreases v,
{
    if v < 10 {
        assert(spec_digits(v) =~= seq![digit_char(v)]);
        let one = seq![digit_char(v)];
        assert(one.drop_last() =~= Seq::<char>::empty());
        assert(one.last() == digit_char(v));
        assert(digits_val(one) == digits_val(one.drop_last()) * 10 + digit_of(one.last()));
        assert(digits_val(one) == digit_of(digit_char(v)));
    } else {
        lemma_spec_digits_val(v / 10);
        let pre = spec_digits(v / 10);
        let whole = pre.push(digit_char(v % 10));
        assert(whole.drop_last() =~= pre);
        assert(whole.last() == digit_char(v % 10));
        assert(digits_val(whole) == (v / 10) * 10 + digit_of(digit_char(v % 10)));
        assert(digit_of(digit_char(v % 10)) == v % 10);
        assert((v / 10) * 10 + v % 10 == v);
        assert(whole[0] == pre[0]);
    }
}

/// The canonical digit string of a value is canonical.
pub proof fn lemma_spec_digits_canonical(v: nat)
    ensures
        is_canonical_unsigned(spec_digits(v)),
{
    lemma_spec_digits_val(v);
}

/// On canonical digit strings, formatting is the left inverse of reading the
/// value back: the round trip returns the original string.
pub proof fn lemma_digits_round_trip(s: Seq<char>)
    requires
        is_canonical_unsigned(s),
    ensures
        spec_digits(digits_val(s)) == s,
    decreases s.len(),
{
    if s.len() == 1 {
        let c = s[0];
        assert(is_digit_char(c));
        assert(digits_val(s) == digits_val(s.drop_last()) * 10 + digit_of(c));
        assert(s.drop_last() =~= Seq::<char>::empty());
        assert(digits_val(s) == digit_of(c));
        assert(digit_char(digit_of(c)) == c);
        assert(spec_digits(digits_val(s)) =~= s);
    } else {
        let pre = s.drop_last();
        let c = s.last();
        assert(is_digit_char(c)) by {
            assert(s[s.len() - 1] == c);
        }
        assert(all_digits(pre)) by {
            assert(forall|i: int|
                0 <= i < pre.len() ==> pre[i] == s[i] && is_digit_char(#[trigger] s[i]));
        }
        assert(pre[0] == s[0]);
        assert(is_canonical_unsigned(pre));
        lemma_digits_round_trip(pre);
        let a = digits_val(pre);
        assert(digits_val(s) == a * 10 + digit_of(c));
        assert(a >= 1) by {
            if a == 0 {
                lemma_spec_digits_val(0);
                assert(spec_digits(0) == seq![digit_char(0)]);
                assert(pre =~= seq!['0']);
                assert(s[0] == '0');
            }
        }
        assert(digits_val(s) >= 10) by {
            assert(a * 10 >= 10);
        }
        assert(digits_val(s) / 10 == a && digits_val(s) % 10 == digit_of(c)) by {
            assert(digit_of(c) < 10);
            assert((a * 10 + digit_of(c)) / 10 == a && (a * 10 + digit_of(c)) % 10 == digit_of(
                c,
            )) by (nonlinear_arith)
                requires
                    digit_of(c) < 10 && a >= 0,
            ;
        }
        assert(digit_char(digit_of(c)) == c);
        assert(spec_digits(digits_val(s)) == pre.push(c));
        assert(pre.push(c) =~= s);
    }
}

/// Round trip on canonical signed numerals: parsing then formatting returns
/// the original string.
pub proof fn lemma_signed_round_trip(s: Seq<char>)
    requires
        is_canonical_signed(s),
    ensures
        spec_parse_signed(s) is Some,
        spec_signed_digits(spec_parse_signed(s)->Some_0) == s,
{
    if s.len() >= 1 && s[0] == '-' {
        let rest = s.subrange(1, s.len() as int);
        lemma_digits_round_trip(rest);
        let n = digits_val(rest);
        assert(spec_parse_signed(s) == Some(-(n as int)));
        assert(spec_signed_digits(-(n as int)) == seq!['-'] + spec_digits(n));
        assert(seq!['-'] + rest =~= s);
    } else {
        lemma_digits_round_trip(s);
        let n = digits_val(s);
        assert(spec_parse_signed(s) == Some(n as int));
        assert(spec_signed_digits(n as int) == spec_digits(n));
    }
}

} // verus!
