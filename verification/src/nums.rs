//! Decimal text for the scalar field types of the wire forms.
//!
//! The flattened form carries integers and booleans as text. These spec
//! functions define the grammar (optional sign, decimal digits; `true` /
//! `false`), and the executable formatters and parsers are proved against
//! them, including the range checks the fixed-width integer types force.

use vstd::prelude::*;

verus! {

pub open spec fn is_digit(c: char) -> bool {
    48 <= c as u32 <= 57
}

pub open spec fn digit_val(c: char) -> int {
    c as u32 - 48
}

pub open spec fn dchar(d: int) -> char {
    ((48 + d) as u8) as char
}

pub open spec fn all_digits(s: Seq<char>) -> bool {
    forall|i: int| 0 <= i < s.len() ==> is_digit(#[trigger] s[i])
}

/// Value of a digit string read in base ten.
pub open spec fn digits_val(s: Seq<char>) -> int
    decreases s.len(),
{
    if s.len() == 0 {
        0
    } else {
        digits_val(s.drop_last()) * 10 + digit_val(s.last())
    }
}

/// The integer a token denotes: an optional sign, then at least one digit.
/// `None` for any other shape.
pub open spec fn parse_int(s: Seq<char>) -> Option<int> {
    if s.len() == 0 {
        None
    } else {
        let neg = s[0] == '-';
        let ds = if s[0] == '-' || s[0] == '+' {
            s.drop_first()
        } else {
            s
        };
        if ds.len() == 0 || !all_digits(ds) {
            None
        } else if neg {
            Some(-digits_val(ds))
        } else {
            Some(digits_val(ds))
        }
    }
}

pub open spec fn parse_i64_spec(s: Seq<char>) -> Option<i64> {
    match parse_int(s) {
        Some(v) => if i64::MIN <= v <= i64::MAX {
            Some(v as i64)
        } else {
            None
        },
        None => None,
    }
}

pub open spec fn parse_i32_spec(s: Seq<char>) -> Option<i32> {
    match parse_int(s) {
        Some(v) => if i32::MIN <= v <= i32::MAX {
            Some(v as i32)
        } else {
            None
        },
        None => None,
    }
}

/// Decimal digits of a non-negative integer, most significant first.
pub open spec fn u_dec(n: int) -> Seq<char>
    decreases n,
{
    if n < 10 {
        seq![dchar(n)]
    } else {
        u_dec(n / 10).push(dchar(n % 10))
    }
}

/// Canonical decimal text of an integer: a `-` sign for negatives, no sign
/// otherwise, no leading zeros.
pub open spec fn i64_dec(n: int) -> Seq<char> {
    if n < 0 {
        seq!['-'] + u_dec(-n)
    } else {
        u_dec(n)
    }
}

pub open spec fn bool_str(b: bool) -> Seq<char> {
    if b {
        "true"@
    } else {
        "false"@
    }
}

pub open spec fn parse_bool_spec(s: Seq<char>) -> Option<bool> {
    if s == "true"@ {
        Some(true)
    } else if s == "false"@ {
        Some(false)
    } else {
        None
    }
}

pub proof fn lemma_u_dec_digits(n: int)
    requires
        n >= 0,
    ensures
        u_dec(n).len() >= 1,
        all_digits(u_dec(n)),
        digits_val(u_dec(n)) == n,
    decreases n,
{
    if n < 10 {
        assert(u_dec(n) == seq![dchar(n)]);
        assert(seq![dchar(n)].drop_last() =~= Seq::<char>::empty());
        assert(seq![dchar(n)].last() == dchar(n));
        assert(digits_val(Seq::<char>::empty()) == 0);
        assert(digit_val(dchar(n)) == n);
        assert(digits_val(seq![dchar(n)]) == digits_val(Seq::<char>::empty()) * 10 + digit_val(
            dchar(n),
        ));
    } else {
        lemma_u_dec_digits(n / 10);
        let s = u_dec(n);
        assert(s == u_dec(n / 10).push(dchar(n % 10)));
        assert(s.drop_last() =~= u_dec(n / 10));
        assert(s.last() == dchar(n % 10));
        assert(digit_val(dchar(n % 10)) == n % 10);
        assert(digits_val(s) == (n / 10) * 10 + n % 10);
        assert((n / 10) * 10 + n % 10 == n) by (nonlinear_arith);
        assert forall|i: int| 0 <= i < s.len() implies is_digit(s[i]) by {
            if i < s.len() - 1 {
                assert(s[i] == u_dec(n / 10)[i]);
            }
        }
    }
}

/// Formatted integers parse back to the value they were made from.
pub proof fn lemma_parse_i64_dec(n: i64)
    ensures
        parse_i64_spec(i64_dec(n as int)) == Some(n),
        parse_i32_spec(i64_dec(n as int)) == (if i32::MIN <= n <= i32::MAX {
            Some(n as i32)
        } else {
            None::<i32>
        }),
{
    let s = i64_dec(n as int);
    if n >= 0 {
        lemma_u_dec_digits(n as int);
        assert(is_digit(s[0]));
        assert(s[0] != '-' && s[0] != '+');
        assert(parse_int(s) == Some(n as int));
    } else {
        lemma_u_dec_digits(-(n as int));
        assert(s[0] == '-');
        assert(s.drop_first() =~= u_dec(-(n as int)));
        assert(s.drop_first().len() >= 1);
        assert(parse_int(s) == Some(-digits_val(u_dec(-(n as int)))));
        assert(parse_int(s) == Some(n as int));
    }
}

/// Decimal text never holds a comma, so it travels whole in the flat form.
pub proof fn lemma_i64_dec_no_comma(n: int)
    ensures
        crate::strutil::no_comma(i64_dec(n)),
{
    let m: int = if n < 0 {
        -n
    } else {
        n
    };
    lemma_u_dec_digits(m);
    let s = i64_dec(n);
    assert forall|i: int| 0 <= i < s.len() implies s[i] != ',' by {
        if n < 0 {
            if i > 0 {
                assert(s[i] == u_dec(m)[i - 1]);
                assert(is_digit(s[i]));
            }
        } else {
            assert(is_digit(s[i]));
        }
    }
}

pub proof fn lemma_bool_str_no_comma(b: bool)
    ensures
        crate::strutil::no_comma(bool_str(b)),
        parse_bool_spec(bool_str(b)) == Some(b),
{
    reveal_strlit("true");
    reveal_strlit("false");
    assert("true"@.len() == 4);
    assert("false"@.len() == 5);
}

pub proof fn lemma_digits_val_take_succ(s: Seq<char>, k: int)
    requires
        0 <= k < s.len(),
    ensures
        digits_val(s.take(k + 1)) == digits_val(s.take(k)) * 10 + digit_val(s[k]),
{
    assert(s.take(k + 1).drop_last() =~= s.take(k));
    assert(s.take(k + 1).last() == s[k]);
}

pub proof fn lemma_digits_val_nonneg(s: Seq<char>)
    requires
        all_digits(s),
    ensures
        digits_val(s) >= 0,
    decreases s.len(),
{
    if s.len() > 0 {
        assert forall|i: int| 0 <= i < s.drop_last().len() implies is_digit(
            #[trigger] s.drop_last()[i],
        ) by {
            assert(s.drop_last()[i] == s[i]);
        }
        lemma_digits_val_nonneg(s.drop_last());
        assert(digits_val(s.drop_last()) * 10 >= 0) by (nonlinear_arith)
            requires
                digits_val(s.drop_last()) >= 0,
        ;
    }
}

/// A longer digit prefix never denotes a smaller value.
pub proof fn lemma_digits_val_grows(s: Seq<char>, k: int)
    requires
        all_digits(s),
        0 <= k <= s.len(),
    ensures
        digits_val(s) >= digits_val(s.take(k)),
        digits_val(s.take(k)) >= 0,
    decreases s.len() - k,
{
    assert forall|i: int| 0 <= i < s.take(k).len() implies is_digit(#[trigger] s.take(k)[i]) by {
        assert(s.take(k)[i] == s[i]);
    }
    lemma_digits_val_nonneg(s.take(k));
    if k == s.len() {
        assert(s.take(k) =~= s);
    } else {
        lemma_digits_val_take_succ(s, k);
        assert(digits_val(s.take(k)) * 10 >= digits_val(s.take(k))) by (nonlinear_arith)
            requires
                digits_val(s.take(k)) >= 0,
        ;
        lemma_digits_val_grows(s, k + 1);
    }
}

fn u64_to_string(n: u64) -> (r: String)
    ensures
        r@ == u_dec(n as int),
{
    let mut digits: Vec<char> = Vec::new();
    let mut m: u64 = n;
    while m >= 10
        invariant
            u_dec(n as int) == u_dec(m as int) + digits@.reverse(),
        decreases m,
    {
        let ghost pre = digits@;
        let d: u8 = 48 + (m % 10) as u8;
        digits.push(d as char);
        proof {
            assert(u_dec(m as int) == u_dec(m as int / 10).push(dchar(m as int % 10)));
            assert(digits@ == pre.push(dchar(m as int % 10)));
            assert(digits@.reverse() =~= seq![dchar(m as int % 10)] + pre.reverse());
            assert(u_dec(m as int / 10) + digits@.reverse() =~= u_dec(m as int) + pre.reverse());
        }
        m = m / 10;
    }
    let mut out = String::new();
    let d: u8 = 48 + m as u8;
    crate::strutil::push_char(&mut out, d as char);
    proof {
        assert(u_dec(m as int) == seq![dchar(m as int)]);
        assert(out@ =~= u_dec(m as int));
    }
    let mut i: usize = digits.len();
    while i > 0
        invariant
            i <= digits@.len(),
            u_dec(n as int) == u_dec(m as int) + digits@.reverse(),
            out@ == u_dec(m as int) + digits@.reverse().take(digits@.len() - i),
        decreases i,
    {
        let ghost pre = out@;
        i = i - 1;
        crate::strutil::push_char(&mut out, digits[i]);
        proof {
            let k = digits@.len() - 1 - i;
            assert(digits@.reverse()[k] == digits@[i as int]);
            assert(digits@.reverse().take(k + 1) =~= digits@.reverse().take(k).push(
                digits@[i as int],
            ));
            assert(out@ =~= u_dec(m as int) + digits@.reverse().take(k + 1));
        }
    }
    proof {
        assert(digits@.reverse().take(digits@.len() as int) =~= digits@.reverse());
    }
    out
}

/// Canonical decimal text of a 64-bit integer.
pub fn i64_to_string(n: i64) -> (r: String)
    ensures
        r@ == i64_dec(n as int),
{
    if n >= 0 {
        let r = u64_to_string(n as u64);
        r
    } else {
        let mag: u64 = if n == i64::MIN {
            9223372036854775808u64
        } else {
            (-n) as u64
        };
        let mut out = String::new();
        crate::strutil::push_char(&mut out, '-');
        let ds = u64_to_string(mag);
        out.append(ds.as_str());
        proof {
            assert(out@ =~= seq!['-'] + u_dec(mag as int));
        }
        out
    }
}

/// Canonical decimal text of a 32-bit integer.
pub fn i32_to_string(n: i32) -> (r: String)
    ensures
        r@ == i64_dec(n as int),
{
    i64_to_string(n as i64)
}

pub fn bool_to_string(b: bool) -> (r: String)
    ensures
        r@ == bool_str(b),
{
    if b {
        String::from_str("true")
    } else {
        String::from_str("false")
    }
}

/// The correlation text of a request serial number.
pub fn u64_corr_text(n: u64) -> (r: String)
    ensures
        r@ == "req-"@ + u_dec(n as int),
{
    let mut out = String::from_str("req-");
    let d = u64_to_string(n);
    out.append(d.as_str());
    out
}

/// Reads a 64-bit integer from a token, exactly as the decimal grammar and
/// the `i64` range allow.
pub fn parse_i64(s: &str) -> (r: Option<i64>)
    ensures
        r == parse_i64_spec(s@),
{
    let len = s.unicode_len();
    if len == 0 {
        return None;
    }
    let c0 = s.get_char(0);
    let neg = c0 == '-';
    let has_sign = neg || c0 == '+';
    let start: usize = if has_sign {
        1
    } else {
        0
    };
    let ghost ds: Seq<char> = if has_sign {
        s@.drop_first()
    } else {
        s@
    };
    if start >= len {
        return None;
    }
    let limit: u64 = if neg {
        9223372036854775808u64
    } else {
        9223372036854775807u64
    };
    let mut acc: u64 = 0;
    let mut i: usize = start;
    proof {
        assert(ds.take(0) =~= Seq::<char>::empty());
    }
    while i < len
        invariant
            len == s@.len(),
            start <= i <= len,
            start <= 1,
            len > start,
            ds == (if has_sign {
                s@.drop_first()
            } else {
                s@
            }),
            ds.len() == len - start,
            forall|j: int| 0 <= j < ds.len() ==> ds[j] == s@[j + start],
            has_sign == (s@[0] == '-' || s@[0] == '+'),
            neg == (s@[0] == '-'),
            limit == (if neg {
                9223372036854775808u64
            } else {
                9223372036854775807u64
            }),
            all_digits(ds.take(i - start)),
            acc == digits_val(ds.take(i - start)),
            acc <= limit,
        decreases len - i,
    {
        let ghost k = i - start;
        let c = s.get_char(i);
        let u = c as u32;
        proof {
            assert(ds[k] == c);
        }
        if u < 48 || u > 57 {
            proof {
                assert(!is_digit(ds[k]));
                assert(!all_digits(ds));
            }
            return None;
        }
        let d: u64 = (u - 48) as u64;
        proof {
            assert(is_digit(ds[k]));
            assert(ds.take(k + 1) =~= ds.take(k).push(ds[k]));
            assert(all_digits(ds.take(k + 1)));
            lemma_digits_val_take_succ(ds, k);
        }
        let overflow_a = acc > limit / 10;
        let mut next: u64 = 0;
        let mut overflow_b = false;
        if !overflow_a {
            next = acc * 10;
            overflow_b = next > limit - d;
        }
        if overflow_a || overflow_b {
            proof {
                assert(digits_val(ds.take(k + 1)) > limit) by (nonlinear_arith)
                    requires
                        digits_val(ds.take(k + 1)) == digits_val(ds.take(k)) * 10 + digit_val(
                            ds[k],
                        ),
                        digits_val(ds.take(k)) >= 0,
                        digit_val(ds[k]) >= 0,
                        (digits_val(ds.take(k)) > limit / 10 || digits_val(ds.take(k)) * 10
                            + digit_val(ds[k]) > limit),
                        limit == (if neg {
                            9223372036854775808u64
                        } else {
                            9223372036854775807u64
                        }),
                ;
                if all_digits(ds) {
                    lemma_digits_val_grows(ds, k + 1);
                    assert(digits_val(ds) > limit);
                }
            }
            return None;
        }
        acc = next + d;
        i += 1;
    }
    proof {
        assert(ds.take(ds.len() as int) =~= ds);
        assert(all_digits(ds));
        assert(acc == digits_val(ds));
    }
    if neg {
        if acc == 9223372036854775808u64 {
            Some(i64::MIN)
        } else {
            Some(-(acc as i64))
        }
    } else {
        Some(acc as i64)
    }
}

/// Reads a 32-bit integer from a token.
pub fn parse_i32(s: &str) -> (r: Option<i32>)
    ensures
        r == parse_i32_spec(s@),
{
    match parse_i64(s) {
        Some(v) => {
            if i32::MIN as i64 <= v && v <= i32::MAX as i64 {
                Some(v as i32)
            } else {
                None
            }
        },
        None => None,
    }
}

/// Reads a boolean from a token: exactly `true` or `false`.
pub fn parse_bool(s: &str) -> (r: Option<bool>)
    ensures
        r == parse_bool_spec(s@),
{
    if crate::strutil::str_eq(s, "true") {
        Some(true)
    } else if crate::strutil::str_eq(s, "false") {
        Some(false)
    } else {
        None
    }
}

} // verus!
