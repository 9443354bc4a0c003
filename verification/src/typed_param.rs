//! Typed extraction of route parameters: a named parameter is looked up as
//! a string and converted to an integer; absence and conversion failure are
//! indistinguishable to the caller, who turns either into a reported error
//! with the propagation combinators.

use vstd::prelude::*;

use crate::conn::{Conn, ConnView};

verus! {

pub open spec fn is_digit(c: char) -> bool {
    '0' as int <= c as int <= '9' as int
}

pub open spec fn digit_val(c: char) -> nat {
    (c as int - '0' as int) as nat
}

pub open spec fn all_digits(s: Seq<char>) -> bool {
    forall|i: int| 0 <= i < s.len() ==> is_digit(#[trigger] s[i])
}

/// The value of a digit string, most significant digit first.
pub open spec fn digits_val(s: Seq<char>) -> nat
    decreases s.len(),
{
    if s.len() == 0 {
        0
    } else {
        digits_val(s.drop_last()) * 10 + digit_val(s.last())
    }
}

/// A decimal integer: one or more digits, optionally preceded by a minus
/// sign.
pub open spec fn is_int_str(s: Seq<char>) -> bool {
    if s.len() > 0 && s[0] == '-' {
        s.len() > 1 && all_digits(s.subrange(1, s.len() as int))
    } else {
        s.len() > 0 && all_digits(s)
    }
}

pub open spec fn int_str_val(s: Seq<char>) -> int {
    if s.len() > 0 && s[0] == '-' {
        -(digits_val(s.subrange(1, s.len() as int)) as int)
    } else {
        digits_val(s) as int
    }
}

/// What parsing a parameter as an integer yields: its value if the string
/// is a decimal integer that fits in an `i64`, nothing otherwise.
pub open spec fn parse_int_spec(s: Seq<char>) -> Option<int> {
    if is_int_str(s) && i64::MIN <= int_str_val(s) <= i64::MAX {
        Option::Some(int_str_val(s))
    } else {
        Option::None
    }
}

/// A digit string is worth at least any of its prefixes.
proof fn lemma_digits_val_prefix_mono(t: Seq<char>, i: int, j: int)
    requires
        0 <= i <= j <= t.len(),
    ensures
        digits_val(t.subrange(0, i)) <= digits_val(t.subrange(0, j)),
    decreases j - i,
{
    if i < j {
        lemma_digits_val_prefix_mono(t, i, j - 1);
        assert(t.subrange(0, j).drop_last() =~= t.subrange(0, j - 1));
        let a = digits_val(t.subrange(0, j - 1));
        assert(digits_val(t.subrange(0, j)) == a * 10 + digit_val(t.subrange(0, j).last()));
        assert(a * 10 >= a);
    }
}

/// Parses a decimal integer, exactly when `parse_int_spec` has a value.
#[verifier::loop_isolation(false)]
#[verifier::rlimit(60)]
pub fn parse_i64(s: &str) -> (r: Option<i64>)
    ensures
        match parse_int_spec(s@) {
            Option::Some(n) => r matches Some(v) && v as int == n,
            Option::None => r is None,
        },
{
    let n = s.unicode_len();
    if n == 0 {
        return None;
    }
    let neg = s.get_char(0) == '-';
    let start: usize = if neg {
        1
    } else {
        0
    };
    if start == n {
        // a bare minus sign
        return None;
    }
    // the largest magnitude an i64 can carry, by sign
    let limit: u64 = if neg {
        9223372036854775808
    } else {
        9223372036854775807
    };
    let ghost digits = s@.subrange(start as int, n as int);
    let mut acc: u64 = 0;
    let mut i: usize = start;
    proof {
        assert(digits.subrange(0, 0) =~= s@.subrange(start as int, start as int));
        assert(digits_val(s@.subrange(start as int, start as int)) == 0);
    }
    while i < n
        invariant
            start <= i <= n,
            all_digits(s@.subrange(start as int, i as int)),
            acc as nat == digits_val(s@.subrange(start as int, i as int)),
            acc <= limit,
        decreases n - i,
    {
        let c = s.get_char(i);
        let cu = c as u32;
        if cu < 48 || cu > 57 {
            proof {
                assert(!is_digit(s@[i as int]));
                if is_int_str(s@) {
                    assert(is_digit(s@.subrange(start as int, n as int)[i - start]));
                }
            }
            return None;
        }
        let d: u64 = (cu - 48) as u64;
        proof {
            assert(is_digit(s@[i as int]));
            assert(d as nat == digit_val(s@[i as int]));
            assert(s@.subrange(start as int, i + 1).drop_last() =~= s@.subrange(
                start as int,
                i as int,
            ));
            assert(s@.subrange(start as int, i + 1).last() == s@[i as int]);
        }
        if acc > limit / 10 || (acc == limit / 10 && d > limit % 10) {
            proof {
                let grown = s@.subrange(start as int, i + 1);
                assert(digits_val(grown) == (acc as nat) * 10 + d as nat);
                assert(digits_val(grown) > limit as nat);
                if is_int_str(s@) {
                    assert(all_digits(digits)) by {
                        assert forall|k: int| 0 <= k < digits.len() implies is_digit(
                            #[trigger] digits[k],
                        ) by {
                            assert(digits[k] == s@[start + k]);
                        }
                    }
                    assert(grown =~= digits.subrange(0, i + 1 - start));
                    assert(digits =~= digits.subrange(0, digits.len() as int));
                    lemma_digits_val_prefix_mono(digits, i + 1 - start, digits.len() as int);
                    assert(digits_val(digits) > limit as nat);
                    if neg {
                        assert(s@.subrange(1, s@.len() as int) =~= digits);
                        assert(int_str_val(s@) < i64::MIN);
                    } else {
                        assert(digits =~= s@);
                        assert(int_str_val(s@) > i64::MAX);
                    }
                }
            }
            return None;
        }
        acc = acc * 10 + d;
        i = i + 1;
    }
    proof {
        assert(s@.subrange(start as int, n as int) =~= digits);
        assert(acc as nat == digits_val(digits));
        if neg {
            assert(s@[0] == '-');
            assert(is_int_str(s@));
            assert(int_str_val(s@) == -(acc as int));
        } else {
            assert(s@.subrange(0, n as int) =~= s@);
            assert(all_digits(s@));
            assert(is_int_str(s@));
            assert(s@.drop_last() == s@.subrange(0, n - 1));
            assert(int_str_val(s@) == acc as int);
        }
    }
    if neg {
        if acc == 9223372036854775808 {
            Some(i64::MIN)
        } else {
            Some(-(acc as i64))
        }
    } else {
        Some(acc as i64)
    }
}

/// A value of `s` as `lookup_param` finds it: the first parameter of that
/// name, front to back.
pub open spec fn lookup_param(params: Seq<(Seq<char>, Seq<char>)>, name: Seq<char>) -> Option<
    Seq<char>,
>
    decreases params.len(),
{
    if params.len() == 0 {
        Option::None
    } else if params[0].0 == name {
        Option::Some(params[0].1)
    } else {
        lookup_param(params.drop_first(), name)
    }
}

/// What extracting a typed parameter yields: nothing when the name is
/// absent, nothing when the value is no integer, and the value otherwise.
pub open spec fn typed_param_spec(params: Seq<(Seq<char>, Seq<char>)>, name: Seq<char>) -> Option<
    int,
> {
    match lookup_param(params, name) {
        Option::None => Option::None,
        Option::Some(v) => parse_int_spec(v),
    }
}

/// Typed lookup of route parameters.
pub trait TypedParamConnExt: ConnView + Sized {
    /// Looks up the named route parameter and converts it to an integer;
    /// absence and conversion failure both yield nothing, and no error is
    /// ever raised here.
    fn typed_param(&self, param: &str) -> (r: Option<i64>)
        ensures
            match typed_param_spec(self.route_params(), param@) {
                Option::Some(n) => r matches Some(v) && v as int == n,
                Option::None => r is None,
            },
    ;
}

impl TypedParamConnExt for Conn {
    #[verifier::loop_isolation(false)]
    fn typed_param(&self, param: &str) -> (r: Option<i64>) {
        let name = param.to_owned();
        let n = self.params.len();
        let ghost ps = self.route_params();
        let mut i: usize = 0;
        proof {
            assert(ps.skip(0) =~= ps);
        }
        while i < n
            invariant
                i <= n,
                lookup_param(ps.skip(i as int), param@) == lookup_param(ps, param@),
            decreases n - i,
        {
            proof {
                assert(ps.skip(i as int)[0] == ps[i as int]);
            }
            if self.params[i].0 == name {
                return parse_i64(self.params[i].1.as_str());
            }
            proof {
                assert(ps.skip(i as int).drop_first() =~= ps.skip(i + 1));
            }
            i = i + 1;
        }
        proof {
            assert(ps.skip(n as int) =~= Seq::<(Seq<char>, Seq<char>)>::empty());
        }
        None
    }
}

} // verus!
