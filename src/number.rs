use vstd::prelude::*;

verus! {

/// Whether `c` is an ASCII decimal digit.
pub open spec fn is_digit(c: char) -> bool {
    '0' <= c && c <= '9'
}

/// The digits of a numeral: the text without one leading `+`.
pub open spec fn digits_of(s: Seq<char>) -> Seq<char> {
    if s.len() > 0 && s[0] == '+' {
        s.drop_first()
    } else {
        s
    }
}

/// The value of a run of decimal digits.
pub open spec fn digits_value(d: Seq<char>) -> nat
    decreases d.len(),
{
    if d.len() == 0 {
        0
    } else {
        digits_value(d.drop_last()) * 10 + ((d.last() as u32) - ('0' as u32)) as nat
    }
}

/// Whether `s` is an optional `+` followed by one or more decimal digits.
pub open spec fn is_numeral(s: Seq<char>) -> bool {
    let d = digits_of(s);
    d.len() > 0 && forall|i: int| 0 <= i < d.len() ==> is_digit(#[trigger] d[i])
}

/// The value that a numeral stands for.
pub open spec fn numeral_value(s: Seq<char>) -> nat {
    digits_value(digits_of(s))
}

/// Whether `s` reads as a `u64`.
pub open spec fn reads_as_u64(s: Seq<char>) -> bool {
    is_numeral(s) && numeral_value(s) <= u64::MAX
}

/// The message of the integer parser's error on `s`.
pub uninterp spec fn int_error_text(s: Seq<char>) -> Seq<char>;

/// Relies on `str::parse::<u64>` (decimal `from_str_radix`): it accepts
/// exactly an optional `+` followed by ASCII digits whose value fits in a
/// `u64`, and otherwise fails with a `ParseIntError`, whose message is kept.
#[verifier::external_body]
pub(crate) fn parse_u64(s: &str) -> (r: Result<u64, String>)
    ensures
        match r {
            Ok(n) => reads_as_u64(s@) && n as nat == numeral_value(s@),
            Err(m) => !reads_as_u64(s@) && m@ == int_error_text(s@),
        },
{
    match s.parse::<u64>() {
        Ok(n) => Ok(n),
        Err(e) => Err(e.to_string()),
    }
}

} // verus!
