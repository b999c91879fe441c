use vstd::prelude::*;
use crate::errors::UuidError;

verus! {

/// Why a count token was rejected: nothing left after the optional
/// sign, a character that is not a decimal digit, or a value too large
/// for a 32-bit count.
#[derive(Clone, Copy, PartialEq, Eq, Structural, Debug)]
pub enum ParseIssue {
    Empty,
    InvalidDigit,
    Overflow,
}

/// A decimal digit character.
pub open spec fn is_count_digit(c: char) -> bool {
    ('0' as int) <= (c as int) <= ('9' as int)
}

/// The numeric value of a single digit character.
pub open spec fn digit_val(c: char) -> int {
    c as int - '0' as int
}

pub open spec fn all_digits(s: Seq<char>) -> bool {
    forall|i: int| 0 <= i < s.len() ==> is_count_digit(#[trigger] s[i])
}

/// The value of a digit string read as a base-10 numeral.
pub open spec fn digits_value(s: Seq<char>) -> int
    decreases s.len(),
{
    if s.len() == 0 {
        0
    } else {
        digits_value(s.drop_last()) * 10 + digit_val(s.last())
    }
}

/// The digit run of a count token: everything after the optional
/// leading `+` sign, which unsigned decimal notation accepts.
pub open spec fn digit_run(s: Seq<char>) -> Seq<char> {
    if s.len() > 0 && s[0] == '+' {
        s.drop_first()
    } else {
        s
    }
}

/// A token that denotes a generation count: at least one digit after
/// the optional sign, digits only, and a value that fits in 32 bits.
pub open spec fn is_valid_count_token(s: Seq<char>) -> bool {
    &&& digit_run(s).len() > 0
    &&& all_digits(digit_run(s))
    &&& digits_value(digit_run(s)) <= u32::MAX
}

/// The issue reported for an invalid token: emptiness first, then a
/// stray non-digit, and otherwise the value must have overflowed.
pub open spec fn count_token_issue(s: Seq<char>) -> ParseIssue {
    if digit_run(s).len() == 0 {
        ParseIssue::Empty
    } else if !all_digits(digit_run(s)) {
        ParseIssue::InvalidDigit
    } else {
        ParseIssue::Overflow
    }
}

/// A digit string never reads as a negative value.
pub proof fn lemma_digits_value_nonneg(s: Seq<char>)
    requires
        all_digits(s),
    ensures
        digits_value(s) >= 0,
    decreases s.len(),
{
    if s.len() > 0 {
        assert(forall|i: int| 0 <= i < s.drop_last().len()
            ==> #[trigger] s.drop_last()[i] == s[i]);
        lemma_digits_value_nonneg(s.drop_last());
    }
}

/// Reading more digits never shrinks the value: any prefix of a digit
/// string reads as at most the whole string's value.
pub proof fn lemma_digits_value_prefix_le(s: Seq<char>, j: int)
    requires
        all_digits(s),
        0 <= j <= s.len(),
    ensures
        digits_value(s.take(j)) <= digits_value(s),
    decreases s.len() - j,
{
    if j == s.len() {
        assert(s.take(j) =~= s);
    } else {
        assert(s.take(j + 1).drop_last() =~= s.take(j));
        assert(s.take(j + 1).last() == s[j]);
        assert(forall|i: int| 0 <= i < j ==> #[trigger] s.take(j)[i] == s[i]);
        lemma_digits_value_nonneg(s.take(j));
        lemma_digits_value_prefix_le(s, j + 1);
    }
}

/// Read a count token as a non-negative 32-bit integer, accepting
/// exactly the tokens of [`is_valid_count_token`] and reporting
/// [`count_token_issue`] for the rest.
pub fn parse_count_token(token: &str) -> (r: Result<u32, ParseIssue>)
    ensures
        r matches Ok(v) ==> is_valid_count_token(token@)
            && v == digits_value(digit_run(token@)),
        r matches Err(e) ==> !is_valid_count_token(token@)
            && e == count_token_issue(token@),
{
    let len: usize = token.unicode_len();
    let has_sign: bool = len > 0 && token.get_char(0) as u32 == '+' as u32;
    let start: usize = if has_sign { 1 } else { 0 };
    proof {
        assert(digit_run(token@) =~= token@.subrange(start as int, len as int));
    }
    if start >= len {
        return Err(ParseIssue::Empty);
    }
    let mut i: usize = start;
    while i < len
        invariant
            start <= i <= len,
            len == token@.len(),
            digit_run(token@) =~= token@.subrange(start as int, len as int),
            forall|k: int| start <= k < i ==> is_count_digit(#[trigger] token@[k]),
        decreases len - i,
    {
        let c = token.get_char(i);
        if (c as u32) < ('0' as u32) || (c as u32) > ('9' as u32) {
            proof {
                assert(digit_run(token@)[i - start] == token@[i as int]);
                assert(!is_count_digit(token@[i as int]));
            }
            return Err(ParseIssue::InvalidDigit);
        }
        i = i + 1;
    }
    proof {
        assert(forall|m: int| 0 <= m < digit_run(token@).len()
            ==> #[trigger] digit_run(token@)[m] == token@[start + m]);
        assert(all_digits(digit_run(token@)));
    }
    let mut value: u32 = 0;
    i = start;
    while i < len
        invariant
            start <= i <= len,
            len == token@.len(),
            digit_run(token@) =~= token@.subrange(start as int, len as int),
            all_digits(digit_run(token@)),
            forall|k: int| start <= k < len ==> is_count_digit(#[trigger] token@[k]),
            value == digits_value(token@.subrange(start as int, i as int)),
        decreases len - i,
    {
        let c = token.get_char(i);
        let d: u32 = c as u32 - '0' as u32;
        proof {
            vstd::arithmetic::div_mod::lemma_fundamental_div_mod(
                (u32::MAX - d) as int,
                10,
            );
            assert(0 <= ((u32::MAX - d) as int % 10) < 10) by (nonlinear_arith);
            assert(token@.subrange(start as int, i + 1).drop_last()
                =~= token@.subrange(start as int, i as int));
            assert(token@.subrange(start as int, i + 1).last() == token@[i as int]);
        }
        if value > (u32::MAX - d) / 10 {
            proof {
                let run = digit_run(token@);
                assert(run.take(i + 1 - start) =~= token@.subrange(start as int, i + 1));
                assert(digits_value(token@.subrange(start as int, i + 1))
                    == value * 10 + d);
                lemma_digits_value_prefix_le(run, i + 1 - start);
            }
            return Err(ParseIssue::Overflow);
        }
        value = value * 10 + d;
        i = i + 1;
    }
    proof {
        assert(token@.subrange(start as int, len as int) =~= digit_run(token@));
    }
    Ok(value)
}

/// Resolve the argument list to a generation count. The first token is
/// the program's own name and is discarded; at most one further token
/// is accepted, and when none is given the count defaults to 1.
pub fn parse_uuid_count(args: &Vec<String>) -> (r: Result<u32, UuidError>)
    ensures
        args@.len() > 2 ==> r == Err::<u32, UuidError>(UuidError::InvalidArgumentCount),
        args@.len() <= 1 ==> r == Ok::<u32, UuidError>(1u32),
        args@.len() == 2 ==> match r {
            Ok(v) => is_valid_count_token(args@[1]@)
                && v == digits_value(digit_run(args@[1]@)),
            Err(e) => !is_valid_count_token(args@[1]@)
                && e == UuidError::CountParseError(count_token_issue(args@[1]@)),
        },
{
    if args.len() > 2 {
        return Err(UuidError::InvalidArgumentCount);
    }
    if args.len() <= 1 {
        return Ok(1);
    }
    match parse_count_token(args[1].as_str()) {
        Ok(v) => Ok(v),
        Err(issue) => Err(UuidError::CountParseError(issue)),
    }
}

} // verus!
