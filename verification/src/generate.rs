use vstd::prelude::*;

verus! {

/// A lowercase hexadecimal digit, the only digits the canonical
/// rendering uses.
pub open spec fn is_lower_hex_digit(c: char) -> bool {
    (('0' as int) <= (c as int) <= ('9' as int)) || (('a' as int) <= (c as int) <= ('f' as int))
}

/// The four positions at which the canonical rendering places a hyphen,
/// splitting the 32 hex digits into groups of 8-4-4-4-12.
pub open spec fn is_hyphen_position(i: int) -> bool {
    i == 8 || i == 13 || i == 18 || i == 23
}

/// The canonical textual form of a random (version 4) UUID: 36
/// characters, hyphens at the four group boundaries, lowercase hex
/// digits everywhere else, the version nibble fixed to `4` and the
/// variant nibble restricted to `8`, `9`, `a` or `b`.
pub open spec fn is_canonical_uuid_v4(s: Seq<char>) -> bool {
    &&& s.len() == 36
    &&& forall|i: int| 0 <= i < 36 && is_hyphen_position(i) ==> s[i] == '-'
    &&& forall|i: int| 0 <= i < 36 && !is_hyphen_position(i) ==> is_lower_hex_digit(s[i])
    &&& s[14] == '4'
    &&& (s[19] == '8' || s[19] == '9' || s[19] == 'a' || s[19] == 'b')
}

/// Relies on `uuid::Uuid::new_v4` and the `Display` impl of `uuid::Uuid`:
/// `new_v4` draws 128 random bits and forces the version nibble to 4 and
/// the variant bits to the RFC 4122 pattern, and `Display` renders the
/// value as lowercase hyphenated hex in the 8-4-4-4-12 grouping. The
/// value itself is random, so nothing beyond the shape is promised.
#[verifier::external_body]
fn fresh_uuid_line() -> (line: String)
    ensures
        is_canonical_uuid_v4(line@),
{
    uuid::Uuid::new_v4().to_string()
}

/// Generate `uuid_count` fresh random UUIDs on the calling thread, in
/// generation order. Also the unit of work a parallel worker performs
/// for its own share of the count.
pub fn generate_sequential(uuid_count: u32) -> (lines: Vec<String>)
    ensures
        lines@.len() == uuid_count,
        forall|i: int| 0 <= i < lines@.len() ==> is_canonical_uuid_v4(#[trigger] lines@[i]@),
{
    let mut lines: Vec<String> = Vec::new();
    let mut produced: u32 = 0;
    while produced < uuid_count
        invariant
            produced <= uuid_count,
            lines@.len() == produced,
            forall|i: int| 0 <= i < lines@.len() ==> is_canonical_uuid_v4(#[trigger] lines@[i]@),
        decreases uuid_count - produced,
    {
        let line = fresh_uuid_line();
        lines.push(line);
        produced = produced + 1;
    }
    lines
}

} // verus!
