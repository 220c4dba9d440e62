//! Connection and user identities.
//!
//! Identities are 128-bit values. On the wire they travel in the hyphenated
//! lower-case hexadecimal form `xxxxxxxx-xxxx-xxxx-xxxx-xxxxxxxxxxxx`.

use vstd::prelude::*;
use vstd::string::*;

verus! {

/// The request header by which a mutation names the connection that must not
/// receive an echo of the resulting change event.
pub const CONNECTION_ID_HEADER: &'static str = "x-connection-id";

/// The lower-case hexadecimal digit for a value below sixteen.
pub open spec fn hex_digit(n: int) -> char {
    if n == 0 { '0' } else if n == 1 { '1' } else if n == 2 { '2' } else if n == 3 { '3' }
    else if n == 4 { '4' } else if n == 5 { '5' } else if n == 6 { '6' } else if n == 7 { '7' }
    else if n == 8 { '8' } else if n == 9 { '9' } else if n == 10 { 'a' } else if n == 11 { 'b' }
    else if n == 12 { 'c' } else if n == 13 { 'd' } else if n == 14 { 'e' } else { 'f' }
}

/// The four-bit group of `id` at position `k`, counted from the most
/// significant group (position 0) to the least significant (position 31).
pub open spec fn nibble(id: u128, k: int) -> int {
    ((id >> ((124 - 4 * k) as u128)) & 0xf) as int
}

/// How many hyphens stand before position `i` of the hyphenated form.
pub open spec fn hyphens_before(i: int) -> int {
    if i <= 8 { 0 } else if i <= 13 { 1 } else if i <= 18 { 2 } else if i <= 23 { 3 } else { 4 }
}

/// The character at position `i` of the hyphenated form of `id`.
pub open spec fn id_char(id: u128, i: int) -> char {
    if i == 8 || i == 13 || i == 18 || i == 23 {
        '-'
    } else {
        hex_digit(nibble(id, i - hyphens_before(i)))
    }
}

/// The hyphenated form of `id`: 36 characters, hyphens after the 8th, 12th,
/// 16th and 20th hexadecimal digit.
pub open spec fn id_text(id: u128) -> Seq<char> {
    Seq::new(36, |i: int| id_char(id, i))
}

fn hex_digit_str(n: u8) -> (s: &'static str)
    requires
        n < 16,
    ensures
        s@ == seq![hex_digit(n as int)],
{
    proof {
        reveal_strlit("0"); reveal_strlit("1"); reveal_strlit("2"); reveal_strlit("3");
        reveal_strlit("4"); reveal_strlit("5"); reveal_strlit("6"); reveal_strlit("7");
        reveal_strlit("8"); reveal_strlit("9"); reveal_strlit("a"); reveal_strlit("b");
        reveal_strlit("c"); reveal_strlit("d"); reveal_strlit("e"); reveal_strlit("f");
    }
    let s = if n == 0 { "0" } else if n == 1 { "1" } else if n == 2 { "2" } else if n == 3 { "3" }
    else if n == 4 { "4" } else if n == 5 { "5" } else if n == 6 { "6" } else if n == 7 { "7" }
    else if n == 8 { "8" } else if n == 9 { "9" } else if n == 10 { "a" } else if n == 11 { "b" }
    else if n == 12 { "c" } else if n == 13 { "d" } else if n == 14 { "e" } else { "f" };
    assert(s@ =~= seq![hex_digit(n as int)]);
    s
}

/// Writes an identity in its hyphenated form.
pub fn format_id(id: u128) -> (text: String)
    ensures
        text@ == id_text(id),
{
    let mut text = String::new();
    let mut i: u32 = 0;
    let mut k: u32 = 0;
    while i < 36
        invariant
            i <= 36,
            k == i - hyphens_before(i as int),
            text@ == Seq::new(i as nat, |j: int| id_char(id, j)),
        decreases 36 - i,
    {
        if i == 8 || i == 13 || i == 18 || i == 23 {
            proof {
                reveal_strlit("-");
            }
            text.append("-");
            assert("-"@ =~= seq!['-']);
        } else {
            let shift: u128 = (124 - 4 * k) as u128;
            let group: u128 = (id >> shift) & 0xf;
            assert(group < 16) by (bit_vector)
                requires
                    group == (id >> shift) & 0xf,
            ;
            let digit = hex_digit_str(group as u8);
            text.append(digit);
            k = k + 1;
        }
        i = i + 1;
        assert(text@ =~= Seq::new(i as nat, |j: int| id_char(id, j)));
    }
    text
}

/// The identity that `uuid::Uuid::parse_str` reads from `text`, `None` where it
/// rejects the text.
pub uninterp spec fn parsed_id(text: Seq<char>) -> Option<u128>;

/// Reads an identity with `uuid::Uuid::parse_str` and hands it back as the
/// 128-bit value of `Uuid::as_u128`. Trusted: the result is the one that the
/// parser gives for this text, whatever written form of an identity it accepts.
#[verifier::external_body]
pub(crate) fn parse_uuid(text: &str) -> (id: Option<u128>)
    ensures
        id == parsed_id(text@),
{
    match uuid::Uuid::parse_str(text) {
        Ok(parsed) => Some(parsed.as_u128()),
        Err(_) => None,
    }
}

/// What the connection-id header of a mutation request says about the origin
/// of the mutation: the connection to leave out of the fan-out, where the
/// header is present and holds an identity.
pub open spec fn origin_of(header: Option<&str>) -> Option<u128> {
    match header {
        Some(text) => parsed_id(text@),
        None => None,
    }
}

/// Picks the originating connection out of the connection-id header of a
/// mutation request. An absent or unreadable header means no exclusion.
pub fn extract_connection_id(header: Option<&str>) -> (origin: Option<u128>)
    ensures
        origin == origin_of(header),
{
    match header {
        Some(text) => parse_uuid(text),
        None => None,
    }
}

} // verus!
