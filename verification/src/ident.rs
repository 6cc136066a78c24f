//! Identifiers of responses: the prefix `cmpl-` and a random UUID.

use vstd::prelude::*;
use vstd::string::*;

verus! {

/// A decimal digit or a letter from `a` to `f`.
pub open spec fn is_lower_hex(c: char) -> bool {
    (0x30 <= c as u32 && c as u32 <= 0x39) || (0x61 <= c as u32 && c as u32 <= 0x66)
}

/// The hyphenated notation of a UUID: 36 characters, hyphens after the 8th,
/// 12th, 16th and 20th digit, lower-case hexadecimal digits elsewhere.
pub open spec fn is_uuid_text(s: Seq<char>) -> bool {
    &&& s.len() == 36
    &&& forall|i: int|
        0 <= i < 36 ==> if i == 8 || i == 13 || i == 18 || i == 23 {
            #[trigger] s[i] == '-'
        } else {
            is_lower_hex(s[i])
        }
}

/// An identifier of a response: `cmpl-` followed by a UUID.
pub open spec fn is_completion_id(s: Seq<char>) -> bool {
    &&& s.len() == 41
    &&& s.subrange(0, 5) == "cmpl-"@
    &&& is_uuid_text(s.subrange(5, 41))
}

/// `uuid::Uuid::new_v4` and the `to_string` of the `Uuid`. The digits are
/// random, so the contract speaks of the notation only: the default format is
/// the hyphenated lower-case one.
#[verifier::external_body]
pub(crate) fn random_uuid_text() -> (r: String)
    ensures
        is_uuid_text(r@),
{
    uuid::Uuid::new_v4().to_string()
}

/// The identifier made of the prefix and `uuid_text`.
pub fn completion_id(uuid_text: &str) -> (r: String)
    ensures
        r@ == "cmpl-"@ + uuid_text@,
        is_uuid_text(uuid_text@) ==> is_completion_id(r@),
{
    let mut r = String::from_str("cmpl-");
    r.append(uuid_text);
    proof {
        reveal_strlit("cmpl-");
        assert(r@.subrange(0, 5) =~= "cmpl-"@);
        assert(r@.subrange(5, r@.len() as int) =~= uuid_text@);
    }
    r
}

/// A fresh identifier for a response.
pub fn fresh_completion_id() -> (r: String)
    ensures
        is_completion_id(r@),
{
    let u = random_uuid_text();
    completion_id(u.as_str())
}

} // verus!
