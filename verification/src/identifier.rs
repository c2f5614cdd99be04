//! Names for stored files: random 128-bit identifiers in their usual text form.

use vstd::prelude::*;

verus! {

/// Whether `c` is a digit or one of `a` to `f`.
pub open spec fn is_lower_hex(c: char) -> bool {
    ('0' <= c <= '9') || ('a' <= c <= 'f')
}

/// Whether position `i` of an identifier holds a hyphen.
pub open spec fn is_hyphen_position(i: int) -> bool {
    i == 8 || i == 13 || i == 18 || i == 23
}

/// The hyphenated lower-case form of a 128-bit identifier: 36 characters, hyphens
/// after the groups of 8, 4, 4 and 4 hexadecimal digits.
pub open spec fn is_hyphenated_uuid(s: Seq<char>) -> bool {
    &&& s.len() == 36
    &&& forall|i: int|
        0 <= i < 36 ==> if is_hyphen_position(i) {
            #[trigger] s[i] == '-'
        } else {
            is_lower_hex(s[i])
        }
}

/// Whether `c` is an ASCII control character.
pub open spec fn is_control(c: char) -> bool {
    (c as u32) < 32 || c as u32 == 127
}

/// Whether `s` can stand as one segment of a file-system path: not empty, no
/// path separator, no control character and no two dots in a row.
pub open spec fn is_path_safe(s: Seq<char>) -> bool {
    &&& s.len() > 0
    &&& forall|i: int|
        0 <= i < s.len() ==> {
            &&& #[trigger] s[i] != '/'
            &&& s[i] != '\\'
            &&& !is_control(s[i])
        }
    &&& forall|i: int| 0 <= i < s.len() - 1 ==> !(#[trigger] s[i] == '.' && s[i + 1] == '.')
}

/// Every identifier in hyphenated form is safe as a path segment, and holds no
/// dot at all.
pub proof fn lemma_uuid_is_path_safe(s: Seq<char>)
    requires
        is_hyphenated_uuid(s),
    ensures
        is_path_safe(s),
        forall|i: int| 0 <= i < s.len() ==> #[trigger] s[i] != '.',
{
    assert forall|i: int| 0 <= i < s.len() implies {
        &&& #[trigger] s[i] != '/'
        &&& s[i] != '\\'
        &&& !is_control(s[i])
        &&& s[i] != '.'
    } by {
        if is_hyphen_position(i) {
            assert(s[i] == '-');
        } else {
            assert(is_lower_hex(s[i]));
        }
    }
}

/// Calls uuid's `Uuid::new_v4` and renders the value through its `Display`
/// impl. The value is random, so the contract claims only the shape that
/// `Display` gives every `Uuid`: lower-case hexadecimal digits in groups of
/// 8, 4, 4, 4 and 12, with a hyphen between the groups. `new_v4` panics if the
/// operating system hands out no random bytes; nothing here rules that out.
#[verifier::external_body]
fn random_uuid_text() -> (text: String)
    ensures
        is_hyphenated_uuid(text@),
{
    uuid::Uuid::new_v4().to_string()
}

/// A new identifier for a stored file. It depends on nothing but chance; no
/// check against earlier identifiers is made.
pub fn generate() -> (id: String)
    ensures
        is_hyphenated_uuid(id@),
        is_path_safe(id@),
{
    let id = random_uuid_text();
    proof {
        lemma_uuid_is_path_safe(id@);
    }
    id
}

} // verus!
