use vstd::prelude::*;

verus! {

/// The snake-case form of an identifier, as the casing library computes it.
/// The result depends on the characters of the input alone.
pub uninterp spec fn snake_of(s: Seq<char>) -> Seq<char>;

/// A character that a lowercase snake-case identifier is made of: a lowercase
/// ASCII letter or an underscore.
pub open spec fn snake_char(c: char) -> bool {
    (97 <= c as u32 && c as u32 <= 122) || c as u32 == 95
}

/// An identifier that is already in lowercase snake-case form: lowercase
/// ASCII letters separated by single underscores, with no underscore at
/// either end. On such an input the casing conversion is the identity.
pub open spec fn is_snake_seq(s: Seq<char>) -> bool {
    &&& forall|i: int| 0 <= i < s.len() ==> snake_char(#[trigger] s[i])
    &&& s.len() > 0 ==> s[0] as u32 != 95 && s[s.len() - 1] as u32 != 95
    &&& forall|i: int| 0 <= i < s.len() - 1 && (#[trigger] s[i]) as u32 == 95 ==> s[i + 1] as u32 != 95
}

/// Relies on Inflector's `to_snake_case` for the naming-convention
/// translation. Its result is a pure function of the input's characters; its
/// source pushes only separator underscores and ASCII-lowercased characters,
/// so no ASCII uppercase letter survives; and on an input that is already
/// lowercase snake-case (in the sense of `is_snake_seq`) every character is
/// kept as it stands, so the input comes back unchanged.
#[verifier::external_body]
fn snake_name(s: &str) -> (r: String)
    ensures
        r@ == snake_of(s@),
        is_snake_seq(s@) ==> r@ == s@,
        forall|i: int| 0 <= i < r@.len() ==> !(65 <= (#[trigger] r@[i]) as u32 && r@[i] as u32 <= 90),
{
    inflector::cases::snakecase::to_snake_case(s)
}

/// The name transformer: declared casing in, lowercase snake-case out.
///
/// The transformation is stable — an identifier that is already in lowercase
/// snake-case form comes back unchanged — and its result never holds an
/// ASCII uppercase letter.
pub fn transform_name(s: &str) -> (r: String)
    ensures
        r@ == snake_of(s@),
        is_snake_seq(s@) ==> r@ == s@,
        forall|i: int| 0 <= i < r@.len() ==> !(65 <= (#[trigger] r@[i]) as u32 && r@[i] as u32 <= 90),
{
    snake_name(s)
}

} // verus!
