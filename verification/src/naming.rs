//! Default predicate naming: the variant identifier's lower-snake-case form,
//! prefixed with `is_`.

use vstd::prelude::*;
use vstd::string::StringExecFns;

verus! {

/// The lower-snake-case form of a character sequence, as heck's conversion
/// defines it (word segmentation over case and non-alphanumeric boundaries,
/// then lowercasing, with `_` between words).
pub uninterp spec fn snake_of(s: Seq<char>) -> Seq<char>;

/// Relies on heck's `ToSnakeCase` for `str`: the conversion reads the
/// characters alone (word segmentation and Unicode lowercasing), so its
/// result is a function of them, and it does not panic.
#[verifier::external_body]
fn to_snake_case(s: &str) -> (r: String)
    ensures
        r@ == snake_of(s@),
{
    heck::ToSnakeCase::to_snake_case(s)
}

/// The default predicate name for a variant identifier: `is_` followed by
/// the identifier's lower-snake-case form.
pub open spec fn default_name_spec(ident: Seq<char>) -> Seq<char> {
    "is_"@ + snake_of(ident)
}

/// Derives the default predicate name from a variant identifier.
pub fn default_predicate_name(ident: &str) -> (r: String)
    ensures
        r@ == default_name_spec(ident@),
{
    let r = String::from_str("is_");
    let snake = to_snake_case(ident);
    r.concat(snake.as_str())
}

} // verus!
