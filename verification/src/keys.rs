//! Keyboard key-string classification.
//!
//! Key combinations arrive as strings like `"ctrl+shift+p"`; the automation
//! shell splits them and must tell modifier tokens (pressed and held around
//! the main key) from the main key itself. The classification is
//! case-insensitive, going through the standard library's Unicode
//! lowercasing.

use vstd::prelude::*;
use vstd::string::StringExecFns;

verus! {

/// What the standard library's `str::to_lowercase` yields: the Unicode
/// lowercase mapping of the string, a function of its characters alone.
pub uninterp spec fn lower_of(s: Seq<char>) -> Seq<char>;

/// Relies on `str::to_lowercase`: the result is the Unicode lowercase
/// mapping of the input, a function of the input alone; characters without a
/// lowercase form are unchanged, so a string of ASCII lowercase letters maps
/// to itself.
#[verifier::external_body]
fn to_lowercase_str(s: &str) -> (r: String)
    ensures
        r@ == lower_of(s@),
        (forall|i: int| 0 <= i < s@.len() ==> ('a' <= #[trigger] s@[i] && s@[i] <= 'z')) ==> r@
            == s@,
{
    s.to_lowercase()
}

/// Whether a lowercased key token names a modifier key.
pub open spec fn is_modifier_token(t: Seq<char>) -> bool {
    ||| t == "ctrl"@
    ||| t == "control"@
    ||| t == "alt"@
    ||| t == "option"@
    ||| t == "shift"@
    ||| t == "cmd"@
    ||| t == "command"@
    ||| t == "meta"@
    ||| t == "super"@
    ||| t == "win"@
}

/// Whether a string equals the given token.
fn eq_token(s: &String, token: &str) -> (r: bool)
    ensures
        r == (s@ == token@),
{
    s.eq(&String::from_str(token))
}

/// Whether a key string names a modifier key (the ctrl, alt, shift and meta
/// families), in any letter case.
pub fn is_modifier(key_str: &str) -> (r: bool)
    ensures
        r == is_modifier_token(lower_of(key_str@)),
{
    let lowered = to_lowercase_str(key_str);
    eq_token(&lowered, "ctrl") || eq_token(&lowered, "control") || eq_token(&lowered, "alt")
        || eq_token(&lowered, "option") || eq_token(&lowered, "shift") || eq_token(
        &lowered,
        "cmd",
    ) || eq_token(&lowered, "command") || eq_token(&lowered, "meta") || eq_token(
        &lowered,
        "super",
    ) || eq_token(&lowered, "win")
}

} // verus!
