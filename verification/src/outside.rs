//! The external collaborators of the engine: the wall clock, the random
//! identifier source, and the home-directory lookup.  Each is a thin trusted
//! wrapper; everything computed from their results is verified.

use vstd::prelude::*;

use crate::strutil::underscores;

verus! {

/// Relies on `uuid::Uuid::new_v4`: a freshly drawn random 128-bit identifier,
/// rendered by `Uuid`'s `Display` as the hyphenated form, which is always 36
/// characters.  Nothing else can be promised of a random value.
#[verifier::external_body]
pub fn fresh_suffix() -> (r: String)
    ensures
        r@.len() == 36,
{
    uuid::Uuid::new_v4().to_string()
}

/// Relies on `chrono::Local::now`: the local wall-clock instant, rendered as
/// the pair of a time `"HH:MM:SS_AM/PM"` (`%I:%M:%S_%p`: three zero-padded
/// two-digit fields, colons, one underscore, then `AM` or `PM` — 11
/// characters with the sole underscore before the last two) and a date
/// `"DD_MM_YYYY"` (`%d_%m_%Y`: at least 10 characters).  Which instant comes
/// back depends on the clock, so nothing more is promised.
#[verifier::external_body]
pub fn now_strings() -> (r: (String, String))
    ensures
        r.0@.len() == 11,
        underscores(r.0@) == 1,
        r.1@.len() >= 10,
{
    let now = chrono::Local::now();
    (now.format("%I:%M:%S_%p").to_string(), now.format("%d_%m_%Y").to_string())
}

/// Relies on `dirs::home_dir`: the user's home directory, if the platform
/// reports one; `None` also when the path is not valid unicode.  The result
/// depends on the environment, so nothing is promised of its content.
#[verifier::external_body]
pub fn home_dir_string() -> (r: Option<String>)
{
    match dirs::home_dir() {
        Some(p) => p.to_str().map(|s| s.to_string()),
        None => None,
    }
}

} // verus!
