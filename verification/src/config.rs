//! Build-time facts about the crate.
use vstd::prelude::*;

use crate::text::{push_str_chars, string_from_chars};

verus! {

/// The displayed version of the archive, a `v` before the crate version.
pub fn get_version() -> (r: String)
    ensures
        r@ == "v0.1.0"@,
{
    let mut chars: Vec<char> = Vec::new();
    push_str_chars(&mut chars, "v0.1.0");
    string_from_chars(&chars)
}

} // verus!
