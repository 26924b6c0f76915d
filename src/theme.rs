//! Reading the system appearance.

use vstd::prelude::*;

use crate::text::{contains_text, has_infix};

verus! {

/// Whether the system appearance named `appearance_name` is a dark one: its
/// name mentions `Dark`. With no appearance name the appearance is light.
pub fn is_dark_mode(appearance_name: Option<&str>) -> (r: bool)
    ensures
        r == match appearance_name {
            Some(n) => has_infix(n@, "Dark"@),
            None => false,
        },
{
    match appearance_name {
        Some(n) => contains_text(n, "Dark"),
        None => false,
    }
}

} // verus!
