//! The extensions asked of the instance.

use ash::{ext, khr};
use vstd::prelude::*;

use super::spells;

verus! {

/// The names of the instance extensions the renderer enables: debug
/// utilities, surfaces, and surfaces of Win32 windows.
pub open spec fn spec_required() -> Seq<Seq<char>> {
    seq!["VK_EXT_debug_utils"@, "VK_KHR_surface"@, "VK_KHR_win32_surface"@]
}

/// The names that `ash` gives the instance extensions under `ext::debug_utils`,
/// `khr::surface` and `khr::win32_surface`. Trusted: how `ash` spells them.
#[verifier::external_body]
fn ash_names() -> (names: Vec<String>)
    ensures
        spells(names@, spec_required()),
{
    let names = [ext::debug_utils::NAME, khr::surface::NAME, khr::win32_surface::NAME];
    names.iter().map(|name| name.to_string_lossy().into_owned()).collect()
}

/// The names of the instance extensions the renderer enables.
pub fn required() -> (names: Vec<String>)
    ensures
        spells(names@, spec_required()),
{
    ash_names()
}

} // verus!
