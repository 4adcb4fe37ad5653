//! The extensions asked of the device, and whether an adapter offers them.

use ash::{ext, khr, vk};
use vstd::prelude::*;

use super::spells;

verus! {

/// Why the extensions of an adapter could not be told.
#[derive(Clone, Copy, Debug, PartialEq, Eq)]
pub enum Error {
    /// The driver failed to list them.
    Enumerate(vk::Result),
    /// The name of one of them does not end.
    Parse,
}

/// The names of the device extensions the renderer enables: the swapchain,
/// acceleration structures with deferred host operations, ray-tracing
/// pipelines, memory priority and pageable device-local memory.
pub open spec fn spec_required() -> Seq<Seq<char>> {
    seq![
        "VK_KHR_swapchain"@,
        "VK_KHR_acceleration_structure"@,
        "VK_KHR_deferred_host_operations"@,
        "VK_KHR_ray_tracing_pipeline"@,
        "VK_EXT_memory_priority"@,
        "VK_EXT_pageable_device_local_memory"@,
    ]
}

/// The names that `ash` gives the device extensions under `khr::swapchain`,
/// `khr::acceleration_structure`, `khr::deferred_host_operations`,
/// `khr::ray_tracing_pipeline`, `ext::memory_priority` and
/// `ext::pageable_device_local_memory`. Trusted: how `ash` spells them.
#[verifier::external_body]
fn ash_names() -> (names: Vec<String>)
    ensures
        spells(names@, spec_required()),
{
    let names = [
        khr::swapchain::NAME,
        khr::acceleration_structure::NAME,
        khr::deferred_host_operations::NAME,
        khr::ray_tracing_pipeline::NAME,
        ext::memory_priority::NAME,
        ext::pageable_device_local_memory::NAME,
    ];
    names.iter().map(|name| name.to_string_lossy().into_owned()).collect()
}

/// The names of the device extensions the renderer enables.
pub fn required() -> (names: Vec<String>)
    ensures
        spells(names@, spec_required()),
{
    ash_names()
}

/// Whether an entry of a listing has the name `name`.
pub open spec fn names(entry: Option<String>, name: Seq<char>) -> bool {
    match entry {
        Some(text) => text@ == name,
        None => false,
    }
}

/// Whether a listing holds `name`.
pub open spec fn lists(listed: Seq<Option<String>>, name: Seq<char>) -> bool {
    exists|j: int|
        0 <= j < listed.len() && names(#[trigger] listed[j], name)
}

/// Whether a listing holds an entry without a name.
pub open spec fn has_unnamed(listed: Seq<Option<String>>) -> bool {
    exists|j: int| 0 <= j < listed.len() && (#[trigger] listed[j]).is_none()
}

/// Whether a listing holds every required extension.
pub open spec fn all_required(listed: Seq<Option<String>>) -> bool {
    forall|i: int| 0 <= i < spec_required().len() ==> lists(listed, #[trigger] spec_required()[i])
}

/// What the extension gate comes to for one adapter.
pub open spec fn spec_supported_by(listed: Result<Vec<Option<String>>, vk::Result>) -> Result<
    bool,
    Error,
> {
    match listed {
        Err(code) => Err(Error::Enumerate(code)),
        Ok(entries) => if has_unnamed(entries@) {
            Err(Error::Parse)
        } else {
            Ok(all_required(entries@))
        },
    }
}

/// Whether a listing holds `name`.
fn is_listed(entries: &Vec<Option<String>>, name: &String) -> (found: bool)
    ensures
        found == lists(entries@, name@),
{
    let mut j: usize = 0;
    while j < entries.len()
        invariant
            j <= entries.len(),
            forall|k: int|
                0 <= k < j ==> !names(#[trigger] entries@[k], name@),
        decreases entries.len() - j,
    {
        if let Some(entry) = &entries[j] {
            if *entry == *name {
                return true;
            }
        }
        j += 1;
    }
    false
}

/// Whether an adapter offers every required device extension, given the
/// listing of its extensions: each entry its name, or nothing where the
/// driver's text does not end.
///
/// A listing that failed is an error, and so is an entry without a name,
/// whatever else is listed.
pub fn supported_by(listed: &Result<Vec<Option<String>>, vk::Result>) -> (supported: Result<
    bool,
    Error,
>)
    ensures
        supported == spec_supported_by(*listed),
{
    let entries = match listed {
        Ok(entries) => entries,
        Err(code) => { return Err(Error::Enumerate(*code)); },
    };
    let mut i: usize = 0;
    while i < entries.len()
        invariant
            i <= entries.len(),
            *listed == Ok::<Vec<Option<String>>, vk::Result>(*entries),
            forall|k: int| 0 <= k < i ==> (#[trigger] entries@[k]).is_some(),
        decreases entries.len() - i,
    {
        if entries[i].is_none() {
            assert(has_unnamed(entries@));
            return Err(Error::Parse);
        }
        i += 1;
    }
    assert(!has_unnamed(entries@));

    let required = required();
    let mut r: usize = 0;
    while r < required.len()
        invariant
            r <= required.len(),
            *listed == Ok::<Vec<Option<String>>, vk::Result>(*entries),
            !has_unnamed(entries@),
            spells(required@, spec_required()),
            forall|k: int| 0 <= k < r ==> lists(entries@, #[trigger] spec_required()[k]),
        decreases required.len() - r,
    {
        if !is_listed(entries, &required[r]) {
            assert(!lists(entries@, spec_required()[r as int]));
            return Ok(false);
        }
        r += 1;
    }
    Ok(true)
}

} // verus!
