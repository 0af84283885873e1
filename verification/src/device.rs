//! Device-setup queries that are plain logic: the queue families picked
//! during device creation, and the search through the physical device's
//! memory-type table.

use vstd::prelude::*;

verus! {

/// The queue families a device was created with. Both must be found
/// before the device is usable; they may name the same family.
#[derive(Clone, Copy, Debug, PartialEq, Eq, Structural)]
pub struct QueueFamilyIndices {
    pub graphics_family: Option<u32>,
    pub present_family: Option<u32>,
}

impl QueueFamilyIndices {
    pub fn new() -> (r: QueueFamilyIndices)
        ensures
            r.graphics_family is None,
            r.present_family is None,
    {
        QueueFamilyIndices { graphics_family: None, present_family: None }
    }

    /// Both a graphics-capable and a present-capable family were found.
    pub fn is_complete(&self) -> (r: bool)
        ensures
            r == (self.graphics_family is Some && self.present_family is Some),
    {
        self.graphics_family.is_some() && self.present_family.is_some()
    }
}

impl Default for QueueFamilyIndices {
    fn default() -> (r: QueueFamilyIndices)
        ensures
            r.graphics_family is None,
            r.present_family is None,
    {
        QueueFamilyIndices::new()
    }
}

/// Memory type `i` with property flags `flags` fits a request: the
/// resource's type filter admits bit `i`, and every required property
/// flag is set.
pub open spec fn spec_memory_type_suitable(
    type_filter: u32,
    required_properties: u32,
    flags: u32,
    i: u32,
) -> bool {
    &&& type_filter & (1u32 << i) != 0
    &&& flags & required_properties == required_properties
}

/// Finds the first memory type that fits, walking the device's table of
/// per-type property flags, or reports that none does. The table has at
/// most 32 entries, one per type-filter bit.
pub fn find_memory_type(
    type_filter: u32,
    required_properties: u32,
    memory_type_flags: &Vec<u32>,
) -> (r: Option<u32>)
    requires
        memory_type_flags@.len() <= 32,
    ensures
        r matches Some(i) ==> i < memory_type_flags@.len() && spec_memory_type_suitable(
            type_filter,
            required_properties,
            memory_type_flags@[i as int],
            i,
        ) && forall|k: u32|
            k < i ==> !spec_memory_type_suitable(
                type_filter,
                required_properties,
                memory_type_flags@[k as int],
                k,
            ),
        r is None ==> forall|k: u32|
            k < memory_type_flags@.len() ==> !spec_memory_type_suitable(
                type_filter,
                required_properties,
                memory_type_flags@[k as int],
                k,
            ),
{
    let mut i: usize = 0;
    while i < memory_type_flags.len()
        invariant
            memory_type_flags@.len() <= 32,
            i <= memory_type_flags@.len(),
            forall|k: u32|
                k < i ==> !spec_memory_type_suitable(
                    type_filter,
                    required_properties,
                    memory_type_flags@[k as int],
                    k,
                ),
        decreases memory_type_flags@.len() - i,
    {
        let flags = memory_type_flags[i];
        if (type_filter & (1u32 << (i as u32))) != 0 && (flags & required_properties)
            == required_properties {
            return Some(i as u32);
        }
        i = i + 1;
    }
    None
}

/// Finds the first format candidate the driver supports, given the
/// driver's verdict on each candidate in order, or reports that none is.
/// The depth format is picked this way at startup.
pub fn find_supported_format(candidates: &Vec<u32>, supported: &Vec<bool>) -> (r: Option<u32>)
    requires
        candidates@.len() == supported@.len(),
    ensures
        r matches Some(f) ==> exists|i: int|
            0 <= i < candidates@.len() && candidates@[i] == f && supported@[i] && (forall|k: int|
                0 <= k < i ==> !supported@[k]),
        r is None ==> forall|k: int| 0 <= k < supported@.len() ==> !supported@[k],
{
    let mut i: usize = 0;
    while i < candidates.len()
        invariant
            candidates@.len() == supported@.len(),
            i <= candidates@.len(),
            forall|k: int| 0 <= k < i ==> !supported@[k],
        decreases candidates@.len() - i,
    {
        if supported[i] {
            return Some(candidates[i]);
        }
        i = i + 1;
    }
    None
}

} // verus!
