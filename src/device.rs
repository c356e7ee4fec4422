use vstd::prelude::*;

use crate::error::SetupError;

verus! {

/// What a queue family of a physical device offers.
#[derive(Clone, Copy, Debug, PartialEq, Eq, Structural)]
pub struct QueueFamilyReport {
    /// The family advertises graphics capability.
    pub graphics: bool,
    /// The driver confirmed that the family can present to the target surface.
    pub present: bool,
}

/// What the driver reported about one physical device, in enumeration order.
pub struct DeviceReport {
    /// The names of the device extensions it supports; `None` when the driver
    /// could not list them.
    pub extensions: Option<Vec<String>>,
    /// Its queue families, by family index.
    pub queue_families: Vec<QueueFamilyReport>,
}

/// The chosen physical device, by its position in the reported list, and the
/// chosen queue family on it.
#[derive(Clone, Copy, Debug, PartialEq, Eq, Structural)]
pub struct DeviceSelection {
    pub device_index: usize,
    pub queue_family_index: u32,
}

pub open spec fn has_extension(exts: Seq<String>, name: Seq<char>) -> bool {
    exists|j: int| 0 <= j < exts.len() && exts[j]@ == name
}

/// Every required name is among the reported ones.
pub open spec fn supports_all(exts: Seq<String>, required: Seq<String>) -> bool {
    forall|i: int| 0 <= i < required.len() ==> has_extension(exts, #[trigger] required[i]@)
}

pub open spec fn name_set(names: Seq<String>) -> Set<Seq<char>> {
    names.map_values(|n: String| n@).to_set()
}

/// A device that supports all required extensions reports a superset of the
/// required names.
pub proof fn lemma_supports_all_is_superset(exts: Seq<String>, required: Seq<String>)
    requires
        supports_all(exts, required),
    ensures
        name_set(required).subset_of(name_set(exts)),
{
    let req_names = required.map_values(|n: String| n@);
    let ext_names = exts.map_values(|n: String| n@);
    assert forall|x: Seq<char>| name_set(required).contains(x) implies name_set(exts).contains(
        x,
    ) by {
        assert(req_names.contains(x));
        let i = choose|i: int| 0 <= i < req_names.len() && #[trigger] req_names[i] == x;
        assert(has_extension(exts, required[i]@));
        let j = choose|j: int| 0 <= j < exts.len() && #[trigger] exts[j]@ == required[i]@;
        assert(ext_names[j] == x);
        assert(ext_names.contains(x));
    }
}

pub open spec fn family_usable(f: QueueFamilyReport) -> bool {
    f.graphics && f.present
}

pub open spec fn has_usable_family(fams: Seq<QueueFamilyReport>) -> bool {
    exists|q: int| 0 <= q < fams.len() && family_usable(#[trigger] fams[q])
}

pub open spec fn device_suitable(d: DeviceReport, required: Seq<String>) -> bool {
    &&& d.extensions matches Some(exts) && supports_all(exts@, required)
    &&& has_usable_family(d.queue_families@)
}

/// Whether `name` is among `exts`.
pub fn contains_extension(exts: &Vec<String>, name: &String) -> (r: bool)
    ensures
        r == has_extension(exts@, name@),
{
    let mut j: usize = 0;
    while j < exts.len()
        invariant
            j <= exts@.len(),
            forall|k: int| 0 <= k < j ==> exts@[k]@ != name@,
        decreases exts@.len() - j,
    {
        if exts[j] == *name {
            return true;
        }
        j = j + 1;
    }
    false
}

/// Whether every name of `required` is among `exts`.
pub fn supports_all_extensions(exts: &Vec<String>, required: &Vec<String>) -> (r: bool)
    ensures
        r == supports_all(exts@, required@),
{
    let mut i: usize = 0;
    while i < required.len()
        invariant
            i <= required@.len(),
            forall|k: int| 0 <= k < i ==> has_extension(exts@, #[trigger] required@[k]@),
        decreases required@.len() - i,
    {
        if !contains_extension(exts, &required[i]) {
            return false;
        }
        i = i + 1;
    }
    true
}

/// The lowest index of a family with graphics and presentation, if any.
pub fn first_usable_family(fams: &Vec<QueueFamilyReport>) -> (r: Option<usize>)
    ensures
        r is None <==> !has_usable_family(fams@),
        r matches Some(q) ==> q < fams@.len() && family_usable(fams@[q as int]) && forall|k: int|
            0 <= k < q ==> !family_usable(#[trigger] fams@[k]),
{
    let mut q: usize = 0;
    while q < fams.len()
        invariant
            q <= fams@.len(),
            forall|k: int| 0 <= k < q ==> !family_usable(#[trigger] fams@[k]),
        decreases fams@.len() - q,
    {
        if fams[q].graphics && fams[q].present {
            return Some(q);
        }
        q = q + 1;
    }
    None
}

/// Picks, in the driver's enumeration order, the first device that supports
/// every required extension and has a queue family with both graphics and
/// presentation support, together with the lowest such family.
pub fn find_suitable_physical_device(devices: &Vec<DeviceReport>, required: &Vec<String>) -> (r:
    Result<DeviceSelection, SetupError>)
    requires
        forall|d: int|
            0 <= d < devices@.len() ==> #[trigger] devices@[d].queue_families@.len() <= u32::MAX,
    ensures
        r is Err <==> forall|d: int|
            0 <= d < devices@.len() ==> !device_suitable(#[trigger] devices@[d], required@),
        r matches Err(e) ==> e == SetupError::NoSuitableDevice,
        r matches Ok(sel) ==> {
            let d = devices@[sel.device_index as int];
            &&& sel.device_index < devices@.len()
            &&& device_suitable(d, required@)
            &&& d.extensions matches Some(exts) && supports_all(exts@, required@)
            &&& sel.queue_family_index < d.queue_families@.len()
            &&& family_usable(d.queue_families@[sel.queue_family_index as int])
            &&& forall|k: int|
                0 <= k < sel.device_index ==> !device_suitable(#[trigger] devices@[k], required@)
            &&& forall|k: int|
                0 <= k < sel.queue_family_index ==> !family_usable(
                    #[trigger] d.queue_families@[k],
                )
        },
{
    let mut i: usize = 0;
    while i < devices.len()
        invariant
            i <= devices@.len(),
            forall|d: int|
                0 <= d < devices@.len() ==> #[trigger] devices@[d].queue_families@.len()
                    <= u32::MAX,
            forall|k: int| 0 <= k < i ==> !device_suitable(#[trigger] devices@[k], required@),
        decreases devices@.len() - i,
    {
        let device = &devices[i];
        let extensions_ok = match &device.extensions {
            Some(exts) => supports_all_extensions(exts, required),
            None => false,
        };
        if extensions_ok {
            match first_usable_family(&device.queue_families) {
                Some(q) => {
                    return Ok(DeviceSelection { device_index: i, queue_family_index: q as u32 });
                },
                None => {},
            }
        }
        i = i + 1;
    }
    Err(SetupError::NoSuitableDevice)
}

} // verus!
