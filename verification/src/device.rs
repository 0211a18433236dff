use vstd::prelude::*;

verus! {

/// What the renderer needs to know of one queue family of a GPU.
#[derive(Debug, Clone, Copy)]
pub struct QueueFamilyInfo {
    /// The family's queues accept graphics commands.
    pub graphics: bool,
    /// The family's queues can present images to the window's surface.
    pub presents: bool,
}

/// What the renderer needs to know of one GPU.
#[derive(Debug)]
pub struct PhysicalDeviceInfo {
    /// The device offers every device extension the renderer enables (the swapchain).
    pub supports_extensions: bool,
    /// The device's queue families, in the order the driver lists them.
    pub queue_families: Vec<QueueFamilyInfo>,
}

/// A queue family the renderer can draw and present with.
pub open spec fn family_fits(family: QueueFamilyInfo) -> bool {
    family.graphics && family.presents
}

/// A device the renderer can use: it has the extensions and a fitting queue family.
pub open spec fn device_fits(device: PhysicalDeviceInfo) -> bool {
    &&& device.supports_extensions
    &&& exists|i: int|
        0 <= i < device.queue_families@.len() && #[trigger] family_fits(device.queue_families@[i])
}

/// `index` names the first fitting family of `families`.
pub open spec fn is_first_fitting_family(families: Seq<QueueFamilyInfo>, index: int) -> bool {
    &&& 0 <= index < families.len()
    &&& family_fits(families[index])
    &&& forall|j: int| 0 <= j < index ==> !#[trigger] family_fits(families[j])
}

/// The first queue family that can both draw and present, if there is one.
pub fn first_fitting_family(families: &Vec<QueueFamilyInfo>) -> (found: Option<usize>)
    ensures
        match found {
            Some(i) => is_first_fitting_family(families@, i as int),
            None => forall|j: int| 0 <= j < families@.len() ==> !#[trigger] family_fits(families@[j]),
        },
{
    let mut i: usize = 0;
    while i < families.len()
        invariant
            i <= families@.len(),
            forall|j: int| 0 <= j < i ==> !#[trigger] family_fits(families@[j]),
        decreases families@.len() - i,
    {
        if families[i].graphics && families[i].presents {
            return Some(i);
        }
        i = i + 1;
    }
    None
}

/// Picks the GPU and queue family to render with: the first device, in the
/// order given, that has the needed extensions and a family that can both draw
/// and present, together with the first such family of that device.
pub fn select_physical_device(devices: &Vec<PhysicalDeviceInfo>) -> (choice: Option<(usize, usize)>)
    ensures
        match choice {
            Some((d, q)) => {
                &&& d < devices@.len()
                &&& device_fits(devices@[d as int])
                &&& forall|e: int| 0 <= e < d ==> !#[trigger] device_fits(devices@[e])
                &&& is_first_fitting_family(devices@[d as int].queue_families@, q as int)
            },
            None => forall|e: int| 0 <= e < devices@.len() ==> !#[trigger] device_fits(devices@[e]),
        },
{
    let mut i: usize = 0;
    while i < devices.len()
        invariant
            i <= devices@.len(),
            forall|e: int| 0 <= e < i ==> !#[trigger] device_fits(devices@[e]),
        decreases devices@.len() - i,
    {
        let device = &devices[i];
        if device.supports_extensions {
            match first_fitting_family(&device.queue_families) {
                Some(q) => {
                    return Some((i, q));
                },
                None => {},
            }
        }
        i = i + 1;
    }
    None
}

} // verus!
