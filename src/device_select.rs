//! Choosing the physical device and queue family to render with.

use vstd::prelude::*;

verus! {

/// The kind of a physical device, as the driver reports it.
#[derive(Clone, Copy, Debug, PartialEq, Eq, Structural)]
pub enum DeviceKind {
    DiscreteGpu,
    IntegratedGpu,
    VirtualGpu,
    Cpu,
    Other,
}

/// Preference among device kinds: lower is better.
pub open spec fn kind_rank(kind: DeviceKind) -> u8 {
    match kind {
        DeviceKind::DiscreteGpu => 0,
        DeviceKind::IntegratedGpu => 1,
        DeviceKind::VirtualGpu => 2,
        DeviceKind::Cpu => 3,
        DeviceKind::Other => 4,
    }
}

impl DeviceKind {
    pub fn rank(&self) -> (r: u8)
        ensures
            r == kind_rank(*self),
    {
        match self {
            DeviceKind::DiscreteGpu => 0,
            DeviceKind::IntegratedGpu => 1,
            DeviceKind::VirtualGpu => 2,
            DeviceKind::Cpu => 3,
            DeviceKind::Other => 4,
        }
    }
}

/// What a queue family of a device offers.
#[derive(Clone, Copy, Debug, PartialEq, Eq, Structural)]
pub struct QueueFamilyInfo {
    pub graphics: bool,
    pub presents_to_surface: bool,
}

/// A physical device as seen when choosing one: whether it has the required
/// extensions, its kind, and its queue families in the driver's order.
#[derive(Clone, Debug)]
pub struct DeviceCandidate {
    pub has_extensions: bool,
    pub kind: DeviceKind,
    pub queue_families: Vec<QueueFamilyInfo>,
}

/// The chosen device and queue family, as indices.
#[derive(Clone, Copy, Debug, PartialEq, Eq, Structural)]
pub struct DeviceChoice {
    pub device: usize,
    pub queue_family: usize,
}

/// A family that can both draw and present to the surface.
pub open spec fn usable(f: QueueFamilyInfo) -> bool {
    f.graphics && f.presents_to_surface
}

/// `i` is the first usable family.
pub open spec fn is_first_usable(families: Seq<QueueFamilyInfo>, i: int) -> bool {
    &&& 0 <= i < families.len()
    &&& usable(families[i])
    &&& forall|j: int| 0 <= j < i ==> !usable(#[trigger] families[j])
}

/// A device with the required extensions and a usable queue family.
pub open spec fn eligible(c: DeviceCandidate) -> bool {
    &&& c.has_extensions
    &&& exists|i: int| 0 <= i < c.queue_families@.len() && usable(#[trigger] c.queue_families@[i])
}

/// The index of the first usable queue family, if any.
pub fn first_usable_family(families: &Vec<QueueFamilyInfo>) -> (r: Option<usize>)
    ensures
        r matches Some(i) ==> is_first_usable(families@, i as int),
        r is None ==> forall|j: int| 0 <= j < families@.len() ==> !usable(#[trigger] families@[j]),
{
    let mut i: usize = 0;
    while i < families.len()
        invariant
            i <= families@.len(),
            forall|j: int| 0 <= j < i ==> !usable(#[trigger] families@[j]),
        decreases families@.len() - i,
    {
        if families[i].graphics && families[i].presents_to_surface {
            return Some(i);
        }
        i = i + 1;
    }
    None
}

/// The first device of the best kind among the eligible ones, with its first
/// usable queue family; nothing when no device is eligible.
pub fn select_device(candidates: &Vec<DeviceCandidate>) -> (r: Option<DeviceChoice>)
    ensures
        r is None <==> forall|j: int| 0 <= j < candidates@.len() ==> !eligible(#[trigger] candidates@[j]),
        r matches Some(choice) ==> {
            let best = candidates@[choice.device as int];
            &&& choice.device < candidates@.len()
            &&& eligible(best)
            &&& is_first_usable(best.queue_families@, choice.queue_family as int)
            &&& forall|j: int|
                0 <= j < candidates@.len() && eligible(#[trigger] candidates@[j]) ==> {
                    &&& kind_rank(best.kind) <= kind_rank(candidates@[j].kind)
                    &&& j < choice.device ==> kind_rank(best.kind) < kind_rank(candidates@[j].kind)
                }
        },
{
    let mut best: Option<DeviceChoice> = None;
    let mut best_rank: u8 = 0;
    let mut i: usize = 0;
    while i < candidates.len()
        invariant
            i <= candidates@.len(),
            best is None ==> forall|j: int| 0 <= j < i ==> !eligible(#[trigger] candidates@[j]),
            best matches Some(choice) ==> {
                let b = candidates@[choice.device as int];
                &&& choice.device < i
                &&& eligible(b)
                &&& is_first_usable(b.queue_families@, choice.queue_family as int)
                &&& best_rank == kind_rank(b.kind)
                &&& forall|j: int|
                    0 <= j < i && eligible(#[trigger] candidates@[j]) ==> {
                        &&& best_rank <= kind_rank(candidates@[j].kind)
                        &&& j < choice.device ==> best_rank < kind_rank(candidates@[j].kind)
                    }
            },
        decreases candidates@.len() - i,
    {
        let c = &candidates[i];
        if c.has_extensions {
            match first_usable_family(&c.queue_families) {
                Some(family) => {
                    let rank = c.kind.rank();
                    if best.is_none() || rank < best_rank {
                        best = Some(DeviceChoice { device: i, queue_family: family });
                        best_rank = rank;
                    }
                },
                None => {},
            }
        }
        i = i + 1;
    }
    best
}

} // verus!
