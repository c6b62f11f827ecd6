//! Choosing the physical device and the queue family that will draw and present.

use vstd::prelude::*;

verus! {

/// The class of a physical device, as its driver reports it.
#[derive(Clone, Copy, Debug, PartialEq, Eq, Structural)]
pub enum DeviceClass {
    DiscreteGpu,
    IntegratedGpu,
    VirtualGpu,
    Cpu,
    Other,
    /// A class that this library does not know by name.
    Unknown,
}

/// What a device says of one of its queue families.
#[derive(Clone, Copy, Debug, PartialEq, Eq, Structural)]
pub struct QueueFamily {
    /// The family takes graphics work.
    pub graphics: bool,
    /// Whether the family can present to the surface; `None` when the query failed.
    pub surface_support: Option<bool>,
}

/// One physical device of the machine, in the order of enumeration.
#[derive(Clone, Debug, PartialEq, Eq)]
pub struct DeviceCandidate {
    pub class: DeviceClass,
    /// The device offers the swapchain extension.
    pub khr_swapchain: bool,
    pub queue_families: Vec<QueueFamily>,
}

/// Why nothing can be set up to draw on this machine.
#[derive(Clone, Copy, Debug, PartialEq, Eq, Structural)]
pub enum DeviceInitError {
    /// No physical device offers the swapchain extension together with a queue family that
    /// both draws and presents.
    NoSuitableDevice,
    /// The surface offers no image format to the chosen device.
    NoSurfaceFormat,
    /// The surface offers no way of compositing to the chosen device.
    NoCompositeAlpha,
}

/// The device that was chosen, by its place in the enumeration, and its queue family.
#[derive(Clone, Copy, Debug, PartialEq, Eq, Structural)]
pub struct DeviceData {
    pub physical_device: usize,
    pub queue_family_index: u32,
}

/// The preference of a device class: the lower, the better.
pub open spec fn class_rank(class: DeviceClass) -> nat {
    match class {
        DeviceClass::DiscreteGpu => 0,
        DeviceClass::IntegratedGpu => 1,
        DeviceClass::VirtualGpu => 2,
        DeviceClass::Cpu => 3,
        DeviceClass::Other => 4,
        DeviceClass::Unknown => 5,
    }
}

/// A queue family suits when it draws and is known to present. A failed query counts as
/// no support.
pub open spec fn family_suits(family: QueueFamily) -> bool {
    family.graphics && family.surface_support == Some(true)
}

/// `index` is the first suitable family of `families`.
pub open spec fn is_first_suitable(families: Seq<QueueFamily>, index: int) -> bool {
    &&& 0 <= index < families.len()
    &&& family_suits(families[index])
    &&& forall|j: int| 0 <= j < index ==> !family_suits(#[trigger] families[j])
}

impl DeviceCandidate {
    /// The number of queue families fits the 32-bit index by which a family is named.
    pub open spec fn wf(&self) -> bool {
        self.queue_families@.len() <= u32::MAX
    }

    /// The device can be used: it has the swapchain extension and a suitable family.
    pub open spec fn qualifies(&self) -> bool {
        &&& self.khr_swapchain
        &&& exists|i: int|
            0 <= i < self.queue_families@.len() && family_suits(#[trigger] self.queue_families@[i])
    }

    /// The first queue family that draws and presents, if there is one.
    pub fn suitable_family(&self) -> (found: Option<u32>)
        requires
            self.wf(),
        ensures
            match found {
                Some(index) => is_first_suitable(self.queue_families@, index as int),
                None => forall|j: int|
                    0 <= j < self.queue_families@.len() ==> !family_suits(
                        #[trigger] self.queue_families@[j],
                    ),
            },
    {
        let mut i: usize = 0;
        while i < self.queue_families.len()
            invariant
                i <= self.queue_families@.len() <= u32::MAX,
                forall|j: int| 0 <= j < i ==> !family_suits(#[trigger] self.queue_families@[j]),
            decreases self.queue_families@.len() - i,
        {
            let family = self.queue_families[i];
            if family.graphics && matches!(family.surface_support, Some(true)) {
                return Some(i as u32);
            }
            i += 1;
        }
        None
    }
}

/// The candidates all have a number of queue families that a 32-bit index can name.
pub open spec fn candidates_wf(candidates: Seq<DeviceCandidate>) -> bool {
    forall|i: int| 0 <= i < candidates.len() ==> (#[trigger] candidates[i]).wf()
}

/// `index` is the device to choose: it qualifies, no qualifying device has a better class,
/// and none of the same class comes before it.
pub open spec fn is_selected(candidates: Seq<DeviceCandidate>, index: int) -> bool {
    &&& 0 <= index < candidates.len()
    &&& candidates[index].qualifies()
    &&& forall|j: int|
        0 <= j < candidates.len() && (#[trigger] candidates[j]).qualifies() ==> class_rank(
            candidates[index].class,
        ) <= class_rank(candidates[j].class)
    &&& forall|j: int|
        0 <= j < index && (#[trigger] candidates[j]).qualifies() ==> class_rank(
            candidates[index].class,
        ) < class_rank(candidates[j].class)
}

/// The preference of a device class, as a number.
pub fn rank_of(class: DeviceClass) -> (rank: u8)
    ensures
        rank == class_rank(class),
{
    match class {
        DeviceClass::DiscreteGpu => 0,
        DeviceClass::IntegratedGpu => 1,
        DeviceClass::VirtualGpu => 2,
        DeviceClass::Cpu => 3,
        DeviceClass::Other => 4,
        DeviceClass::Unknown => 5,
    }
}

impl DeviceData {
    /// Chooses among `candidates` the device to draw with: of those that qualify, one of the
    /// best class, and of these the first in the enumeration. Its queue family is its first
    /// that draws and presents. Fails exactly when no candidate qualifies.
    pub fn new(candidates: &Vec<DeviceCandidate>) -> (chosen: Result<DeviceData, DeviceInitError>)
        requires
            candidates_wf(candidates@),
        ensures
            match chosen {
                Ok(data) => {
                    &&& is_selected(candidates@, data.physical_device as int)
                    &&& is_first_suitable(
                        candidates@[data.physical_device as int].queue_families@,
                        data.queue_family_index as int,
                    )
                },
                Err(error) => {
                    &&& error == DeviceInitError::NoSuitableDevice
                    &&& forall|i: int|
                        0 <= i < candidates@.len() ==> !(#[trigger] candidates@[i]).qualifies()
                },
            },
    {
        let mut best: Option<DeviceData> = None;
        let mut best_rank: u8 = 0;
        let mut i: usize = 0;
        while i < candidates.len()
            invariant
                i <= candidates@.len(),
                candidates_wf(candidates@),
                match best {
                    Some(data) => {
                        &&& data.physical_device < i
                        &&& best_rank == class_rank(candidates@[data.physical_device as int].class)
                        &&& is_selected(candidates@.take(i as int), data.physical_device as int)
                        &&& is_first_suitable(
                            candidates@[data.physical_device as int].queue_families@,
                            data.queue_family_index as int,
                        )
                    },
                    None => forall|j: int|
                        0 <= j < i ==> !(#[trigger] candidates@[j]).qualifies(),
                },
            decreases candidates@.len() - i,
        {
            let candidate = &candidates[i];
            let ghost before = candidates@.take(i as int);
            let ghost after = candidates@.take(i + 1);
            assert(forall|j: int| 0 <= j < i ==> before[j] == after[j]);
            assert(after[i as int] == candidates@[i as int]);
            let family = if candidate.khr_swapchain {
                candidate.suitable_family()
            } else {
                None
            };
            match family {
                Some(queue_family_index) => {
                    let rank = rank_of(candidate.class);
                    let better = match best {
                        Some(_) => rank < best_rank,
                        None => true,
                    };
                    if better {
                        best = Some(DeviceData { physical_device: i, queue_family_index });
                        best_rank = rank;
                    }
                },
                None => {},
            }
            i += 1;
        }
        assert(candidates@.take(i as int) == candidates@);
        match best {
            Some(data) => Ok(data),
            None => Err(DeviceInitError::NoSuitableDevice),
        }
    }
}

/// The choice is determined by the candidates: two devices cannot both be the one to choose.
pub proof fn selection_is_unique(candidates: Seq<DeviceCandidate>, first: int, second: int)
    requires
        is_selected(candidates, first),
        is_selected(candidates, second),
    ensures
        first == second,
{
    if first < second {
        assert(candidates[first].qualifies());
    } else if second < first {
        assert(candidates[second].qualifies());
    }
}

/// A device that qualifies is never passed over for one of a worse class: the class of the
/// chosen device is at least as good as that of every qualifying candidate.
pub proof fn better_class_is_preferred(candidates: Seq<DeviceCandidate>, chosen: int, other: int)
    requires
        is_selected(candidates, chosen),
        0 <= other < candidates.len(),
        candidates[other].qualifies(),
    ensures
        class_rank(candidates[chosen].class) <= class_rank(candidates[other].class),
{
}

/// Given a discrete and an integrated GPU that both qualify, in either order and among any
/// other candidates, the chosen device is a discrete GPU, and it is not the integrated one.
pub proof fn discrete_is_preferred(
    candidates: Seq<DeviceCandidate>,
    discrete: int,
    integrated: int,
    chosen: int,
)
    requires
        0 <= discrete < candidates.len(),
        0 <= integrated < candidates.len(),
        candidates[discrete].qualifies(),
        candidates[integrated].qualifies(),
        candidates[discrete].class == DeviceClass::DiscreteGpu,
        candidates[integrated].class == DeviceClass::IntegratedGpu,
        is_selected(candidates, chosen),
    ensures
        candidates[chosen].class == DeviceClass::DiscreteGpu,
        chosen != integrated,
        chosen <= discrete,
{
    better_class_is_preferred(candidates, chosen, discrete);
    if discrete < chosen {
        assert(candidates[discrete].qualifies());
    }
}

} // verus!
