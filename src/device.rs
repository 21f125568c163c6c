use vstd::prelude::*;

verus! {

/// What kind of processor a Vulkan physical device is.
#[derive(Clone, Copy, Debug, PartialEq, Eq, Structural)]
pub enum DeviceKind {
    DiscreteGpu,
    IntegratedGpu,
    VirtualGpu,
    Cpu,
    Other,
}

/// How much a device of kind `kind` is preferred: lower is better.
pub open spec fn rank(kind: DeviceKind) -> u8 {
    match kind {
        DeviceKind::DiscreteGpu => 0,
        DeviceKind::IntegratedGpu => 1,
        DeviceKind::VirtualGpu => 2,
        DeviceKind::Cpu => 3,
        DeviceKind::Other => 4,
    }
}

impl DeviceKind {
    /// Discrete GPUs first, then integrated, virtual, CPU and other devices.
    pub fn preference(&self) -> (r: u8)
        ensures
            r == rank(*self),
    {
        match self {
            DeviceKind::DiscreteGpu => 0,
            DeviceKind::IntegratedGpu => 1,
            DeviceKind::VirtualGpu => 2,
            DeviceKind::Cpu => 3,
            DeviceKind::Other => 4,
        }
    }
}

/// `i` is the first of `kinds` with the best rank.
pub open spec fn is_first_best(kinds: Seq<DeviceKind>, i: int) -> bool {
    &&& 0 <= i < kinds.len()
    &&& forall|j: int| 0 <= j < kinds.len() ==> rank(kinds[i]) <= rank(kinds[j])
    &&& forall|j: int| 0 <= j < i ==> rank(kinds[i]) < rank(kinds[j])
}

/// Among the usable devices, of kinds `kinds`, the position of the first of the
/// most preferred kind; `None` when there is no device.
pub fn pick_device(kinds: &Vec<DeviceKind>) -> (r: Option<usize>)
    ensures
        r is None <==> kinds@.len() == 0,
        r matches Some(i) ==> is_first_best(kinds@, i as int),
{
    if kinds.len() == 0 {
        return None;
    }
    let mut best: usize = 0;
    let mut i: usize = 1;
    while i < kinds.len()
        invariant
            1 <= i <= kinds@.len(),
            best < i,
            forall|j: int| 0 <= j < i ==> rank(kinds@[best as int]) <= rank(kinds@[j]),
            forall|j: int| 0 <= j < best ==> rank(kinds@[best as int]) < rank(kinds@[j]),
        decreases kinds@.len() - i,
    {
        if kinds[i].preference() < kinds[best].preference() {
            best = i;
        }
        i = i + 1;
    }
    Some(best)
}

} // verus!
