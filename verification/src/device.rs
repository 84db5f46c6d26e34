//! Physical device selection.
//!
//! The backend enumerates the platform's physical devices and reports,
//! for each, its kind, whether it offers the required extensions, and its
//! queue families. The choice itself is made here: the first device of
//! the best kind that supports the extensions and has a graphics-capable
//! queue family able to present to the surface.

use vstd::prelude::*;

verus! {

/// A physical device's kind, best first in preference order.
#[derive(Clone, Copy, Debug, PartialEq, Eq, Structural)]
pub enum DeviceKind {
    DiscreteGpu,
    IntegratedGpu,
    VirtualGpu,
    Cpu,
    Other,
}

/// The preference rank of a device kind: discrete GPUs first, then
/// integrated, virtual, CPU, and anything else last.
pub open spec fn spec_rank(kind: DeviceKind) -> u8 {
    match kind {
        DeviceKind::DiscreteGpu => 0u8,
        DeviceKind::IntegratedGpu => 1u8,
        DeviceKind::VirtualGpu => 2u8,
        DeviceKind::Cpu => 3u8,
        DeviceKind::Other => 4u8,
    }
}

/// The preference rank of a device kind; lower is better.
pub fn device_type_rank(kind: &DeviceKind) -> (r: u8)
    ensures
        r == spec_rank(*kind),
{
    match kind {
        DeviceKind::DiscreteGpu => 0,
        DeviceKind::IntegratedGpu => 1,
        DeviceKind::VirtualGpu => 2,
        DeviceKind::Cpu => 3,
        DeviceKind::Other => 4,
    }
}

/// One queue family's capabilities, as reported by the backend.
#[derive(Clone, Copy, Debug, PartialEq, Eq, Structural)]
pub struct QueueFamilyInfo {
    pub graphics: bool,
    pub surface_support: bool,
}

/// Whether a queue family can both draw and present.
pub open spec fn spec_family_ok(f: QueueFamilyInfo) -> bool {
    f.graphics && f.surface_support
}

/// One physical device, as reported by the backend.
#[derive(Clone, Debug)]
pub struct DeviceCandidate {
    pub kind: DeviceKind,
    pub supports_required_extensions: bool,
    pub queue_families: Vec<QueueFamilyInfo>,
}

/// Whether a candidate can be used at all: it has the required
/// extensions and some graphics-and-present queue family.
pub open spec fn spec_eligible(c: DeviceCandidate) -> bool {
    &&& c.supports_required_extensions
    &&& exists|j: int| 0 <= j < c.queue_families@.len() && spec_family_ok(#[trigger] c.queue_families@[j])
}

/// The index of a candidate's first graphics-and-present queue family,
/// provided it supports the required extensions; `None` otherwise.
pub fn is_device_supported(c: &DeviceCandidate) -> (r: Option<usize>)
    ensures
        r matches Some(qi) ==> spec_eligible(*c) && qi < c.queue_families@.len()
            && spec_family_ok(c.queue_families@[qi as int])
            && (forall|j: int| 0 <= j < qi ==> !spec_family_ok(#[trigger] c.queue_families@[j])),
        r is None ==> !spec_eligible(*c),
{
    if !c.supports_required_extensions {
        return None;
    }
    let mut i: usize = 0;
    while i < c.queue_families.len()
        invariant
            i <= c.queue_families@.len(),
            forall|j: int| 0 <= j < i ==> !spec_family_ok(#[trigger] c.queue_families@[j]),
            c.supports_required_extensions,
        decreases c.queue_families@.len() - i,
    {
        let f = c.queue_families[i];
        if f.graphics && f.surface_support {
            return Some(i);
        }
        i = i + 1;
    }
    None
}

/// Picks the physical device to use: among the eligible candidates, the
/// first one of the lowest (best) rank, together with its first
/// graphics-and-present queue family. `None` exactly when no candidate
/// is eligible — initialization then fails.
pub fn select_physical_device(candidates: &Vec<DeviceCandidate>) -> (r: Option<(usize, usize)>)
    ensures
        r matches Some((di, qi)) ==> {
            &&& di < candidates@.len()
            &&& spec_eligible(candidates@[di as int])
            &&& qi < candidates@[di as int].queue_families@.len()
            &&& spec_family_ok(candidates@[di as int].queue_families@[qi as int])
            &&& forall|j: int|
                0 <= j < qi ==> !spec_family_ok(
                    #[trigger] candidates@[di as int].queue_families@[j],
                )
            &&& forall|j: int|
                0 <= j < candidates@.len() && spec_eligible(#[trigger] candidates@[j])
                    ==> spec_rank(candidates@[di as int].kind) <= spec_rank(candidates@[j].kind)
            &&& forall|j: int|
                0 <= j < di && spec_eligible(#[trigger] candidates@[j]) ==> spec_rank(
                    candidates@[di as int].kind,
                ) < spec_rank(candidates@[j].kind)
        },
        r is None ==> forall|j: int|
            0 <= j < candidates@.len() ==> !spec_eligible(#[trigger] candidates@[j]),
{
    let mut best: Option<(usize, usize)> = None;
    let mut best_rank: u8 = 0;
    let mut i: usize = 0;
    while i < candidates.len()
        invariant
            i <= candidates@.len(),
            best is None ==> forall|j: int|
                0 <= j < i ==> !spec_eligible(#[trigger] candidates@[j]),
            best matches Some((di, qi)) ==> {
                &&& di < i
                &&& spec_eligible(candidates@[di as int])
                &&& qi < candidates@[di as int].queue_families@.len()
                &&& spec_family_ok(candidates@[di as int].queue_families@[qi as int])
                &&& (forall|j: int|
                    0 <= j < qi ==> !spec_family_ok(
                        #[trigger] candidates@[di as int].queue_families@[j],
                    ))
                &&& best_rank == spec_rank(candidates@[di as int].kind)
                &&& (forall|j: int|
                    0 <= j < i && spec_eligible(#[trigger] candidates@[j]) ==> best_rank
                        <= spec_rank(candidates@[j].kind))
                &&& (forall|j: int|
                    0 <= j < di && spec_eligible(#[trigger] candidates@[j]) ==> best_rank
                        < spec_rank(candidates@[j].kind))
            },
        decreases candidates@.len() - i,
    {
        let c = &candidates[i];
        match is_device_supported(c) {
            Some(qi) => {
                let rank = device_type_rank(&c.kind);
                let take = match best {
                    None => true,
                    Some(_) => rank < best_rank,
                };
                if take {
                    best = Some((i, qi));
                    best_rank = rank;
                }
            }
            None => {}
        }
        i = i + 1;
    }
    best
}

} // verus!
