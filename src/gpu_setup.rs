//! Decisions taken when the GPU device and a window's swapchain are set up,
//! and the static cube mesh's index data.
use vstd::prelude::*;

verus! {

/// The kind of a physical device.
#[derive(Clone, Copy, Debug, PartialEq, Eq, Structural)]
pub enum DeviceKind {
    DiscreteGpu,
    IntegratedGpu,
    VirtualGpu,
    Cpu,
    Other,
    /// A kind that this library does not know.
    Unknown,
}

/// Preference among device kinds: lower is preferred.
pub open spec fn kind_rank(k: DeviceKind) -> int {
    match k {
        DeviceKind::DiscreteGpu => 0,
        DeviceKind::IntegratedGpu => 1,
        DeviceKind::VirtualGpu => 2,
        DeviceKind::Cpu => 3,
        DeviceKind::Other => 4,
        DeviceKind::Unknown => 5,
    }
}

/// What device selection needs to know of a physical device.
pub struct DeviceCandidate {
    /// The device offers dynamic rendering, by its API version or by extension.
    pub supports_dynamic_rendering: bool,
    /// The device offers every required device extension.
    pub supports_required_extensions: bool,
    /// For each queue family: it supports graphics and can present to the window.
    pub queue_families: Vec<bool>,
    pub kind: DeviceKind,
}

/// `q` is the first queue family of `families` that can draw and present.
pub open spec fn is_first_family(families: Seq<bool>, q: int) -> bool {
    0 <= q < families.len() && families[q] && forall|p: int| 0 <= p < q ==> !families[p]
}

/// The device can be used: it has what rendering needs and a queue family
/// that can draw and present.
pub open spec fn is_eligible(c: DeviceCandidate) -> bool {
    &&& c.supports_dynamic_rendering
    &&& c.supports_required_extensions
    &&& exists|q: int| 0 <= q < c.queue_families@.len() && c.queue_families@[q]
}

fn kind_rank_of(k: DeviceKind) -> (r: u8)
    ensures
        r == kind_rank(k),
{
    match k {
        DeviceKind::DiscreteGpu => 0,
        DeviceKind::IntegratedGpu => 1,
        DeviceKind::VirtualGpu => 2,
        DeviceKind::Cpu => 3,
        DeviceKind::Other => 4,
        DeviceKind::Unknown => 5,
    }
}

fn first_family(families: &Vec<bool>) -> (r: Option<usize>)
    ensures
        match r {
            Some(q) => is_first_family(families@, q as int),
            None => forall|q: int| 0 <= q < families@.len() ==> !families@[q],
        },
{
    let mut q: usize = 0;
    while q < families.len()
        invariant
            0 <= q <= families@.len(),
            forall|p: int| 0 <= p < q ==> !families@[p],
        decreases families@.len() - q,
    {
        if families[q] {
            return Some(q);
        }
        q += 1;
    }
    None
}

/// Picks the device to render with: among the eligible devices, the first of
/// the most preferred kind, with its first queue family that can draw and
/// present.  `None` when no device is eligible.
pub fn select_physical_device(candidates: &Vec<DeviceCandidate>) -> (r: Option<(usize, u32)>)
    requires
        forall|i: int| 0 <= i < candidates@.len() ==> candidates@[i].queue_families@.len() <= u32::MAX,
    ensures
        match r {
            Some((i, q)) => {
                &&& i < candidates@.len()
                &&& is_eligible(candidates@[i as int])
                &&& is_first_family(candidates@[i as int].queue_families@, q as int)
                &&& forall|j: int|
                    0 <= j < candidates@.len() && is_eligible(#[trigger] candidates@[j]) ==> kind_rank(
                        candidates@[j].kind,
                    ) >= kind_rank(candidates@[i as int].kind)
                &&& forall|j: int|
                    0 <= j < i && is_eligible(#[trigger] candidates@[j]) ==> kind_rank(
                        candidates@[j].kind,
                    ) > kind_rank(candidates@[i as int].kind)
            },
            None => forall|j: int| 0 <= j < candidates@.len() ==> !is_eligible(#[trigger] candidates@[j]),
        },
{
    let mut best: Option<(usize, u32)> = None;
    let mut best_rank: u8 = 0;
    let mut i: usize = 0;
    while i < candidates.len()
        invariant
            0 <= i <= candidates@.len(),
            forall|k: int| 0 <= k < candidates@.len() ==> candidates@[k].queue_families@.len() <= u32::MAX,
            match best {
                Some((b, q)) => {
                    &&& b < i
                    &&& is_eligible(candidates@[b as int])
                    &&& is_first_family(candidates@[b as int].queue_families@, q as int)
                    &&& best_rank == kind_rank(candidates@[b as int].kind)
                    &&& forall|j: int|
                        0 <= j < i && is_eligible(#[trigger] candidates@[j]) ==> kind_rank(
                            candidates@[j].kind,
                        ) >= best_rank
                    &&& forall|j: int|
                        0 <= j < b && is_eligible(#[trigger] candidates@[j]) ==> kind_rank(
                            candidates@[j].kind,
                        ) > best_rank
                },
                None => forall|j: int| 0 <= j < i ==> !is_eligible(#[trigger] candidates@[j]),
            },
        decreases candidates@.len() - i,
    {
        let c = &candidates[i];
        if c.supports_dynamic_rendering && c.supports_required_extensions {
            match first_family(&c.queue_families) {
                Some(q) => {
                    let rank = kind_rank_of(c.kind);
                    let better = match best {
                        Some(_) => rank < best_rank,
                        None => true,
                    };
                    if better {
                        best = Some((i, q as u32));
                        best_rank = rank;
                    }
                },
                None => {},
            }
        }
        i += 1;
    }
    best
}

/// The kinds of surface format that the renderer tells apart.
#[derive(Clone, Copy, Debug, PartialEq, Eq, Structural)]
pub enum SurfaceFormatKind {
    /// Four 16-bit floating-point channels.
    R16g16b16a16Sfloat,
    /// Packed 10-bit colour channels and a 2-bit alpha channel.
    A2b10g10r10UnormPack32,
    Other,
}

pub open spec fn is_preferred_format(f: SurfaceFormatKind) -> bool {
    f != SurfaceFormatKind::Other
}

/// Picks the swapchain's image format among those the surface offers: the
/// first preferred one, else the first offered.  `None` when none is offered.
pub fn choose_image_format(formats: &Vec<SurfaceFormatKind>) -> (r: Option<usize>)
    ensures
        formats@.len() == 0 <==> r is None,
        match r {
            Some(i) => if exists|j: int| 0 <= j < formats@.len() && is_preferred_format(formats@[j]) {
                &&& i < formats@.len()
                &&& is_preferred_format(formats@[i as int])
                &&& forall|j: int| 0 <= j < i ==> !is_preferred_format(formats@[j])
            } else {
                i == 0
            },
            None => true,
        },
{
    let mut i: usize = 0;
    while i < formats.len()
        invariant
            0 <= i <= formats@.len(),
            forall|j: int| 0 <= j < i ==> !is_preferred_format(formats@[j]),
        decreases formats@.len() - i,
    {
        if formats[i] != SurfaceFormatKind::Other {
            return Some(i);
        }
        i += 1;
    }
    if formats.len() == 0 {
        None
    } else {
        Some(0)
    }
}

/// The number of swapchain images to ask for: at least two, and at least the
/// surface's minimum.
pub fn swapchain_image_count(min_supported: u32) -> (r: u32)
    ensures
        r == if min_supported >= 2 {
            min_supported
        } else {
            2
        },
{
    if min_supported >= 2 {
        min_supported
    } else {
        2
    }
}

/// The number of vertices of the cube mesh.
pub const CUBE_VERTEX_COUNT: u16 = 8;

/// The cube's triangle list: two triangles per face, wound so that faces
/// seen from outside are front faces and back faces can be culled.
pub open spec fn cube_index_seq() -> Seq<u16> {
    seq![
        0, 2, 1, 0, 3, 2, 5, 7, 4, 5, 6, 7, 3, 6, 2, 3, 7, 6, 4, 1, 5, 4, 0, 1, 1, 6, 5, 1, 2, 6, 4,
        3, 0, 4, 7, 3,
    ]
}

/// The index data of the cube mesh: 36 indices into its 8 vertices.
pub fn cube_indices() -> (r: Vec<u16>)
    ensures
        r@ == cube_index_seq(),
        r@.len() == 36,
        forall|i: int| 0 <= i < r@.len() ==> r@[i] < CUBE_VERTEX_COUNT,
{
    let r: Vec<u16> = vec![
        0, 2, 1, 0, 3, 2, 5, 7, 4, 5, 6, 7, 3, 6, 2, 3, 7, 6, 4, 1, 5, 4, 0, 1, 1, 6, 5, 1, 2, 6, 4,
        3, 0, 4, 7, 3,
    ];
    assert(r@ =~= cube_index_seq());
    r
}

} // verus!
