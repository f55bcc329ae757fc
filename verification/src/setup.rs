//! Choices made once, while the renderer is set up.
use vstd::prelude::*;

verus! {

/// Width and height of a surface or swapchain image, in pixels.
#[derive(Clone, Copy, Debug, PartialEq, Eq, Structural)]
pub struct Extent {
    pub width: u32,
    pub height: u32,
}

/// The extent used when the surface does not report one.
pub open spec fn fallback_extent() -> Extent {
    Extent { width: 1024, height: 768 }
}

/// The extent to build the swapchain with: the one the surface reports,
/// or 1024 x 768 when it reports none.
pub open spec fn spec_surface_extent(current: Option<Extent>) -> Extent {
    match current {
        Some(e) => e,
        None => fallback_extent(),
    }
}

/// Picks the swapchain extent from the surface's current extent.
pub fn surface_extent(current: Option<Extent>) -> (e: Extent)
    ensures
        e == spec_surface_extent(current),
        current matches Some(c) ==> e == c,
        current is None ==> e.width == 1024 && e.height == 768,
{
    match current {
        Some(e) => e,
        None => Extent { width: 1024, height: 768 },
    }
}


/// What setup learns of one queue family of the physical device.
#[derive(Clone, Copy, Debug, PartialEq, Eq, Structural)]
pub struct QueueFamilyCaps {
    /// The family supports graphics operations.
    pub supports_graphics: bool,
    /// Whether the window surface can present from this family;
    /// `None` when the query failed.
    pub surface_support: Option<bool>,
}

/// A family can be used for drawing when it supports graphics and the surface
/// reports that it can present from it (a failed query counts as "no").
pub open spec fn usable_family(q: QueueFamilyCaps) -> bool {
    q.supports_graphics && q.surface_support == Some(true)
}

/// The swapchain extent is the one the surface reports, whatever it is,
/// and exactly 1024 x 768 when the surface reports none.
pub proof fn lemma_surface_extent_is_reported_or_fallback(e: Extent)
    ensures
        spec_surface_extent(Some(e)) == e,
        spec_surface_extent(None).width == 1024,
        spec_surface_extent(None).height == 768,
{
}

/// A family is usable exactly when it supports graphics and its surface
/// query answered "yes"; a "no" or a failed query makes it unusable.
pub proof fn lemma_usable_family_fields(q: QueueFamilyCaps)
    ensures
        usable_family(q) <==> (q.supports_graphics && q.surface_support == Some(true)),
        !q.supports_graphics ==> !usable_family(q),
        q.surface_support == Some(false) ==> !usable_family(q),
        q.surface_support is None ==> !usable_family(q),
{
}

/// Picks the first usable queue family, in the order the device lists them.
pub fn select_queue_family(families: &Vec<QueueFamilyCaps>) -> (r: Option<usize>)
    ensures
        match r {
            Some(i) => {
                &&& i < families@.len()
                &&& usable_family(families@[i as int])
                &&& forall|j: int| 0 <= j < i ==> !usable_family(#[trigger] families@[j])
            },
            None => forall|j: int|
                0 <= j < families@.len() ==> !usable_family(#[trigger] families@[j]),
        },
        r matches Some(i) ==> families@[i as int].supports_graphics && families@[i as int].surface_support
            == Some(true),
        forall|j: int|
            0 <= j < families@.len() && (r is None || j < r->0 as int) ==> !(
            #[trigger] families@[j]).supports_graphics || families@[j].surface_support != Some(
                true,
            ),
{
    let mut i: usize = 0;
    while i < families.len()
        invariant
            i <= families@.len(),
            forall|j: int| 0 <= j < i ==> !usable_family(#[trigger] families@[j]),
        decreases families@.len() - i,
    {
        let q = families[i];
        let presents = match q.surface_support {
            Some(b) => b,
            None => false,
        };
        if q.supports_graphics && presents {
            return Some(i);
        }
        i = i + 1;
    }
    None
}

/// The corners of the cube drawn as a point cloud, in drawing order.
pub open spec fn spec_cube_corners() -> Seq<(i8, i8, i8)> {
    seq![
        (1i8, 1i8, -1i8),
        (1i8, -1i8, -1i8),
        (-1i8, -1i8, -1i8),
        (-1i8, 1i8, -1i8),
        (1i8, 1i8, 1i8),
        (1i8, -1i8, 1i8),
        (-1i8, -1i8, 1i8),
        (-1i8, 1i8, 1i8),
    ]
}

/// The vertex positions that are uploaded each frame.
pub fn cube_corners() -> (v: Vec<(i8, i8, i8)>)
    ensures
        v@ == spec_cube_corners(),
{
    let v: Vec<(i8, i8, i8)> = vec![
        (1, 1, -1),
        (1, -1, -1),
        (-1, -1, -1),
        (-1, 1, -1),
        (1, 1, 1),
        (1, -1, 1),
        (-1, -1, 1),
        (-1, 1, 1),
    ];
    v
}

/// The drawing order: the four corners of the face z = -1 go round it from
/// (1, 1) through (1, -1) and (-1, -1) to (-1, 1), and the face z = 1
/// follows in the same order.
pub proof fn lemma_cube_corners_order()
    ensures
        spec_cube_corners().len() == 8,
        spec_cube_corners()[0] == (1i8, 1i8, -1i8),
        spec_cube_corners()[1] == (1i8, -1i8, -1i8),
        spec_cube_corners()[2] == (-1i8, -1i8, -1i8),
        spec_cube_corners()[3] == (-1i8, 1i8, -1i8),
        forall|i: int|
            0 <= i < 4 ==> #[trigger] spec_cube_corners()[i + 4] == (
                spec_cube_corners()[i].0,
                spec_cube_corners()[i].1,
                1i8,
            ),
{
}

/// Is `c` one of the corners of the cube [-1, 1]^3?
pub open spec fn is_unit_cube_corner(c: (i8, i8, i8)) -> bool {
    &&& (c.0 == 1 || c.0 == -1)
    &&& (c.1 == 1 || c.1 == -1)
    &&& (c.2 == 1 || c.2 == -1)
}

/// The point cloud is exactly the cube [-1, 1]^3: every listed point is one of
/// its corners, no corner is listed twice, and every corner is listed.
pub proof fn lemma_cube_corners_cover_cube()
    ensures
        spec_cube_corners().len() == 8,
        forall|i: int| 0 <= i < 8 ==> is_unit_cube_corner(#[trigger] spec_cube_corners()[i]),
        forall|i: int, j: int|
            0 <= i < 8 && 0 <= j < 8 && i != j ==> spec_cube_corners()[i]
                != spec_cube_corners()[j],
        forall|c: (i8, i8, i8)|
            is_unit_cube_corner(c) ==> #[trigger] spec_cube_corners().contains(c),
{
    let s = spec_cube_corners();
    assert forall|c: (i8, i8, i8)| is_unit_cube_corner(c) implies #[trigger] s.contains(c) by {
        if c.2 == -1 {
            if c.0 == 1 && c.1 == 1 {
                assert(s[0] == c);
            } else if c.0 == 1 {
                assert(s[1] == c);
            } else if c.1 == -1 {
                assert(s[2] == c);
            } else {
                assert(s[3] == c);
            }
        } else {
            if c.0 == 1 && c.1 == 1 {
                assert(s[4] == c);
            } else if c.0 == 1 {
                assert(s[5] == c);
            } else if c.1 == -1 {
                assert(s[6] == c);
            } else {
                assert(s[7] == c);
            }
        }
    }
}

} // verus!
