use vstd::prelude::*;
use vstd::arithmetic::div_mod::lemma_fundamental_div_mod;

verus! {

/// Three-dimensional coverage region, in texels or invocations.
#[derive(Clone, Copy, Debug, PartialEq, Eq, Structural)]
pub struct Extent {
    pub width: u32,
    pub height: u32,
    pub depth: u32,
}

/// A compute kernel with its fixed per-dispatch thread-group shape.
#[derive(Clone, Copy, Debug, PartialEq, Eq)]
pub struct ComputePipeline {
    pub wg_size: [u32; 3],
}

/// Number of groups of `group` elements needed to cover `extent`
/// elements: the ceiling of `extent / group`.
pub open spec fn dispatch_count(extent: int, group: int) -> int
    recommends
        group >= 1,
{
    (extent + group - 1) / group
}

/// The ceiling division used for dispatch sizing is minimal: `count`
/// groups cover the extent, while `count - 1` groups fall short of any
/// non-empty extent; an empty extent needs no group at all.
pub proof fn lemma_dispatch_count_minimal(extent: int, group: int)
    requires
        extent >= 0,
        group >= 1,
    ensures
        dispatch_count(extent, group) * group >= extent,
        extent > 0 ==> (dispatch_count(extent, group) - 1) * group < extent,
        extent == 0 ==> dispatch_count(extent, group) == 0,
        0 <= dispatch_count(extent, group) <= extent,
{
    let c = dispatch_count(extent, group);
    lemma_fundamental_div_mod(extent + group - 1, group);
    assert(extent + group - 1 == group * c + (extent + group - 1) % group);
    assert(0 <= (extent + group - 1) % group < group);
    assert(c * group >= extent) by (nonlinear_arith)
        requires
            extent + group - 1 == group * c + (extent + group - 1) % group,
            0 <= (extent + group - 1) % group < group,
            group >= 1,
    ;
    assert((c - 1) * group < extent) by (nonlinear_arith)
        requires
            extent + group - 1 == group * c + (extent + group - 1) % group,
            0 <= (extent + group - 1) % group < group,
            group >= 1,
    ;
    assert(c <= extent) by (nonlinear_arith)
        requires
            extent + group - 1 == group * c + (extent + group - 1) % group,
            0 <= (extent + group - 1) % group < group,
            group >= 1,
            extent >= 0,
    ;
    assert(c >= 0) by (nonlinear_arith)
        requires
            extent + group - 1 == group * c + (extent + group - 1) % group,
            0 <= (extent + group - 1) % group < group,
            group >= 1,
            extent >= 0,
    ;
}

/// Groups needed along one axis: ceiling division, widened to 64 bits so
/// that the intermediate sum cannot overflow.
fn axis_group_count(extent: u32, group: u32) -> (r: u32)
    requires
        group >= 1,
    ensures
        r == dispatch_count(extent as int, group as int),
{
    proof {
        lemma_dispatch_count_minimal(extent as int, group as int);
    }
    let wide: u64 = ((extent as u64) + (group as u64) - 1) / (group as u64);
    wide as u32
}

impl ComputePipeline {
    /// The fixed thread-group shape baked into the kernel.
    pub fn get_workgroup_size(&self) -> (r: [u32; 3])
        ensures
            r == self.wg_size,
    {
        self.wg_size
    }

    /// The dispatch group counts sufficient to cover the given extent:
    /// along each axis, the least count whose total coverage reaches the
    /// extent. A zero extent along an axis needs zero groups there.
    pub fn get_dispatch_for(&self, extent: Extent) -> (r: [u32; 3])
        requires
            self.wg_size[0] >= 1,
            self.wg_size[1] >= 1,
            self.wg_size[2] >= 1,
        ensures
            r[0] == dispatch_count(extent.width as int, self.wg_size[0] as int),
            r[1] == dispatch_count(extent.height as int, self.wg_size[1] as int),
            r[2] == dispatch_count(extent.depth as int, self.wg_size[2] as int),
            r[0] * self.wg_size[0] >= extent.width,
            r[1] * self.wg_size[1] >= extent.height,
            r[2] * self.wg_size[2] >= extent.depth,
            extent.width > 0 ==> (r[0] - 1) * self.wg_size[0] < extent.width,
            extent.height > 0 ==> (r[1] - 1) * self.wg_size[1] < extent.height,
            extent.depth > 0 ==> (r[2] - 1) * self.wg_size[2] < extent.depth,
            extent.width == 0 ==> r[0] == 0,
            extent.height == 0 ==> r[1] == 0,
            extent.depth == 0 ==> r[2] == 0,
    {
        proof {
            lemma_dispatch_count_minimal(extent.width as int, self.wg_size[0] as int);
            lemma_dispatch_count_minimal(extent.height as int, self.wg_size[1] as int);
            lemma_dispatch_count_minimal(extent.depth as int, self.wg_size[2] as int);
        }
        let wg_size = self.get_workgroup_size();
        [
            axis_group_count(extent.width, wg_size[0]),
            axis_group_count(extent.height, wg_size[1]),
            axis_group_count(extent.depth, wg_size[2]),
        ]
    }
}

} // verus!
