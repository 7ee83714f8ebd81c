use blade_graphics::{ComputePipeline, Extent};

fn extent(width: u32, height: u32, depth: u32) -> Extent {
    Extent {
        width,
        height,
        depth,
    }
}

#[test]
fn dispatch_rounds_up() {
    let pipeline = ComputePipeline {
        wg_size: [8, 8, 1],
    };
    assert_eq!(pipeline.get_dispatch_for(extent(17, 8, 1)), [3, 1, 1]);
}

#[test]
fn dispatch_exact_fit() {
    let pipeline = ComputePipeline {
        wg_size: [8, 8, 1],
    };
    assert_eq!(pipeline.get_dispatch_for(extent(16, 16, 1)), [2, 2, 1]);
}

#[test]
fn dispatch_zero_extent_axis() {
    let pipeline = ComputePipeline {
        wg_size: [8, 8, 1],
    };
    assert_eq!(pipeline.get_dispatch_for(extent(0, 5, 1)), [0, 1, 1]);
}

#[test]
fn dispatch_is_minimal_cover() {
    // A spread of positive workgroup sizes and extents; along every axis
    // the count must cover the extent while one group fewer falls short.
    let cases = [
        ([1, 1, 1], (1, 1, 1)),
        ([3, 5, 7], (10, 10, 10)),
        ([64, 1, 1], (4096, 17, 2)),
        ([16, 16, 4], (123, 456, 7)),
        ([13, 29, 31], (1000, 999, 62)),
        ([256, 2, 2], (255, 257, 3)),
        ([8, 8, 8], (u32::MAX, 9, 8)),
    ];
    for (wg_size, (w, h, d)) in cases {
        let pipeline = ComputePipeline { wg_size };
        let count = pipeline.get_dispatch_for(extent(w, h, d));
        let extents = [w, h, d];
        for axis in 0..3 {
            let c = count[axis] as u64;
            let wg = wg_size[axis] as u64;
            let e = extents[axis] as u64;
            assert!(c * wg >= e, "under-covering on axis {}", axis);
            assert!((c.saturating_sub(1)) * wg < e || e == 0, "over-dispatch on axis {}", axis);
            if e == 0 {
                assert_eq!(c, 0);
            }
        }
    }
}

#[test]
fn workgroup_size_accessor() {
    let pipeline = ComputePipeline {
        wg_size: [4, 2, 1],
    };
    assert_eq!(pipeline.get_workgroup_size(), [4, 2, 1]);
}
