use gpu_tensor::error::TensorError;
use gpu_tensor::plan::{
    axis_groups, elementwise_plan, matmul_plan, ElementwisePlan, Grid, MatmulPlan,
};
use gpu_tensor::shape::Shape;
use gpu_tensor::strassen::{strassen_plan, Tiles};

#[test]
fn matmul_plan_gives_output_shape_dimensions_and_grid() {
    let plan = matmul_plan(Shape::D2(64, 32), Shape::D2(32, 128), 32);
    assert_eq!(
        plan,
        Ok(MatmulPlan {
            out: Shape::D2(64, 128),
            out_bytes: 64 * 128 * 4,
            rows: 64,
            inner: 32,
            cols: 128,
            grid: Grid { x: 2, y: 4, z: 1 },
        })
    );
}

#[test]
fn matmul_plan_of_large_squares() {
    let plan = matmul_plan(Shape::D2(1024, 1024), Shape::D2(1024, 1024), 32).unwrap();
    assert_eq!(plan.grid, Grid { x: 32, y: 32, z: 1 });
    assert_eq!(plan.out_bytes, 4 * 1024 * 1024);
    assert_eq!((plan.rows, plan.inner, plan.cols), (1024, 1024, 1024));
}

#[test]
fn matmul_plan_with_a_tile_of_one_launches_one_workgroup_per_cell() {
    let plan = matmul_plan(Shape::D2(2, 2), Shape::D2(2, 2), 1).unwrap();
    assert_eq!(plan.out, Shape::D2(2, 2));
    assert_eq!(plan.grid, Grid { x: 2, y: 2, z: 1 });
    assert_eq!(plan.out_bytes, 16);
}

#[test]
fn matmul_plan_refuses_disagreeing_inner_dimensions() {
    assert_eq!(
        matmul_plan(Shape::D2(2, 3), Shape::D2(2, 2), 1),
        Err(TensorError::IncompatibleShape)
    );
    assert_eq!(
        matmul_plan(Shape::D2(32, 64), Shape::D2(32, 64), 32),
        Err(TensorError::IncompatibleShape)
    );
    // The inner dimensions are looked at before anything else.
    assert_eq!(
        matmul_plan(Shape::D2(5, 3), Shape::D2(4, 7), 0),
        Err(TensorError::IncompatibleShape)
    );
}

#[test]
fn matmul_plan_refuses_rows_or_columns_that_are_not_whole_tiles() {
    assert_eq!(
        matmul_plan(Shape::D2(2, 2), Shape::D2(2, 2), 32),
        Err(TensorError::TileMisaligned)
    );
    assert_eq!(
        matmul_plan(Shape::D2(33, 32), Shape::D2(32, 32), 32),
        Err(TensorError::TileMisaligned)
    );
    assert_eq!(
        matmul_plan(Shape::D2(32, 32), Shape::D2(32, 48), 32),
        Err(TensorError::TileMisaligned)
    );
    assert_eq!(
        matmul_plan(Shape::D2(32, 32), Shape::D2(32, 32), 0),
        Err(TensorError::TileMisaligned)
    );
}

#[test]
fn matmul_plan_does_not_tile_the_inner_dimension() {
    let plan = matmul_plan(Shape::D2(32, 5), Shape::D2(5, 64), 32).unwrap();
    assert_eq!(plan.inner, 5);
    assert_eq!(plan.grid, Grid { x: 1, y: 2, z: 1 });
}

#[test]
fn matmul_plan_of_an_empty_product_launches_nothing() {
    let plan = matmul_plan(Shape::D2(0, 4), Shape::D2(4, 32), 32).unwrap();
    assert_eq!(plan.out, Shape::D2(0, 32));
    assert_eq!(plan.out_bytes, 0);
    assert_eq!(plan.grid, Grid { x: 0, y: 1, z: 1 });
}

#[test]
fn matmul_plan_refuses_dimensions_beyond_32_bits() {
    let big = (u32::MAX as usize) + 1;
    assert_eq!(
        matmul_plan(Shape::D2(big, 1), Shape::D2(1, 1), 1),
        Err(TensorError::TooLarge)
    );
    assert_eq!(
        matmul_plan(Shape::D2(1, 1), Shape::D2(1, big), 1),
        Err(TensorError::TooLarge)
    );
    assert_eq!(
        matmul_plan(Shape::D2(1, big), Shape::D2(big, 1), 1),
        Err(TensorError::TooLarge)
    );
}

#[test]
fn axis_groups_is_one_below_the_tile_and_a_quotient_above() {
    assert_eq!(axis_groups(0, 16), Ok(1));
    assert_eq!(axis_groups(2, 16), Ok(1));
    assert_eq!(axis_groups(15, 16), Ok(1));
    assert_eq!(axis_groups(16, 16), Ok(1));
    assert_eq!(axis_groups(32, 16), Ok(2));
    assert_eq!(axis_groups(8192, 16), Ok(512));
}

#[test]
fn axis_groups_refuses_a_remainder() {
    assert_eq!(axis_groups(17, 16), Err(TensorError::TileMisaligned));
    assert_eq!(axis_groups(31, 16), Err(TensorError::TileMisaligned));
    assert_eq!(axis_groups(0, 0), Err(TensorError::TileMisaligned));
    assert_eq!(axis_groups(4, 0), Err(TensorError::TileMisaligned));
}

#[test]
fn axis_groups_refuses_a_count_beyond_32_bits() {
    let n = ((u32::MAX as usize) + 1) * 2;
    assert_eq!(axis_groups(n, 1), Err(TensorError::TooLarge));
    assert_eq!(axis_groups(n, 2), Err(TensorError::TooLarge));
    assert_eq!(axis_groups(n, 4), Ok(1 << 31));
    assert_eq!(axis_groups(u32::MAX as usize, 1), Ok(u32::MAX));
}

#[test]
fn elementwise_plan_keeps_the_shape() {
    assert_eq!(
        elementwise_plan(Shape::D2(2, 2), Shape::D2(2, 2), 16),
        Ok(ElementwisePlan { out: Shape::D2(2, 2), out_bytes: 16, grid: Grid { x: 1, y: 1, z: 1 } })
    );
    assert_eq!(
        elementwise_plan(Shape::D2(512, 64), Shape::D2(512, 64), 16),
        Ok(ElementwisePlan {
            out: Shape::D2(512, 64),
            out_bytes: 512 * 64 * 4,
            grid: Grid { x: 32, y: 4, z: 1 },
        })
    );
    assert_eq!(
        elementwise_plan(Shape::D2(3, 160), Shape::D2(3, 160), 16),
        Ok(ElementwisePlan {
            out: Shape::D2(3, 160),
            out_bytes: 3 * 160 * 4,
            grid: Grid { x: 1, y: 10, z: 1 },
        })
    );
}

#[test]
fn elementwise_plan_refuses_different_shapes() {
    assert_eq!(
        elementwise_plan(Shape::D2(2, 3), Shape::D2(3, 2), 16),
        Err(TensorError::ShapeMismatch)
    );
    assert_eq!(
        elementwise_plan(Shape::D2(16, 16), Shape::D2(16, 32), 16),
        Err(TensorError::ShapeMismatch)
    );
    // The shapes are looked at before the tiles.
    assert_eq!(
        elementwise_plan(Shape::D2(17, 16), Shape::D2(16, 17), 16),
        Err(TensorError::ShapeMismatch)
    );
}

#[test]
fn elementwise_plan_refuses_an_axis_with_a_remainder() {
    assert_eq!(
        elementwise_plan(Shape::D2(17, 16), Shape::D2(17, 16), 16),
        Err(TensorError::TileMisaligned)
    );
    assert_eq!(
        elementwise_plan(Shape::D2(16, 40), Shape::D2(16, 40), 16),
        Err(TensorError::TileMisaligned)
    );
}

#[test]
fn strassen_plan_accepts_square_blocks_of_whole_tiles() {
    let tiles = Tiles { matmul: 32, add: 16, sub: 16 };
    let blocks = [Shape::D2(512, 512); 4];
    assert_eq!(strassen_plan(&blocks, &blocks, tiles), Ok(Shape::D2(512, 512)));
}

#[test]
fn strassen_plan_accepts_rectangular_blocks() {
    let tiles = Tiles { matmul: 1, add: 16, sub: 16 };
    let left = [Shape::D2(2, 3); 4];
    let right = [Shape::D2(3, 5); 4];
    assert_eq!(strassen_plan(&left, &right, tiles), Ok(Shape::D2(2, 5)));
}

#[test]
fn strassen_plan_refuses_blocks_of_different_shapes() {
    let tiles = Tiles { matmul: 1, add: 16, sub: 16 };
    let even = [Shape::D2(2, 2); 4];
    for odd_one in 1..4 {
        let mut uneven = even;
        uneven[odd_one] = Shape::D2(2, 3);
        assert_eq!(strassen_plan(&uneven, &even, tiles), Err(TensorError::ShapeMismatch));
        assert_eq!(strassen_plan(&even, &uneven, tiles), Err(TensorError::ShapeMismatch));
    }
    let mut first = even;
    first[0] = Shape::D2(4, 4);
    assert_eq!(strassen_plan(&first, &even, tiles), Err(TensorError::ShapeMismatch));
}

#[test]
fn strassen_plan_refuses_what_one_of_its_operations_refuses() {
    let blocks = [Shape::D2(2, 2); 4];
    assert_eq!(
        strassen_plan(&blocks, &blocks, Tiles { matmul: 32, add: 16, sub: 16 }),
        Err(TensorError::TileMisaligned)
    );
    let left = [Shape::D2(2, 3); 4];
    let right = [Shape::D2(2, 3); 4];
    assert_eq!(
        strassen_plan(&left, &right, Tiles { matmul: 1, add: 16, sub: 16 }),
        Err(TensorError::IncompatibleShape)
    );
    let wide = [Shape::D2(24, 24); 4];
    assert_eq!(
        strassen_plan(&wide, &wide, Tiles { matmul: 1, add: 8, sub: 16 }),
        Err(TensorError::TileMisaligned)
    );
    assert_eq!(
        strassen_plan(&wide, &wide, Tiles { matmul: 1, add: 8, sub: 8 }),
        Ok(Shape::D2(24, 24))
    );
}

#[test]
fn tiles_are_taken_from_the_kernels() {
    let kernels = gpu_tensor::kernel::KernelSet {
        matmul: gpu_tensor::kernel::Kernel::new("m", "", 32),
        add: gpu_tensor::kernel::Kernel::new("a", "", 16),
        sub: gpu_tensor::kernel::Kernel::new("s", "", 8),
    };
    assert_eq!(Tiles::of(&kernels), Tiles { matmul: 32, add: 16, sub: 8 });
}
