//! Tests that need a compute device. On a machine without one, every
//! operation that reaches for the device must fail with
//! `DeviceAcquisitionFailure`, and that is what these tests then check.

use gpu_tensor::error::TensorError;
use gpu_tensor::gpu::{BufferRole, DeviceLimits, GpuBuffer};
use gpu_tensor::kernel::{source_hash, Kernel, KernelSet};
use gpu_tensor::plan::Grid;
use gpu_tensor::server::{
    binding_slots, create_buffer, create_buffer_init, get_device_read, get_shader, no_reports,
    Wgpu, WgpuServer,
};
use gpu_tensor::shape::Shape;
use gpu_tensor::strassen::Strassen4;
use gpu_tensor::tensor::RawGf32;

fn matmul_source(tile: u32) -> String {
    format!(
        "@group(0) @binding(0) var<storage, read> lhs: array<f32>;
@group(0) @binding(1) var<storage, read> rhs: array<f32>;
@group(0) @binding(2) var<storage, read_write> product: array<f32>;
@group(0) @binding(3) var<storage, read> sizes: array<u32>;

@compute @workgroup_size({tile}, {tile}, 1)
fn main(@builtin(global_invocation_id) id: vec3<u32>) {{
    let rows = sizes[0];
    let inner = sizes[1];
    let cols = sizes[2];
    if (id.x >= rows || id.y >= cols) {{
        return;
    }}
    var acc: f32 = 0.0;
    for (var t: u32 = 0u; t < inner; t = t + 1u) {{
        acc = acc + lhs[id.x * inner + t] * rhs[t * cols + id.y];
    }}
    product[id.x * cols + id.y] = acc;
}}
"
    )
}

fn elementwise_source(tile: u32, operator: &str) -> String {
    format!(
        "@group(0) @binding(0) var<storage, read> lhs: array<f32>;
@group(0) @binding(1) var<storage, read> rhs: array<f32>;
@group(0) @binding(2) var<storage, read_write> result: array<f32>;

@compute @workgroup_size({tile}, {tile}, 1)
fn main(
    @builtin(global_invocation_id) id: vec3<u32>,
    @builtin(num_workgroups) groups: vec3<u32>,
) {{
    let index = id.x * (groups.y * {tile}u) + id.y;
    if (index < arrayLength(&result)) {{
        result[index] = lhs[index] {operator} rhs[index];
    }}
}}
"
    )
}

fn kernels(matmul_tile: u32) -> KernelSet {
    KernelSet {
        matmul: Kernel::new("matmul.wgsl", &matmul_source(matmul_tile), matmul_tile),
        add: Kernel::new("add.wgsl", &elementwise_source(16, "+"), 16),
        sub: Kernel::new("sub.wgsl", &elementwise_source(16, "-"), 16),
    }
}

fn words(values: &[f32]) -> Vec<u32> {
    values.iter().map(|v| v.to_bits()).collect()
}

fn floats(words: &[u32]) -> Vec<f32> {
    words.iter().map(|w| f32::from_bits(*w)).collect()
}

fn close(got: &[f32], want: f32) -> bool {
    got.iter().all(|g| (g - want).abs() <= 1e-3 * want.abs().max(1.0))
}

/// A session with its device, or `None` on a machine without one, after
/// checking that the failure is the one that is owed.
fn session(matmul_tile: u32) -> Option<WgpuServer> {
    let mut server = WgpuServer::new(kernels(matmul_tile));
    match server.acquire() {
        Ok(()) => {
            assert!(server.has_device());
            Some(server)
        }
        Err(e) => {
            assert_eq!(e, TensorError::DeviceAcquisitionFailure);
            assert!(!server.has_device());
            None
        }
    }
}

#[test]
fn a_new_session_has_no_device_and_keeps_its_kernels() {
    let server = WgpuServer::new(kernels(32));
    assert!(!server.has_device());
    assert_eq!(server.cached_kernels(), 0);
    assert!(get_device_read(&server).is_none());
    assert_eq!(server.kernel_set().matmul.tile, 32);
    assert_eq!(server.kernel_set().add.name, "add.wgsl");
    assert_eq!(server.kernel_set().sub.tile, 16);
}

#[test]
fn acquire_is_kept_once_it_succeeded() {
    if let Some(mut server) = session(1) {
        assert_eq!(server.acquire(), Ok(()));
        assert!(server.has_device());
        assert!(get_device_read(&server).is_some());
    }
}

#[test]
fn binding_slots_count_up_from_zero() {
    assert_eq!(binding_slots(0), Vec::<u32>::new());
    assert_eq!(binding_slots(1), vec![0]);
    assert_eq!(binding_slots(4), vec![0, 1, 2, 3]);
}

#[test]
fn new_init_refuses_a_wrong_number_of_values() {
    let mut server = WgpuServer::new(kernels(1));
    let three = words(&[1.0, 1.0, 1.0]);
    let result = RawGf32::new_init(Shape::D2(2, 2), &three, Some("a"), &mut server);
    assert!(matches!(result, Err(TensorError::ShapeMismatch)));
    let five = words(&[1.0; 5]);
    let result = RawGf32::new_init(Shape::D2(2, 2), &five, None, &mut server);
    assert!(matches!(result, Err(TensorError::ShapeMismatch)));
    let none = words(&[]);
    let result = RawGf32::new_init(Shape::D2(1, 1), &none, None, &mut server);
    assert!(matches!(result, Err(TensorError::ShapeMismatch)));
    let one = words(&[1.0]);
    let result = RawGf32::new_init(Shape::D2(usize::MAX, 2), &one, None, &mut server);
    assert!(matches!(result, Err(TensorError::ShapeMismatch)));
    // A refusal for the shape never reaches for the device.
    assert!(!server.has_device());
}

#[test]
fn new_empty_refuses_a_size_beyond_the_address_space() {
    let mut server = WgpuServer::new(kernels(1));
    let result = RawGf32::_new_empty(Shape::D2(usize::MAX, 2), None, &mut server);
    assert!(matches!(result, Err(TensorError::TooLarge)));
    assert!(!server.has_device());
}

#[test]
fn strassen_fill_refuses_a_size_whose_square_overflows() {
    let mut server = WgpuServer::new(kernels(1));
    let result = Strassen4::new_fill_with(usize::MAX, 1.0f32.to_bits(), &mut server);
    assert!(matches!(result, Err(TensorError::TooLarge)));
}

#[test]
fn without_a_device_every_operation_fails_to_acquire_one() {
    if session(1).is_some() {
        return;
    }
    let mut server = WgpuServer::new(kernels(1));
    let ones = words(&[1.0; 4]);
    let made = RawGf32::new_init(Shape::D2(2, 2), &ones, Some("a"), &mut server);
    assert!(matches!(made, Err(TensorError::DeviceAcquisitionFailure)));
    let made = RawGf32::_new_empty(Shape::D2(2, 2), None, &mut server);
    assert!(matches!(made, Err(TensorError::DeviceAcquisitionFailure)));
    assert!(matches!(
        create_buffer(16, None, &mut server),
        Err(TensorError::DeviceAcquisitionFailure)
    ));
    assert!(matches!(
        create_buffer_init(&ones, None, &mut server),
        Err(TensorError::DeviceAcquisitionFailure)
    ));
    assert!(matches!(
        get_shader("add.wgsl", &elementwise_source(16, "+"), &mut server),
        Err(TensorError::DeviceAcquisitionFailure)
    ));
    let made = Strassen4::new_fill_with(2, 1.0f32.to_bits(), &mut server);
    assert!(matches!(made, Err(TensorError::DeviceAcquisitionFailure)));
    assert!(!server.has_device());
}

#[test]
fn buffers_have_the_size_they_were_asked_for() {
    if let Some(mut server) = session(1) {
        let empty = create_buffer(64, Some("out"), &mut server).unwrap();
        assert_eq!(empty.size(), 64);
        assert_eq!(empty.role(), BufferRole::Output);
        assert_eq!(empty.label(), Some("out"));
        let filled = create_buffer_init(&vec![1, 2, 3], Some("in"), &mut server).unwrap();
        assert_eq!(filled.size(), 12);
        assert_eq!(filled.role(), BufferRole::Input);
        assert_eq!(filled.label(), Some("in"));
        assert_eq!(create_buffer(8, None, &mut server).unwrap().label(), None);
    }
}

#[test]
fn tensors_know_their_shape_label_and_size() {
    if let Some(mut server) = session(1) {
        let ones = words(&[1.0; 6]);
        let a = RawGf32::new_init(Shape::D2(2, 3), &ones, Some("a"), &mut server).unwrap();
        assert_eq!(a.shape(), Shape::D2(2, 3));
        assert_eq!(a.label(), Some("a"));
        assert_eq!(a.size(), 24);
        assert_eq!(a.buffer().size(), 24);
        assert_eq!(a.buffer().role(), BufferRole::Input);
        let blank = RawGf32::_new_empty(Shape::D2(4, 8), None, &mut server).unwrap();
        assert_eq!(blank.shape(), Shape::D2(4, 8));
        assert_eq!(blank.label(), None);
        assert_eq!(blank.size(), 128);
        assert_eq!(blank.buffer().size(), 128);
        assert_eq!(blank.buffer().role(), BufferRole::Output);
    }
}

#[test]
fn kernels_are_compiled_once_per_name_and_source() {
    if let Some(mut server) = session(1) {
        let source = elementwise_source(16, "+");
        assert_eq!(server.cached_kernels(), 0);
        assert!(get_shader("add.wgsl", &source, &mut server).is_ok());
        assert_eq!(server.cached_kernels(), 1);
        assert!(get_shader("add.wgsl", &source, &mut server).is_ok());
        assert_eq!(server.cached_kernels(), 1);
        let other = elementwise_source(16, "-");
        assert_ne!(source_hash(&source), source_hash(&other));
        assert!(get_shader("sub.wgsl", &source, &mut server).is_ok());
        assert_eq!(server.cached_kernels(), 2);
        assert!(get_shader("add.wgsl", &other, &mut server).is_ok());
        assert_eq!(server.cached_kernels(), 3);
        assert!(get_shader("sub.wgsl", &source, &mut server).is_ok());
        assert_eq!(server.cached_kernels(), 3);
    }
}

#[test]
fn a_kernel_that_does_not_compile_is_rejected() {
    if let Some(mut server) = session(1) {
        let result = get_shader("broken.wgsl", "this is not a kernel", &mut server);
        assert!(matches!(result, Err(TensorError::DeviceRejected)));
        assert_eq!(server.cached_kernels(), 0);
        // The session goes on working.
        assert!(get_shader("add.wgsl", &elementwise_source(16, "+"), &mut server).is_ok());
    }
}

#[test]
fn scenario_two_by_two_product_sum_and_difference() {
    if let Some(mut server) = session(1) {
        let a = RawGf32::new_init(Shape::D2(2, 2), &words(&[1.0; 4]), Some("a"), &mut server)
            .unwrap();
        let b = RawGf32::new_init(Shape::D2(2, 2), &words(&[2.0; 4]), Some("b"), &mut server)
            .unwrap();
        let c = a.matmul(&b, &mut server).unwrap();
        assert_eq!(c.shape(), Shape::D2(2, 2));
        assert_eq!(floats(&c.read_back(&mut server).unwrap()), vec![4.0, 4.0, 4.0, 4.0]);
        let sum = a.add(&b, &mut server).unwrap();
        assert_eq!(floats(&sum.read_back(&mut server).unwrap()), vec![3.0, 3.0, 3.0, 3.0]);
        let difference = a.sub(&b, &mut server).unwrap();
        assert_eq!(
            floats(&difference.read_back(&mut server).unwrap()),
            vec![-1.0, -1.0, -1.0, -1.0]
        );
    }
}

#[test]
fn scenario_chained_products() {
    if let Some(mut server) = session(1) {
        let a = RawGf32::new_init(Shape::D2(2, 2), &words(&[1.0; 4]), Some("a"), &mut server)
            .unwrap();
        let b = RawGf32::new_init(Shape::D2(2, 2), &words(&[2.0; 4]), Some("b"), &mut server)
            .unwrap();
        let d = RawGf32::new_init(Shape::D2(2, 2), &words(&[3.0; 4]), Some("d"), &mut server)
            .unwrap();
        let c = a.matmul(&b, &mut server).unwrap();
        let e = c.matmul(&d, &mut server).unwrap();
        assert_eq!(floats(&e.read_back(&mut server).unwrap()), vec![24.0, 24.0, 24.0, 24.0]);
    }
}

#[test]
fn product_matches_the_triple_loop() {
    if let Some(mut server) = session(1) {
        let (n, m, o) = (3usize, 4usize, 2usize);
        let lhs: Vec<f32> = (0..n * m).map(|v| v as f32 * 0.5).collect();
        let rhs: Vec<f32> = (0..m * o).map(|v| 1.0 - v as f32).collect();
        let a = RawGf32::new_init(Shape::D2(n, m), &words(&lhs), None, &mut server).unwrap();
        let b = RawGf32::new_init(Shape::D2(m, o), &words(&rhs), None, &mut server).unwrap();
        let got = floats(&a.matmul(&b, &mut server).unwrap().read_back(&mut server).unwrap());
        let mut want = vec![0.0f32; n * o];
        for i in 0..n {
            for j in 0..m {
                for k in 0..o {
                    want[i * o + k] += lhs[i * m + j] * rhs[j * o + k];
                }
            }
        }
        assert_eq!(got.len(), want.len());
        for (g, w) in got.iter().zip(want.iter()) {
            assert!((g - w).abs() <= 1e-3 * w.abs().max(1.0));
        }
    }
}

#[test]
fn sum_then_difference_gives_the_first_operand_back() {
    if let Some(mut server) = session(1) {
        let lhs: Vec<f32> = (0..40 * 3).map(|v| v as f32 * 0.25).collect();
        let rhs: Vec<f32> = (0..40 * 3).map(|v| 7.0 - v as f32).collect();
        let shape = Shape::D2(3, 40);
        assert!(matches!(
            RawGf32::new_init(shape, &words(&lhs), None, &mut server)
                .unwrap()
                .add(&RawGf32::new_init(shape, &words(&rhs), None, &mut server).unwrap(), &mut server),
            Err(TensorError::TileMisaligned)
        ));
        let shape = Shape::D2(4, 32);
        let lhs: Vec<f32> = (0..4 * 32).map(|v| v as f32 * 0.25).collect();
        let rhs: Vec<f32> = (0..4 * 32).map(|v| 7.0 - v as f32).collect();
        let a = RawGf32::new_init(shape, &words(&lhs), None, &mut server).unwrap();
        let b = RawGf32::new_init(shape, &words(&rhs), None, &mut server).unwrap();
        let sum = a.add(&b, &mut server).unwrap();
        let back = sum.sub(&b, &mut server).unwrap();
        let got = floats(&back.read_back(&mut server).unwrap());
        assert_eq!(got.len(), 128);
        for (g, w) in got.iter().zip(lhs.iter()) {
            assert!((g - w).abs() <= 1e-3 * w.abs().max(1.0));
        }
    }
}

#[test]
fn operations_refuse_shapes_that_do_not_fit() {
    if let Some(mut server) = session(1) {
        let a = RawGf32::new_init(Shape::D2(2, 3), &words(&[1.0; 6]), None, &mut server).unwrap();
        let b = RawGf32::new_init(Shape::D2(2, 2), &words(&[1.0; 4]), None, &mut server).unwrap();
        assert!(matches!(a.matmul(&b, &mut server), Err(TensorError::IncompatibleShape)));
        assert!(matches!(a.add(&b, &mut server), Err(TensorError::ShapeMismatch)));
        assert!(matches!(a.sub(&b, &mut server), Err(TensorError::ShapeMismatch)));
        assert!(b.matmul(&a, &mut server).is_ok());
    }
    if let Some(mut server) = session(32) {
        let b = RawGf32::new_init(Shape::D2(2, 2), &words(&[1.0; 4]), None, &mut server).unwrap();
        assert!(matches!(b.matmul(&b, &mut server), Err(TensorError::TileMisaligned)));
    }
}

#[test]
fn an_uploaded_tensor_cannot_be_the_source_of_a_copy() {
    if let Some(mut server) = session(1) {
        let a = RawGf32::new_init(Shape::D2(2, 2), &words(&[1.0; 4]), None, &mut server).unwrap();
        assert!(matches!(a.read_back(&mut server), Err(TensorError::DeviceRejected)));
        let empty = RawGf32::new_init(Shape::D2(0, 5), &words(&[]), None, &mut server).unwrap();
        assert_eq!(empty.read_back(&mut server), Ok(vec![]));
    }
}

#[test]
fn execute_refuses_another_number_of_buffers_than_the_kernel_declares() {
    let mut server = WgpuServer::new(kernels(1));
    let source = elementwise_source(16, "+");
    let none: Vec<&GpuBuffer> = Vec::new();
    // The count is looked at before the device is.
    assert_eq!(
        server.execute(&none, "add.wgsl", &source, "main", Grid { x: 1, y: 1, z: 1 }),
        Err(TensorError::BindingMismatch)
    );
    assert!(!server.has_device());
    if server.acquire().is_err() {
        return;
    }
    let a = create_buffer(16, None, &mut server).unwrap();
    let b = create_buffer(16, None, &mut server).unwrap();
    let c = create_buffer(16, None, &mut server).unwrap();
    let two = vec![&a, &b];
    assert_eq!(
        server.execute(&two, "add.wgsl", &source, "main", Grid { x: 1, y: 1, z: 1 }),
        Err(TensorError::BindingMismatch)
    );
    let four = vec![&a, &b, &c, &a];
    assert_eq!(
        server.execute(&four, "add.wgsl", &source, "main", Grid { x: 1, y: 1, z: 1 }),
        Err(TensorError::BindingMismatch)
    );
    assert_eq!(
        server.execute_4(&a, &b, &c, &a, "add.wgsl", &source, (1, 1, 1)),
        Err(TensorError::BindingMismatch)
    );
    assert_eq!(server.cached_kernels(), 0);
    assert_eq!(server.execute_3(&a, &b, &c, "add.wgsl", &source, (1, 1, 1)), Ok(()));
    assert_eq!(server.cached_kernels(), 1);
    let three = vec![&a, &b, &c];
    assert_eq!(
        server.execute(&three, "add.wgsl", &source, "absent", Grid { x: 1, y: 1, z: 1 }),
        Err(TensorError::DeviceRejected)
    );
    let idle = "@compute @workgroup_size(1, 1, 1)\nfn main() {}\n";
    assert_eq!(
        server.execute(&none, "idle.wgsl", idle, "main", Grid { x: 1, y: 1, z: 1 }),
        Ok(())
    );
}

#[test]
fn operations_refuse_a_kernel_that_declares_another_number_of_buffers() {
    let mut set = kernels(1);
    set.add = Kernel::new("add.wgsl", &matmul_source(1), 16);
    let mut server = WgpuServer::new(set);
    if server.acquire().is_err() {
        return;
    }
    let a = RawGf32::new_init(Shape::D2(2, 2), &words(&[1.0; 4]), None, &mut server).unwrap();
    assert!(matches!(a.add(&a, &mut server), Err(TensorError::BindingMismatch)));
    assert!(a.sub(&a, &mut server).is_ok());
    let four = Strassen4::new_fill_with(2, 1.0f32.to_bits(), &mut server).unwrap();
    assert!(matches!(four.matmul(&four, &mut server), Err(TensorError::BindingMismatch)));
}

#[test]
fn strassen_on_small_blocks_matches_the_plain_product() {
    if let Some(mut server) = session(1) {
        let n = 2usize;
        let a_blocks: Vec<Vec<f32>> =
            (0..4).map(|q| (0..n * n).map(|v| (q * 4 + v) as f32).collect()).collect();
        let b_blocks: Vec<Vec<f32>> =
            (0..4).map(|q| (0..n * n).map(|v| 1.0 + (q * 3 + v) as f32 * 0.5).collect()).collect();
        let upload = |blocks: &Vec<Vec<f32>>, server: &mut WgpuServer| {
            let made: Vec<RawGf32> = blocks
                .iter()
                .map(|b| RawGf32::new_init(Shape::D2(n, n), &words(b), None, server).unwrap())
                .collect();
            let made: [RawGf32; 4] = match made.try_into() {
                Ok(four) => four,
                Err(_) => panic!("four blocks"),
            };
            Strassen4::new_from(made)
        };
        let a = upload(&a_blocks, &mut server);
        let b = upload(&b_blocks, &mut server);
        let c = a.matmul(&b, &mut server).unwrap();
        let whole = |blocks: &Vec<Vec<f32>>| {
            let mut m = vec![0.0f32; 4 * n * n];
            for q in 0..4 {
                for i in 0..n {
                    for j in 0..n {
                        m[((q / 2) * n + i) * 2 * n + (q % 2) * n + j] = blocks[q][i * n + j];
                    }
                }
            }
            m
        };
        let (wa, wb) = (whole(&a_blocks), whole(&b_blocks));
        let side = 2 * n;
        for q in 0..4 {
            let got = floats(&c.block(q).unwrap().read_back(&mut server).unwrap());
            for i in 0..n {
                for j in 0..n {
                    let (row, col) = ((q / 2) * n + i, (q % 2) * n + j);
                    let want: f32 = (0..side).map(|t| wa[row * side + t] * wb[t * side + col]).sum();
                    assert!((got[i * n + j] - want).abs() <= 1e-3 * want.abs().max(1.0));
                }
            }
        }
        assert!(c.block(4).is_none());
    }
}

#[test]
fn scenario_strassen_on_blocks_of_512() {
    if let Some(mut server) = session(16) {
        let a = Strassen4::new_fill_with(512, 1.0f32.to_bits(), &mut server).unwrap();
        let b = Strassen4::new_fill_with(512, 2.0f32.to_bits(), &mut server).unwrap();
        let c = a.matmul(&b, &mut server).unwrap();
        let whole_a =
            RawGf32::new_init(Shape::D2(1024, 1024), &words(&vec![1.0; 1024 * 1024]), None, &mut server)
                .unwrap();
        let whole_b =
            RawGf32::new_init(Shape::D2(1024, 1024), &words(&vec![2.0; 1024 * 1024]), None, &mut server)
                .unwrap();
        let plain = floats(&whole_a.matmul(&whole_b, &mut server).unwrap().read_back(&mut server).unwrap());
        assert!(close(&plain, 2048.0));
        for q in 0..4 {
            let block = c.block(q).unwrap();
            assert_eq!(block.shape(), Shape::D2(512, 512));
            let got = floats(&block.read_back(&mut server).unwrap());
            assert_eq!(got.len(), 512 * 512);
            assert!(close(&got, 2048.0));
        }
    }
}

fn limits(max_buffer_size: u64, max_storage_buffer_binding_size: u32) -> DeviceLimits {
    DeviceLimits {
        max_storage_buffer_binding_size,
        max_buffer_size,
        max_compute_workgroup_size_x: 256,
        max_compute_invocations_per_workgroup: 256,
    }
}

#[test]
fn limits_admit_what_is_within_both_bounds() {
    let both = limits(1 << 28, 128 << 20);
    assert!(both.fits(0));
    assert!(both.fits(128 << 20));
    assert!(!both.fits((128 << 20) + 1));
    let small_buffers = limits(100, u32::MAX);
    assert!(small_buffers.fits(100));
    assert!(!small_buffers.fits(101));
    assert!(!small_buffers.fits(usize::MAX));
}

#[test]
fn a_refused_device_is_a_failure_to_acquire_one() {
    let instance = wgpu::Instance::default();
    let options = wgpu::RequestAdapterOptions::default();
    if let Some(adapter) = pollster::block_on(instance.request_adapter(&options)) {
        let best = adapter.limits();
        let wanted = DeviceLimits {
            max_storage_buffer_binding_size: best.max_storage_buffer_binding_size,
            max_buffer_size: best.max_buffer_size,
            max_compute_workgroup_size_x: best.max_compute_workgroup_size_x,
            max_compute_invocations_per_workgroup: best.max_compute_invocations_per_workgroup,
        };
        let refused = Wgpu::from_grant(Err(wgpu::RequestDeviceError), adapter, wanted);
        assert!(matches!(refused, Err(TensorError::DeviceAcquisitionFailure)));
    }
}

#[test]
fn buffers_beyond_the_limits_are_too_large() {
    if let Some(mut server) = session(1) {
        assert!(matches!(create_buffer(usize::MAX, None, &mut server), Err(TensorError::TooLarge)));
        let made = RawGf32::_new_empty(Shape::D2(usize::MAX / 4, 1), None, &mut server);
        assert!(matches!(made, Err(TensorError::TooLarge)));
    }
}

#[test]
fn get_reads_whole_words_only() {
    if let Some(mut server) = session(1) {
        let odd = create_buffer(6, None, &mut server).unwrap();
        assert_eq!(server.get(&odd), Err(TensorError::DeviceRejected));
        let none = create_buffer(0, None, &mut server).unwrap();
        assert_eq!(server.get(&none), Ok(vec![]));
        let some = create_buffer(20, None, &mut server).unwrap();
        assert_eq!(server.get(&some).map(|words| words.len()), Ok(5));
    }
}

#[test]
fn read_back_has_one_word_per_element() {
    if let Some(mut server) = session(1) {
        let blank = RawGf32::_new_empty(Shape::D2(3, 7), None, &mut server).unwrap();
        assert_eq!(blank.read_back(&mut server).map(|words| words.len()), Ok(21));
    }
}

#[test]
fn dimensions_reach_the_kernel_as_uploaded() {
    // A kernel that copies its fourth buffer into its third shows what was
    // uploaded: rows of the left operand, shared dimension, columns of the
    // right operand.
    let echo = "
@group(0) @binding(0) var<storage, read> lhs: array<f32>;
@group(0) @binding(1) var<storage, read> rhs: array<f32>;
@group(0) @binding(2) var<storage, read_write> product: array<u32>;
@group(0) @binding(3) var<storage, read> sizes: array<u32>;

@compute @workgroup_size(1, 1, 1)
fn main(@builtin(global_invocation_id) id: vec3<u32>) {
    if (id.x == 0u && id.y == 0u) {
        product[0] = sizes[0];
        product[1] = sizes[1];
        product[2] = sizes[2];
        product[3] = u32(lhs[0] + rhs[0]);
    }
}
";
    let mut set = kernels(1);
    set.matmul = Kernel::new("echo.wgsl", echo, 1);
    let mut server = WgpuServer::new(set);
    if server.acquire().is_err() {
        return;
    }
    let a = RawGf32::new_init(Shape::D2(2, 5), &words(&[3.0; 10]), None, &mut server).unwrap();
    let b = RawGf32::new_init(Shape::D2(5, 2), &words(&[4.0; 10]), None, &mut server).unwrap();
    let c = a.matmul(&b, &mut server).unwrap();
    assert_eq!(c.read_back(&mut server), Ok(vec![2, 5, 2, 7]));
}

#[test]
fn the_session_keeps_the_limits_its_device_was_granted() {
    if let Some(mut server) = session(1) {
        let granted = get_device_read(&server).unwrap().limits();
        let bound = granted.max_buffer_size.min(granted.max_storage_buffer_binding_size as u64);
        if bound < usize::MAX as u64 {
            let over = bound as usize + 1;
            assert!(matches!(create_buffer(over, None, &mut server), Err(TensorError::TooLarge)));
        }
        assert!(create_buffer(4096, None, &mut server).is_ok());
    }
}

#[test]
fn only_no_report_at_all_counts_as_accepted() {
    assert!(no_reports(0));
    assert!(!no_reports(1));
    assert!(!no_reports(7));
    assert!(!no_reports(usize::MAX));
}

#[test]
fn a_kernel_that_leaves_its_buffer_alone_is_launched_without_harm() {
    if let Some(mut server) = session(1) {
        let idle = "
@group(0) @binding(0) var<storage, read_write> spare: array<u32>;

@compute @workgroup_size(1, 1, 1)
fn main() {}
";
        let a = create_buffer(16, None, &mut server).unwrap();
        let one = vec![&a];
        let result = server.execute(&one, "idle.wgsl", idle, "main", Grid { x: 1, y: 1, z: 1 });
        assert_eq!(result, Ok(()));
        assert_eq!(server.cached_kernels(), 1);
    }
}

#[test]
fn an_uploaded_buffer_is_read_by_a_kernel_as_it_was_uploaded() {
    if let Some(mut server) = session(1) {
        // A kernel that copies its first buffer into its second.
        let copy = "
@group(0) @binding(0) var<storage, read> given: array<u32>;
@group(0) @binding(1) var<storage, read_write> taken: array<u32>;

@compute @workgroup_size(1, 1, 1)
fn main(@builtin(global_invocation_id) id: vec3<u32>) {
    taken[id.x] = given[id.x];
}
";
        let uploaded = vec![7, 0, 4_000_000_000, 1];
        let from = create_buffer_init(&uploaded, None, &mut server).unwrap();
        let to = create_buffer(16, None, &mut server).unwrap();
        let both = vec![&from, &to];
        assert_eq!(
            server.execute(&both, "copy.wgsl", copy, "main", Grid { x: 4, y: 1, z: 1 }),
            Ok(())
        );
        assert_eq!(server.get(&to), Ok(uploaded));
        // Slots follow the order of the buffers: the other way round the
        // kernel copies the second buffer over the first.
        let other = create_buffer_init(&vec![9, 9, 9, 9], None, &mut server).unwrap();
        let swapped = vec![&to, &other];
        assert_eq!(
            server.execute(&swapped, "copy.wgsl", copy, "main", Grid { x: 4, y: 1, z: 1 }),
            Ok(())
        );
        assert_eq!(server.get(&to), Ok(vec![7, 0, 4_000_000_000, 1]));
        assert_eq!(server.cached_kernels(), 1);
    }
}

#[test]
fn the_device_is_requested_with_the_best_limits_of_the_adapter() {
    let best = {
        let instance = wgpu::Instance::default();
        let options = wgpu::RequestAdapterOptions::default();
        match pollster::block_on(instance.request_adapter(&options)) {
            Some(adapter) => adapter.limits(),
            None => return,
        }
    };
    if let Some(server) = session(1) {
        let granted = get_device_read(&server).unwrap().limits();
        assert_eq!(granted.max_buffer_size, best.max_buffer_size);
        assert_eq!(
            granted.max_storage_buffer_binding_size,
            best.max_storage_buffer_binding_size
        );
        assert_eq!(granted.max_compute_workgroup_size_x, best.max_compute_workgroup_size_x);
        assert_eq!(
            granted.max_compute_invocations_per_workgroup,
            best.max_compute_invocations_per_workgroup
        );
    }
}
