use gpu_tensor::kernel::{
    declared_slots, source_hash, Kernel, ENTRY_POINT, FNV_OFFSET, FNV_PRIME,
};

#[test]
fn source_hash_of_nothing_is_the_offset_basis() {
    assert_eq!(source_hash(""), 0xcbf2_9ce4_8422_2325);
    assert_eq!(source_hash(""), FNV_OFFSET);
}

#[test]
fn source_hash_matches_published_fnv1a_values() {
    assert_eq!(source_hash("a"), 0xaf63_dc4c_8601_ec8c);
    assert_eq!(source_hash("foobar"), 0x8594_4171_f739_67e8);
}

#[test]
fn source_hash_of_one_byte_is_one_round() {
    let expected = (FNV_OFFSET ^ (b'x' as u64)).wrapping_mul(FNV_PRIME);
    assert_eq!(source_hash("x"), expected);
}

#[test]
fn source_hash_runs_over_utf8_bytes() {
    let mut expected = FNV_OFFSET;
    for byte in "é∑".as_bytes() {
        expected = (expected ^ (*byte as u64)).wrapping_mul(FNV_PRIME);
    }
    assert_eq!(source_hash("é∑"), expected);
}

#[test]
fn source_hash_tells_different_sources_apart() {
    assert_ne!(source_hash("fn main() {}"), source_hash("fn main() { }"));
}

#[test]
fn kernel_new_keeps_what_it_is_given() {
    let kernel = Kernel::new("add.wgsl", "@compute fn main() {}", 16);
    assert_eq!(kernel.name, "add.wgsl");
    assert_eq!(kernel.source, "@compute fn main() {}");
    assert_eq!(kernel.tile, 16);
}

#[test]
fn kernels_start_at_main() {
    assert_eq!(ENTRY_POINT, "main");
}

#[test]
fn declared_slots_counts_the_binding_attributes() {
    assert_eq!(declared_slots(""), 0);
    assert_eq!(declared_slots("@compute @workgroup_size(1) fn main() {}"), 0);
    assert_eq!(declared_slots("@binding("), 1);
    assert_eq!(declared_slots("@binding"), 0);
    assert_eq!(declared_slots("x@binding(0)@binding(1)"), 2);
    let kernel = "
@group(0) @binding(0) var<storage, read> lhs: array<f32>;
@group(0) @binding(1) var<storage, read> rhs: array<f32>;
@group(0) @binding(2) var<storage, read_write> result: array<f32>;
";
    assert_eq!(declared_slots(kernel), 3);
}

#[test]
fn declared_slots_takes_the_attribute_wherever_it_is_written() {
    assert_eq!(declared_slots("// @binding(7) was here\n@group(0) @binding(0) var<storage> a: u32;"), 2);
    assert_eq!(declared_slots("@ binding(0)"), 0);
    assert_eq!(declared_slots("@bindings(0) @Binding(0)"), 0);
}
