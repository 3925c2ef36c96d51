//! The boundary to the graphics driver.
//!
//! The declarations of outside types, the names and the wrappers in this
//! module are believed, not proved: each states what the source of `wgpu`,
//! `bytemuck`, `flume` and `pollster` shows of the call it makes. The
//! wrappers are private. What the rest of the library sees are three types
//! whose fields are private to this module, and the verified functions on
//! them:
//!
//! - [`Watched`]: a device with its queue, under watch for errors, and the
//!   record of what was submitted to it;
//! - [`GpuBuffer`]: a storage buffer, which is never mapped;
//! - [`Staging`]: a buffer for reading back, with its mapping state.
//!
//! So a wrapper is reached only with a device that reports its errors
//! instead of panicking, and with buffers in the state that the driver
//! expects.
//!
//! `wgpu` reports the loss of a device by panicking inside whichever call
//! notices it. No condition on the arguments excludes that, so none of the
//! contracts below speaks of it.

use crate::plan::Grid;
use vstd::prelude::*;
use vstd::string::StringExecFns;

verus! {

/// `wgpu::Adapter`, a handle to a physical device. Opaque.
#[verifier::external_type_specification]
#[verifier::external_body]
pub struct ExAdapter(wgpu::Adapter);

/// `wgpu::Device`, a connection to one logical device. Opaque.
#[verifier::external_type_specification]
#[verifier::external_body]
pub struct ExDevice(wgpu::Device);

/// `wgpu::Queue`, the command queue of a device. Opaque.
#[verifier::external_type_specification]
#[verifier::external_body]
pub struct ExQueue(wgpu::Queue);

/// `wgpu::Buffer`, a handle to a block of device memory. Opaque.
#[verifier::external_type_specification]
#[verifier::external_body]
pub struct ExBuffer(wgpu::Buffer);

/// `wgpu::ShaderModule`, a compiled kernel. Opaque.
#[verifier::external_type_specification]
#[verifier::external_body]
pub struct ExShaderModule(wgpu::ShaderModule);

/// `wgpu::ComputePipeline`, a kernel with its entry point chosen. Opaque.
#[verifier::external_type_specification]
#[verifier::external_body]
pub struct ExComputePipeline(wgpu::ComputePipeline);

/// `wgpu::BindGroup`, buffers attached to the slots of a pipeline. Opaque.
#[verifier::external_type_specification]
#[verifier::external_body]
pub struct ExBindGroup(wgpu::BindGroup);

/// `wgpu::BindGroupLayout`, the kinds of resource that the slots of a group
/// take. Opaque.
#[verifier::external_type_specification]
#[verifier::external_body]
pub struct ExBindGroupLayout(wgpu::BindGroupLayout);

/// `wgpu::RequestDeviceError`, the refusal of a logical device. Opaque.
#[verifier::external_type_specification]
#[verifier::external_body]
pub struct ExRequestDeviceError(wgpu::RequestDeviceError);

/// `wgpu::Error`, a validation or out-of-memory report of the driver. Opaque.
#[verifier::external_type_specification]
#[verifier::external_body]
pub struct ExError(wgpu::Error);

/// `flume::Receiver`, the receiving end of a channel. Opaque.
#[verifier::external_type_specification]
#[verifier::external_body]
#[verifier::reject_recursive_types(T)]
pub struct ExReceiver<T>(flume::Receiver<T>);

/// The limits of a device that this library raises above the defaults.
#[derive(Clone, Copy, Debug, PartialEq, Eq, Structural)]
pub struct DeviceLimits {
    pub max_storage_buffer_binding_size: u32,
    pub max_buffer_size: u64,
    pub max_compute_workgroup_size_x: u32,
    pub max_compute_invocations_per_workgroup: u32,
}

/// What a buffer was created for.
#[derive(Clone, Copy, Debug, PartialEq, Eq, Structural)]
pub enum BufferRole {
    /// Storage that can be the destination of a copy: a buffer created with
    /// contents.
    Input,
    /// Storage that can be the source of a copy: a buffer for a kernel to
    /// write.
    Output,
    /// The destination of a copy that can be mapped for the host to read.
    Staging,
}

/// Where a staging buffer stands with its mapping into host memory.
#[derive(Clone, Copy, Debug, PartialEq, Eq, Structural)]
pub enum Mapping {
    /// No mapping has been asked for.
    Idle,
    /// The buffer is mapped for reading.
    Mapped,
    /// A mapping was asked for and failed.
    Failed,
}

/// One launch as it was submitted to the driver: the source text and entry
/// point that the pipeline was made from, the slots of group 0 with the
/// buffer bound to each, and the grid of workgroups.
pub ghost struct Launch {
    pub source: Seq<char>,
    pub entry_point: Seq<char>,
    pub slots: Seq<u32>,
    pub buffers: Seq<wgpu::Buffer>,
    pub grid: Grid,
}

/// One copy of the first `bytes` bytes of `source` into a staging buffer, as
/// it was submitted to the driver behind the first `after` launches.
pub ghost struct CopyOut {
    pub source: wgpu::Buffer,
    pub bytes: nat,
    pub after: nat,
}

/// The best limits that an adapter supports, of the four that this library
/// raises.
pub uninterp spec fn adapter_best(adapter: &wgpu::Adapter) -> DeviceLimits;

/// The limits that a logical device was requested with, of the four that
/// this library raises.
pub uninterp spec fn device_limits(device: &wgpu::Device) -> DeviceLimits;

/// The size in bytes that a buffer was created with.
pub uninterp spec fn buffer_size(buffer: &wgpu::Buffer) -> nat;

/// What a buffer was created for: the usage it was created with.
pub uninterp spec fn buffer_role(buffer: &wgpu::Buffer) -> BufferRole;

/// The words that a buffer was created with.
pub uninterp spec fn initial_words(buffer: &wgpu::Buffer) -> Seq<u32>;

/// The source text that a shader module was created from.
pub uninterp spec fn module_source(module: &wgpu::ShaderModule) -> Seq<char>;

/// The slots that a bind group layout was created with.
pub uninterp spec fn layout_slots(layout: &wgpu::BindGroupLayout) -> Seq<u32>;

/// What a compute pipeline was created from: the source text of its module,
/// its entry point, and the slots of its layout.
pub uninterp spec fn pipeline_parts(pipeline: &wgpu::ComputePipeline) -> (
    Seq<char>,
    Seq<char>,
    Seq<u32>,
);

/// What a bind group was created with: its slots and the buffer in each.
pub uninterp spec fn group_parts(group: &wgpu::BindGroup) -> (Seq<u32>, Seq<wgpu::Buffer>);

/// `wgpu::Buffer::size`: the size that was given when the buffer was created.
pub assume_specification[ wgpu::Buffer::size ](buffer: &wgpu::Buffer) -> (bytes: u64)
    ensures
        bytes == buffer_size(buffer),
;

/// The text of a label, if there is one.
pub open spec fn label_text(label: Option<&str>) -> Option<Seq<char>> {
    match label {
        Some(text) => Some(text@),
        None => None,
    }
}

/// An owned copy of a label.
pub fn own_label(label: Option<&str>) -> (owned: Option<String>)
    ensures
        owned is Some <==> label is Some,
        label matches Some(text) ==> owned->Some_0@ == text@,
{
    match label {
        Some(text) => Some(String::from_str(text)),
        None => None,
    }
}

/// A logical device with its queue, under watch: the driver hands its
/// validation and out-of-memory errors to a channel instead of panicking.
/// With it goes the record of what was submitted to the queue.
pub struct Watched {
    device: wgpu::Device,
    queue: wgpu::Queue,
    faults: flume::Receiver<wgpu::Error>,
    launched: Ghost<Seq<Launch>>,
    copied: Ghost<Seq<CopyOut>>,
}

impl Watched {
    /// The logical device.
    pub closed spec fn device(&self) -> wgpu::Device {
        self.device
    }

    /// The launches that were submitted, oldest first.
    pub closed spec fn launches(&self) -> Seq<Launch> {
        self.launched@
    }

    /// The copies for read-backs that were submitted, oldest first.
    pub closed spec fn copies(&self) -> Seq<CopyOut> {
        self.copied@
    }

    /// Puts a device that was just granted under watch. Nothing has been
    /// submitted to it.
    pub(crate) fn new(device: wgpu::Device, queue: wgpu::Queue) -> (link: Watched)
        ensures
            link.device() == device,
            link.launches() == Seq::<Launch>::empty(),
            link.copies() == Seq::<CopyOut>::empty(),
    {
        let faults = watch_errors(&device);
        Watched { device, queue, faults, launched: Ghost(Seq::empty()), copied: Ghost(Seq::empty()) }
    }

    /// The logical device.
    pub fn device_ref(&self) -> (device: &wgpu::Device)
        ensures
            *device == self.device(),
    {
        &self.device
    }

}

/// The driver's handles of a list of storage buffers, in order.
pub open spec fn raws(buffers: Seq<&GpuBuffer>) -> Seq<wgpu::Buffer> {
    Seq::new(buffers.len(), |i: int| buffers[i].raw())
}

/// A storage buffer of the device. It is not mapped when it is made, and
/// nothing this library offers maps or destroys one.
pub struct GpuBuffer {
    raw: wgpu::Buffer,
    role: BufferRole,
    label: Option<String>,
}

impl GpuBuffer {
    #[verifier::type_invariant]
    spec fn inv(&self) -> bool {
        self.role == buffer_role(&self.raw) && self.role != BufferRole::Staging
    }

    /// The handle of the driver.
    pub closed spec fn raw(&self) -> wgpu::Buffer {
        self.raw
    }

    /// The label that the buffer was created with, if any.
    pub closed spec fn spec_label(&self) -> Option<Seq<char>> {
        match self.label {
            Some(text) => Some(text@),
            None => None,
        }
    }

    /// What the buffer was created for.
    pub open spec fn spec_role(&self) -> BufferRole {
        buffer_role(&self.raw())
    }

    /// The size in bytes that the buffer was created with.
    pub open spec fn spec_size(&self) -> nat {
        buffer_size(&self.raw())
    }

    /// The words that the buffer was created with, if it was created with
    /// contents.
    pub open spec fn words(&self) -> Seq<u32> {
        initial_words(&self.raw())
    }

    /// A buffer of `size` bytes for a kernel to write. Its contents are
    /// undefined until then. A refusal of the device is reported.
    pub(crate) fn output(link: &Watched, size: u64, label: Option<&str>) -> (buffer: GpuBuffer)
        ensures
            buffer.spec_size() == size,
            buffer.spec_role() == BufferRole::Output,
            buffer.spec_label() == label_text(label),
    {
        let raw = new_buffer(link, size, BufferRole::Output, label);
        GpuBuffer { raw, role: BufferRole::Output, label: own_label(label) }
    }

    /// A buffer holding `words`. The device's limit must admit it.
    pub(crate) fn input(link: &Watched, words: &Vec<u32>, label: Option<&str>) -> (buffer: GpuBuffer)
        requires
            4 * words@.len() <= device_limits(&link.device()).max_buffer_size,
        ensures
            buffer.spec_size() == 4 * words@.len(),
            buffer.spec_role() == BufferRole::Input,
            buffer.spec_label() == label_text(label),
            buffer.words() == words@,
    {
        let raw = new_buffer_init(link, words, label);
        GpuBuffer { raw, role: BufferRole::Input, label: own_label(label) }
    }

    /// The size in bytes that the buffer was created with.
    pub fn size(&self) -> (bytes: u64)
        ensures
            bytes == self.spec_size(),
    {
        self.raw.size()
    }

    /// What the buffer was created for: never staging.
    pub fn role(&self) -> (role: BufferRole)
        ensures
            role == self.spec_role(),
            role != BufferRole::Staging,
    {
        proof {
            use_type_invariant(self);
        }
        self.role
    }

    /// The label that the buffer was created with, if any.
    pub fn label(&self) -> (label: Option<&str>)
        ensures
            label_text(label) == self.spec_label(),
    {
        match &self.label {
            Some(text) => Some(text.as_str()),
            None => None,
        }
    }
}

/// A buffer that takes one copy out of a storage buffer and is then mapped
/// for the host to read.
pub struct Staging {
    raw: wgpu::Buffer,
    mapping: Mapping,
}

impl Staging {
    /// The handle of the driver.
    pub closed spec fn raw(&self) -> wgpu::Buffer {
        self.raw
    }

    /// Where the buffer stands with its mapping.
    pub closed spec fn spec_mapping(&self) -> Mapping {
        self.mapping
    }

    /// The size in bytes that the buffer was created with.
    pub open spec fn spec_size(&self) -> nat {
        buffer_size(&self.raw())
    }

    /// A staging buffer of `size` bytes, idle. A refusal of the device is
    /// reported.
    pub(crate) fn new(link: &Watched, size: u64) -> (staging: Staging)
        ensures
            staging.spec_size() == size,
            staging.spec_mapping() == Mapping::Idle,
            buffer_role(&staging.raw()) == BufferRole::Staging,
    {
        let raw = new_buffer(link, size, BufferRole::Staging, Some("staging buffer"));
        Staging { raw, mapping: Mapping::Idle }
    }

    /// Where the buffer stands with its mapping.
    pub fn mapping(&self) -> (mapping: Mapping)
        ensures
            mapping == self.spec_mapping(),
    {
        self.mapping
    }

    /// Asks for the buffer to be mapped for reading and waits for the
    /// device. Afterwards the buffer is mapped, or the mapping has failed;
    /// it is idle no more either way.
    pub(crate) fn map(&mut self, link: &Watched) -> (mapped: bool)
        requires
            old(self).spec_mapping() == Mapping::Idle,
        ensures
            final(self).raw() == old(self).raw(),
            final(self).spec_mapping() == if mapped {
                Mapping::Mapped
            } else {
                Mapping::Failed
            },
    {
        let mapped = map_for_read(link, &*self);
        if mapped {
            self.mapping = Mapping::Mapped;
        } else {
            self.mapping = Mapping::Failed;
        }
        mapped
    }

    /// The words of a mapped buffer, as many as hold its bytes; the buffer
    /// is unmapped and given up.
    pub(crate) fn read(self) -> (words: Vec<u32>)
        requires
            self.spec_mapping() == Mapping::Mapped,
        ensures
            words@.len() == (self.spec_size() + 3) / 4,
    {
        read_mapped(self)
    }
}

/// `wgpu::Instance::request_adapter` on a default instance with default
/// options: some adapter of the machine, or `None` where it has none.
#[verifier::external_body]
pub(crate) fn request_adapter() -> (adapter: Option<wgpu::Adapter>) {
    let instance = wgpu::Instance::default();
    pollster::block_on(instance.request_adapter(&wgpu::RequestAdapterOptions::default()))
}

/// `wgpu::Adapter::limits`: the best values the adapter supports, of which
/// the four that this library raises are handed out.
#[verifier::external_body]
pub(crate) fn adapter_limits(adapter: &wgpu::Adapter) -> (best: DeviceLimits)
    ensures
        best == adapter_best(adapter),
{
    let limits = adapter.limits();
    DeviceLimits {
        max_storage_buffer_binding_size: limits.max_storage_buffer_binding_size,
        max_buffer_size: limits.max_buffer_size,
        max_compute_workgroup_size_x: limits.max_compute_workgroup_size_x,
        max_compute_invocations_per_workgroup: limits.max_compute_invocations_per_workgroup,
    }
}

/// `wgpu::Adapter::request_device` with no features and with the default
/// limits but for the four in `wanted`. A device that is granted keeps the
/// limits it was requested with.
#[verifier::external_body]
pub(crate) fn request_device(adapter: &wgpu::Adapter, wanted: &DeviceLimits) -> (granted: Result<
    (wgpu::Device, wgpu::Queue),
    wgpu::RequestDeviceError,
>)
    ensures
        granted matches Ok(pair) ==> device_limits(&pair.0) == *wanted,
{
    let limits = wgpu::Limits {
        max_storage_buffer_binding_size: wanted.max_storage_buffer_binding_size,
        max_buffer_size: wanted.max_buffer_size,
        max_compute_workgroup_size_x: wanted.max_compute_workgroup_size_x,
        max_compute_invocations_per_workgroup: wanted.max_compute_invocations_per_workgroup,
        ..wgpu::Limits::default()
    };
    let desc = wgpu::DeviceDescriptor { label: None, features: wgpu::Features::empty(), limits };
    pollster::block_on(adapter.request_device(&desc, None))
}

/// `wgpu::Device::on_uncaptured_error` with a handler that forwards each
/// report into a `flume::unbounded` channel, whose receiving end is returned.
/// From then on the driver hands validation and out-of-memory errors to that
/// channel, during the call that causes them, instead of panicking.
#[verifier::external_body]
fn watch_errors(device: &wgpu::Device) -> (faults: flume::Receiver<wgpu::Error>) {
    let (sender, receiver) = flume::unbounded();
    device.on_uncaptured_error(
        Box::new(
            move |error| {
                let _ = sender.send(error);
            },
        ),
    );
    receiver
}

/// `flume::Receiver::drain`, counted: the number of reports that were waiting
/// in the channel of a device under watch, all of which are removed.
#[verifier::external_body]
pub(crate) fn drain_errors(link: &Watched) -> (reports: usize) {
    link.faults.drain().count()
}

/// `wgpu::Device::create_buffer`, not mapped, with the usage that goes with
/// `role`. The handle records size and usage whether or not the device
/// accepted the request; a refusal goes to the error handler.
#[verifier::external_body]
fn new_buffer(link: &Watched, size: u64, role: BufferRole, label: Option<&str>) -> (buffer: wgpu::Buffer)
    ensures
        buffer_size(&buffer) == size,
        buffer_role(&buffer) == role,
{
    let usage = match role {
        BufferRole::Input => wgpu::BufferUsages::STORAGE | wgpu::BufferUsages::COPY_DST,
        BufferRole::Output => wgpu::BufferUsages::STORAGE | wgpu::BufferUsages::COPY_SRC,
        BufferRole::Staging => wgpu::BufferUsages::COPY_DST | wgpu::BufferUsages::MAP_READ,
    };
    let desc = wgpu::BufferDescriptor { label, size, usage, mapped_at_creation: false };
    link.device.create_buffer(&desc)
}

/// `wgpu::util::DeviceExt::create_buffer_init` on the bytes of `words`
/// (`bytemuck::cast_slice`), with storage and copy-destination usage. The
/// buffer is as large as the contents, which are a whole number of 4-byte
/// units already, is created holding them, and is unmapped again when the
/// call returns. The call writes through a mapping of the new buffer and
/// panics where the device refused to create it: the size must be within the
/// device's limit.
#[verifier::external_body]
fn new_buffer_init(link: &Watched, words: &Vec<u32>, label: Option<&str>) -> (buffer: wgpu::Buffer)
    requires
        4 * words@.len() <= device_limits(&link.device()).max_buffer_size,
    ensures
        buffer_size(&buffer) == 4 * words@.len(),
        buffer_role(&buffer) == BufferRole::Input,
        initial_words(&buffer) == words@,
{
    let contents = bytemuck::cast_slice(words.as_slice());
    let usage = wgpu::BufferUsages::STORAGE | wgpu::BufferUsages::COPY_DST;
    let desc = wgpu::util::BufferInitDescriptor { label, contents, usage };
    wgpu::util::DeviceExt::create_buffer_init(&link.device, &desc)
}

/// `wgpu::Device::create_shader_module` on WGSL source text. Text that does
/// not compile is reported to the error handler.
#[verifier::external_body]
pub(crate) fn compile(link: &Watched, source: &str) -> (module: wgpu::ShaderModule)
    ensures
        module_source(&module) == source@,
{
    link.device.create_shader_module(
        wgpu::ShaderModuleDescriptor {
            label: None,
            source: wgpu::ShaderSource::Wgsl(std::borrow::Cow::Borrowed(source)),
        },
    )
}

/// `wgpu::Device::create_bind_group_layout` with one entry for each of
/// `slots`: a storage buffer that the compute stage may read and write.
/// Such an entry fits a resource that the kernel declares for reading as
/// well as one that it declares for reading and writing. Slots that occur
/// twice are reported to the error handler.
#[verifier::external_body]
pub(crate) fn new_layout(link: &Watched, slots: &Vec<u32>) -> (layout: wgpu::BindGroupLayout)
    ensures
        layout_slots(&layout) == slots@,
{
    let storage = wgpu::BufferBindingType::Storage { read_only: false };
    let ty = wgpu::BindingType::Buffer { ty: storage, has_dynamic_offset: false, min_binding_size: None };
    let visibility = wgpu::ShaderStages::COMPUTE;
    let entries: Vec<wgpu::BindGroupLayoutEntry> = slots.iter().map(
        |slot| wgpu::BindGroupLayoutEntry { binding: *slot, visibility, ty, count: None },
    ).collect();
    let desc = wgpu::BindGroupLayoutDescriptor { label: None, entries: &entries };
    link.device.create_bind_group_layout(&desc)
}

/// `wgpu::Device::create_pipeline_layout` with `layout` as its only group,
/// then `wgpu::Device::create_compute_pipeline` with that layout. A module
/// that is faulty, lacks the entry point, or uses a resource that the layout
/// has no slot for is reported to the error handler.
#[verifier::external_body]
pub(crate) fn new_pipeline(link: &Watched, module: &wgpu::ShaderModule, entry_point: &str, layout: &wgpu::BindGroupLayout) -> (pipeline: wgpu::ComputePipeline)
    ensures
        pipeline_parts(&pipeline) == (module_source(module), entry_point@, layout_slots(layout)),
{
    let groups = wgpu::PipelineLayoutDescriptor {
        label: None,
        bind_group_layouts: &[layout],
        push_constant_ranges: &[],
    };
    let groups = link.device.create_pipeline_layout(&groups);
    link.device.create_compute_pipeline(
        &wgpu::ComputePipelineDescriptor { label: None, layout: Some(&groups), module, entry_point },
    )
}

/// `wgpu::Device::create_bind_group` against `layout`, with `buffers[i]`,
/// whole, in slot `slots[i]`. Buffers that do not fit the layout are reported
/// to the error handler.
#[verifier::external_body]
pub(crate) fn bind(link: &Watched, layout: &wgpu::BindGroupLayout, slots: &Vec<u32>, buffers: &Vec<&GpuBuffer>) -> (group: wgpu::BindGroup)
    requires
        slots@.len() == buffers@.len(),
    ensures
        group_parts(&group) == (slots@, raws(buffers@)),
{
    let entries: Vec<wgpu::BindGroupEntry> = slots.iter().zip(buffers.iter()).map(
        |(slot, buffer)| wgpu::BindGroupEntry { binding: *slot, resource: buffer.raw.as_entire_binding() },
    ).collect();
    let desc = wgpu::BindGroupDescriptor { label: None, layout, entries: &entries };
    link.device.create_bind_group(&desc)
}

/// One compute pass on a new `wgpu::CommandEncoder`: `set_pipeline`,
/// `set_bind_group` for group 0, `insert_debug_marker` with a fixed label,
/// `dispatch_workgroups` with `grid`; then
/// `wgpu::Queue::submit`. What was submitted is added to the record: what
/// the pipeline and the group were created from, and the grid. The call
/// returns when the commands are queued, not when they have run. Commands
/// that fail validation are reported to the error handler and left out of
/// what the device runs. A submission panics over a buffer that is mapped or
/// destroyed; the buffers of a group made by `bind` are storage buffers of
/// this module, which are neither.
#[verifier::external_body]
pub(crate) fn launch(link: &mut Watched, pipeline: &wgpu::ComputePipeline, group: &wgpu::BindGroup, grid: Grid)
    ensures
        final(link).device() == old(link).device(),
        final(link).copies() == old(link).copies(),
        final(link).launches() == old(link).launches().push(
            Launch {
                source: pipeline_parts(pipeline).0,
                entry_point: pipeline_parts(pipeline).1,
                slots: group_parts(group).0,
                buffers: group_parts(group).1,
                grid,
            },
        ),
{
    let desc = wgpu::CommandEncoderDescriptor { label: None };
    let mut encoder = link.device.create_command_encoder(&desc);
    {
        let mut pass = encoder.begin_compute_pass(&wgpu::ComputePassDescriptor { label: None });
        pass.set_pipeline(pipeline);
        pass.set_bind_group(0, group, &[]);
        pass.insert_debug_marker("kernel launch");
        pass.dispatch_workgroups(grid.x, grid.y, grid.z);
    }
    link.queue.submit(Some(encoder.finish()));
}

/// `wgpu::CommandEncoder::copy_buffer_to_buffer` of the first `bytes` bytes of
/// `source` to the start of `staging`, then `wgpu::Queue::submit`. What was
/// submitted is added to the record, with the number of launches before it.
/// A copy that fails validation is reported to the error handler and not
/// run. A submission panics over a buffer that is mapped: the staging buffer
/// must be idle, and a storage buffer of this module is never mapped.
#[verifier::external_body]
pub(crate) fn copy_out(link: &mut Watched, source: &GpuBuffer, staging: &Staging, bytes: u64)
    requires
        staging.spec_mapping() == Mapping::Idle,
    ensures
        final(link).device() == old(link).device(),
        final(link).launches() == old(link).launches(),
        final(link).copies() == old(link).copies().push(
            CopyOut { source: source.raw(), bytes: bytes as nat, after: old(link).launches().len() },
        ),
{
    let desc = wgpu::CommandEncoderDescriptor { label: None };
    let mut encoder = link.device.create_command_encoder(&desc);
    encoder.copy_buffer_to_buffer(&source.raw, 0, &staging.raw, 0, bytes);
    link.queue.submit(Some(encoder.finish()));
}

/// `wgpu::BufferSlice::map_async` for reading, on the whole of `staging`, with
/// a callback that forwards the outcome into a `flume::bounded` channel; then
/// `wgpu::Device::poll` until the queue is idle, and the outcome is taken from
/// the channel: `true` means that the buffer is mapped. `map_async` panics on
/// a buffer of which a mapping was asked before, so the buffer must be idle.
#[verifier::external_body]
fn map_for_read(link: &Watched, staging: &Staging) -> (mapped: bool)
    requires
        staging.spec_mapping() == Mapping::Idle,
{
    let (sender, receiver) = flume::bounded(1);
    staging.raw.slice(..).map_async(
        wgpu::MapMode::Read,
        move |outcome| {
            let _ = sender.send(outcome);
        },
    );
    link.device.poll(wgpu::Maintain::Wait);
    matches!(pollster::block_on(receiver.recv_async()), Ok(Ok(())))
}

/// `wgpu::BufferSlice::get_mapped_range` on the whole of `staging`, its bytes
/// collected into 32-bit words in the machine's byte order
/// (`bytemuck::pod_collect_to_vec`), then `wgpu::Buffer::unmap`. The first
/// call panics on a buffer that is not mapped, so the buffer must be. The
/// words are as many as hold the bytes: a last, partial word is filled up
/// with zeros.
#[verifier::external_body]
fn read_mapped(staging: Staging) -> (words: Vec<u32>)
    requires
        staging.spec_mapping() == Mapping::Mapped,
    ensures
        words@.len() == (staging.spec_size() + 3) / 4,
{
    let view = staging.raw.slice(..).get_mapped_range();
    let words = bytemuck::pod_collect_to_vec::<u8, u32>(&view);
    drop(view);
    staging.raw.unmap();
    words
}

} // verus!
