//! The device session: one logical device with its queue, created on first
//! use, the cache of compiled kernels, and the two things a session does with
//! buffers: launching a kernel over them and reading one back.

use crate::error::TensorError;
use crate::gpu::{
    adapter_best, adapter_limits, bind, compile, copy_out, device_limits, drain_errors,
    label_text, launch, module_source, new_layout, new_pipeline, raws, request_adapter,
    request_device, BufferRole, CopyOut, DeviceLimits, GpuBuffer, Launch, Mapping, Staging,
    Watched,
};
use crate::kernel::{
    cache_key, declared_slots, declared_slots_spec, source_hash, text_hash, KernelSet, ENTRY_POINT,
};
use crate::plan::Grid;
use vstd::prelude::*;
use vstd::string::StringExecFns;

verus! {

impl DeviceLimits {
    /// Whether a buffer of `bytes` bytes may be created and bound whole as
    /// storage under these limits.
    pub open spec fn admits(self, bytes: nat) -> bool {
        bytes <= self.max_buffer_size && bytes <= self.max_storage_buffer_binding_size
    }

    /// Decides [`DeviceLimits::admits`].
    pub fn fits(&self, bytes: usize) -> (ok: bool)
        ensures
            ok == self.admits(bytes as nat),
    {
        bytes as u64 <= self.max_buffer_size && bytes as u64
            <= self.max_storage_buffer_binding_size as u64
    }
}

/// Whether a count of error reports means that the device accepted all that
/// was asked of it since the reports were last taken: it does when there is
/// none.
pub fn no_reports(reports: usize) -> (quiet: bool)
    ensures
        quiet == (reports == 0),
{
    reports == 0
}

/// Takes the error reports that a device has made since they were last
/// taken, and says whether there was none.
fn quiet(link: &Watched) -> (quiet: bool) {
    no_reports(drain_errors(link))
}

/// What a read-back makes of its staging buffer once a mapping was asked
/// for: the words of a buffer that is mapped, as many as hold its bytes, and
/// a mapping failure of any other. Nothing is read from a buffer that is not
/// mapped, and nothing is tried again.
pub fn words_of(staging: Staging) -> (result: Result<Vec<u32>, TensorError>)
    ensures
        result is Ok <==> staging.spec_mapping() == Mapping::Mapped,
        result matches Ok(words) ==> words@.len() == (staging.spec_size() + 3) / 4,
        result matches Err(e) ==> e == TensorError::MappingFailure,
{
    match staging.mapping() {
        Mapping::Mapped => Ok(staging.read()),
        Mapping::Idle => Err(TensorError::MappingFailure),
        Mapping::Failed => Err(TensorError::MappingFailure),
    }
}

/// The slots `0..n`, in order.
pub open spec fn slots_upto(n: nat) -> Seq<u32> {
    Seq::new(n, |i: int| i as u32)
}

/// The slots `0..n`, in order: the slot of the i-th buffer of a launch is `i`.
pub fn binding_slots(n: u32) -> (slots: Vec<u32>)
    ensures
        slots@ == slots_upto(n as nat),
{
    let mut slots: Vec<u32> = Vec::new();
    let mut i: u32 = 0;
    while i < n
        invariant
            i <= n,
            slots@.len() == i,
            forall|k: int| 0 <= k < i ==> slots@[k] == k,
        decreases n - i,
    {
        slots.push(i);
        i += 1;
    }
    assert(slots@ =~= slots_upto(n as nat));
    slots
}

/// Whether `launch` runs a kernel whose source text has the given hash, from
/// the given entry point, over the given buffers, the i-th of them in slot
/// `i` of group 0, on the given grid.
pub open spec fn is_launch_of(
    launch: Launch,
    hash: u64,
    entry_point: Seq<char>,
    buffers: Seq<wgpu::Buffer>,
    grid: Grid,
) -> bool {
    &&& text_hash(launch.source) == hash
    &&& launch.entry_point == entry_point
    &&& launch.slots == slots_upto(buffers.len())
    &&& launch.buffers == buffers
    &&& launch.grid == grid
}

/// Whether the submissions `after` are the submissions `before` and one more.
pub open spec fn one_more<T>(after: Seq<T>, before: Seq<T>) -> bool {
    after.len() == before.len() + 1 && after.drop_last() == before
}

/// A compiled kernel with the key it is cached under.
pub struct CachedShader {
    name: String,
    source_hash: u64,
    module: wgpu::ShaderModule,
}

/// The key of a cached kernel: its name and the hash of its source text.
spec fn key_of(entry: CachedShader) -> (Seq<char>, u64) {
    (entry.name@, entry.source_hash)
}

/// The keys of a cache, in order.
spec fn keys_of(cache: Seq<CachedShader>) -> Seq<(Seq<char>, u64)> {
    Seq::new(cache.len(), |i: int| key_of(cache[i]))
}

/// The modules of a cache, in order.
spec fn modules_of(cache: Seq<CachedShader>) -> Seq<wgpu::ShaderModule> {
    Seq::new(cache.len(), |i: int| cache[i].module)
}

/// Whether no key occurs twice in a cache, and every entry is kept under the
/// hash of the text that its module was compiled from.
spec fn sound(cache: Seq<CachedShader>) -> bool {
    &&& forall|i: int, j: int| 0 <= i < j < cache.len() ==> key_of(cache[i]) != key_of(cache[j])
    &&& forall|i: int|
        0 <= i < cache.len() ==> (#[trigger] cache[i]).source_hash == text_hash(
            module_source(&cache[i].module),
        )
}

/// The keys of a sound cache are distinct.
proof fn lemma_keys_distinct(cache: Seq<CachedShader>)
    requires
        sound(cache),
    ensures
        keys_of(cache).no_duplicates(),
{
    assert forall|i: int, j: int|
        0 <= i < keys_of(cache).len() && 0 <= j < keys_of(cache).len() && i != j implies keys_of(
        cache,
    )[i] != keys_of(cache)[j] by {
        if i < j {
            assert(key_of(cache[i]) != key_of(cache[j]));
        } else {
            assert(key_of(cache[j]) != key_of(cache[i]));
        }
    }
}

/// A device under watch, the adapter it was requested of, the limits it was
/// requested with, and the kernels compiled on it.
pub struct Wgpu {
    link: Watched,
    adapter: wgpu::Adapter,
    limits: DeviceLimits,
    shader_cache: Vec<CachedShader>,
}

impl Wgpu {
    #[verifier::type_invariant]
    spec fn inv(&self) -> bool {
        &&& self.limits == adapter_best(&self.adapter)
        &&& self.limits == device_limits(&self.link.device())
        &&& sound(self.shader_cache@)
    }

    /// The limits the device was requested with.
    pub closed spec fn spec_limits(&self) -> DeviceLimits {
        self.limits
    }

    /// The logical device.
    pub closed spec fn spec_device(&self) -> wgpu::Device {
        self.link.device()
    }

    /// The adapter that the device was requested of.
    pub closed spec fn spec_adapter(&self) -> wgpu::Adapter {
        self.adapter
    }

    /// The keys of the compiled kernels, oldest first.
    pub closed spec fn cache_keys(&self) -> Seq<(Seq<char>, u64)> {
        keys_of(self.shader_cache@)
    }

    /// The compiled kernels, in the order of their keys.
    pub closed spec fn cache_modules(&self) -> Seq<wgpu::ShaderModule> {
        modules_of(self.shader_cache@)
    }

    /// The launches that were submitted to the device, oldest first.
    pub closed spec fn launches(&self) -> Seq<Launch> {
        self.link.launches()
    }

    /// The copies for read-backs that were submitted, oldest first.
    pub closed spec fn copies(&self) -> Seq<CopyOut> {
        self.link.copies()
    }

    /// Whether this is the device `before` at a later time: device, adapter
    /// and limits are the same, compiled kernels stay where they are in the
    /// cache, and what was submitted stays submitted.
    pub open spec fn later(&self, before: &Wgpu) -> bool {
        &&& self.spec_device() == before.spec_device()
        &&& self.spec_adapter() == before.spec_adapter()
        &&& self.spec_limits() == before.spec_limits()
        &&& before.cache_keys().is_prefix_of(self.cache_keys())
        &&& before.cache_modules().is_prefix_of(self.cache_modules())
        &&& before.launches().is_prefix_of(self.launches())
        &&& before.copies().is_prefix_of(self.copies())
    }

    /// What becomes of a request for a logical device: a granted device is
    /// put under watch for errors and kept with its adapter and the limits it
    /// was requested with, with nothing compiled and nothing submitted; a
    /// refusal is a failure to acquire a device.
    pub fn from_grant(
        granted: Result<(wgpu::Device, wgpu::Queue), wgpu::RequestDeviceError>,
        adapter: wgpu::Adapter,
        wanted: DeviceLimits,
    ) -> (result: Result<Wgpu, TensorError>)
        requires
            wanted == adapter_best(&adapter),
            granted matches Ok(pair) ==> device_limits(&pair.0) == wanted,
        ensures
            granted is Ok <==> result is Ok,
            result matches Ok(gpu) ==> {
                &&& gpu.spec_limits() == wanted
                &&& gpu.spec_adapter() == adapter
                &&& gpu.spec_device() == granted->Ok_0.0
                &&& gpu.cache_keys() == Seq::<(Seq<char>, u64)>::empty()
                &&& gpu.cache_modules() == Seq::<wgpu::ShaderModule>::empty()
                &&& gpu.launches() == Seq::<Launch>::empty()
                &&& gpu.copies() == Seq::<CopyOut>::empty()
            },
            result matches Err(e) ==> e == TensorError::DeviceAcquisitionFailure,
    {
        match granted {
            Ok((device, queue)) => {
                let link = Watched::new(device, queue);
                let gpu = Wgpu { link, adapter, limits: wanted, shader_cache: Vec::new() };
                assert(gpu.cache_keys() =~= Seq::<(Seq<char>, u64)>::empty());
                assert(gpu.cache_modules() =~= Seq::<wgpu::ShaderModule>::empty());
                Ok(gpu)
            },
            Err(_) => Err(TensorError::DeviceAcquisitionFailure),
        }
    }

    /// Takes the error reports that the device has made since they were last
    /// taken, and says whether there was none. How many there were is the
    /// device's doing, so nothing holds of the answer beforehand; what is made
    /// of the count is [`no_reports`].
    fn settled(&self) -> (quiet: bool) {
        quiet(&self.link)
    }

    /// The position of the kernel with the given key in the cache.
    fn find(&self, name: &String, hash: u64) -> (found: Option<usize>)
        ensures
            found matches Some(i) ==> i < self.cache_keys().len() && self.cache_keys()[i as int]
                == (name@, hash),
            found is None ==> !self.cache_keys().contains((name@, hash)),
    {
        let mut i: usize = 0;
        while i < self.shader_cache.len()
            invariant
                i <= self.shader_cache@.len(),
                forall|k: int| 0 <= k < i ==> key_of(self.shader_cache@[k]) != (name@, hash),
            decreases self.shader_cache@.len() - i,
        {
            let entry = &self.shader_cache[i];
            if entry.source_hash == hash && entry.name == *name {
                return Some(i);
            }
            i += 1;
        }
        None
    }

    /// Makes sure that the kernel with this name and source text is compiled,
    /// and says where in the cache it is. A kernel whose name and source hash
    /// are in the cache is not compiled again.
    fn ensure_shader(self, shader_name: &str, shader_str: &str) -> (done: (
        Wgpu,
        Result<usize, TensorError>,
    ))
        ensures
            done.0.later(&self),
            done.0.launches() == self.launches(),
            done.0.copies() == self.copies(),
            done.0.cache_keys().no_duplicates(),
            done.0.cache_modules().len() == done.0.cache_keys().len(),
            self.cache_keys().contains(cache_key(shader_name@, shader_str@)) ==> done.1 is Ok
                && done.0.cache_keys() == self.cache_keys(),
            done.1 matches Ok(i) ==> {
                &&& i < done.0.cache_keys().len()
                &&& done.0.cache_keys()[i as int] == cache_key(shader_name@, shader_str@)
                &&& text_hash(module_source(&done.0.cache_modules()[i as int])) == text_hash(
                    shader_str@,
                )
                &&& !self.cache_keys().contains(cache_key(shader_name@, shader_str@)) ==> {
                    &&& done.0.cache_keys() == self.cache_keys().push(
                        cache_key(shader_name@, shader_str@),
                    )
                    &&& module_source(&done.0.cache_modules()[i as int]) == shader_str@
                }
            },
            done.1 matches Err(e) ==> done.0.cache_keys() == self.cache_keys() && e
                == TensorError::DeviceRejected,
    {
        proof {
            use_type_invariant(&self);
            lemma_keys_distinct(self.shader_cache@);
        }
        let name = String::from_str(shader_name);
        let hash = source_hash(shader_str);
        match self.find(&name, hash) {
            Some(i) => {
                return (self, Ok(i));
            },
            None => {},
        }
        let _ = self.settled();
        let module = compile(&self.link, shader_str);
        if !self.settled() {
            return (self, Err(TensorError::DeviceRejected));
        }
        let Wgpu { link, adapter, limits, shader_cache } = self;
        let mut cache = shader_cache;
        let ghost before = cache@;
        cache.push(CachedShader { name, source_hash: hash, module });
        proof {
            assert forall|i: int, j: int| 0 <= i < j < cache@.len() implies key_of(cache@[i])
                != key_of(cache@[j]) by {
                if j < before.len() {
                    assert(key_of(before[i]) != key_of(before[j]));
                } else {
                    assert(keys_of(before)[i] == key_of(before[i]));
                }
            }
            assert(sound(cache@));
            lemma_keys_distinct(cache@);
            assert(keys_of(cache@) =~= keys_of(before).push(cache_key(shader_name@, shader_str@)));
            assert(modules_of(before) =~= modules_of(cache@).subrange(0, before.len() as int));
        }
        let index = cache.len() - 1;
        (Wgpu { link, adapter, limits, shader_cache: cache }, Ok(index))
    }

    /// Launches a kernel over at least one buffer; see
    /// [`WgpuServer::execute`].
    fn execute(
        self,
        buffers: &Vec<&GpuBuffer>,
        shader_name: &str,
        shader_str: &str,
        entry_point: &str,
        dispatch: Grid,
    ) -> (done: (Wgpu, Result<(), TensorError>))
        requires
            0 < buffers@.len() <= u32::MAX,
        ensures
            done.0.later(&self),
            done.0.copies() == self.copies(),
            done.0.launches() == self.launches() || {
                &&& one_more(done.0.launches(), self.launches())
                &&& is_launch_of(
                    done.0.launches().last(),
                    text_hash(shader_str@),
                    entry_point@,
                    raws(buffers@),
                    dispatch,
                )
                &&& !self.cache_keys().contains(cache_key(shader_name@, shader_str@))
                    ==> done.0.launches().last().source == shader_str@
            },
            done.1 is Ok ==> done.0.launches() != self.launches(),
            self.cache_keys().contains(cache_key(shader_name@, shader_str@))
                ==> done.0.cache_keys() == self.cache_keys(),
            !self.cache_keys().contains(cache_key(shader_name@, shader_str@)) ==> {
                ||| done.0.cache_keys() == self.cache_keys()
                ||| done.0.cache_keys() == self.cache_keys().push(
                    cache_key(shader_name@, shader_str@),
                )
            },
            done.1 is Ok ==> done.0.cache_keys().contains(cache_key(shader_name@, shader_str@)),
            done.0.launches() == self.launches() ==> done.1 is Err,
            done.1 matches Err(e) ==> e == TensorError::DeviceRejected,
    {
        let (compiled, found) = self.ensure_shader(shader_name, shader_str);
        let index = match found {
            Ok(index) => index,
            Err(e) => {
                return (compiled, Err(e));
            },
        };
        proof {
            use_type_invariant(&compiled);
        }
        let Wgpu { link, adapter, limits, shader_cache } = compiled;
        let mut link = link;
        let module = &shader_cache[index].module;
        assert(*module == compiled.cache_modules()[index as int]);
        let slots = binding_slots(buffers.len() as u32);
        let _ = quiet(&link);
        let layout = new_layout(&link, &slots);
        let pipeline = new_pipeline(&link, module, entry_point, &layout);
        let group = bind(&link, &layout, &slots, buffers);
        let ghost before = link.launches();
        launch(&mut link, &pipeline, &group, dispatch);
        let accepted = quiet(&link);
        let after = Wgpu { link, adapter, limits, shader_cache };
        proof {
            assert(raws(buffers@).len() == buffers@.len());
            assert(after.launches().drop_last() =~= before);
            assert(after.launches().last().source == module_source(module));
            assert(after.cache_keys() == compiled.cache_keys());
            assert(after.cache_modules() == compiled.cache_modules());
        }
        if accepted {
            (after, Ok(()))
        } else {
            (after, Err(TensorError::DeviceRejected))
        }
    }

    /// Reads back a buffer that is a whole, positive number of words; see
    /// [`WgpuServer::get`].
    fn get(self, src: &GpuBuffer) -> (done: (Wgpu, Result<Vec<u32>, TensorError>))
        requires
            src.spec_size() > 0,
            src.spec_size() % 4 == 0,
        ensures
            done.0.later(&self),
            done.0.cache_keys() == self.cache_keys(),
            done.0.cache_modules() == self.cache_modules(),
            done.0.launches() == self.launches(),
            done.0.copies() == self.copies().push(
                CopyOut {
                    source: src.raw(),
                    bytes: src.spec_size(),
                    after: self.launches().len(),
                },
            ),
            done.1 matches Ok(words) ==> 4 * words@.len() == src.spec_size(),
            done.1 matches Err(e) ==> e == TensorError::DeviceRejected || e
                == TensorError::MappingFailure,
    {
        proof {
            use_type_invariant(&self);
        }
        let bytes = src.size();
        let Wgpu { link, adapter, limits, shader_cache } = self;
        let mut link = link;
        let _ = quiet(&link);
        let mut staging = Staging::new(&link, bytes);
        copy_out(&mut link, src, &staging, bytes);
        let copied = quiet(&link);
        let result = if copied {
            Self::read_staging(&link, staging)
        } else {
            Err(TensorError::DeviceRejected)
        };
        let after = Wgpu { link, adapter, limits, shader_cache };
        proof {
            assert(after.cache_keys() == self.cache_keys());
            assert(after.cache_modules() == self.cache_modules());
        }
        (after, result)
    }

    /// Maps an idle staging buffer that holds a copy and takes its words out.
    fn read_staging(link: &Watched, staging: Staging) -> (result: Result<Vec<u32>, TensorError>)
        requires
            staging.spec_mapping() == Mapping::Idle,
            staging.spec_size() % 4 == 0,
        ensures
            result matches Ok(words) ==> 4 * words@.len() == staging.spec_size(),
            result matches Err(e) ==> e == TensorError::MappingFailure,
    {
        let mut staging = staging;
        let _ = staging.map(link);
        let result = words_of(staging);
        let _ = quiet(link);
        result
    }
}

/// The session. It owns at most one logical device, acquired on first use
/// and kept until the session is dropped, and every kernel compiled on it.
///
/// Tensors belong to the session they were made in and must not be handed to
/// another. Keep one session alive at a time: the driver's GL backend shares
/// one display between all its instances, and closing one can take the
/// display from the others.
pub struct WgpuServer {
    kernels: KernelSet,
    gpu: Option<Wgpu>,
}

impl WgpuServer {
    /// Whether the session has its device.
    pub closed spec fn is_acquired(&self) -> bool {
        self.gpu is Some
    }

    /// The device of an acquired session with what belongs to it.
    pub closed spec fn state(&self) -> Wgpu {
        self.gpu->Some_0
    }

    /// The logical device of an acquired session.
    pub open spec fn device(&self) -> wgpu::Device {
        self.state().spec_device()
    }

    /// The adapter that the device of an acquired session was requested of.
    pub open spec fn adapter(&self) -> wgpu::Adapter {
        self.state().spec_adapter()
    }

    /// The limits that the device of an acquired session was requested with.
    pub open spec fn limits(&self) -> DeviceLimits {
        self.state().spec_limits()
    }

    /// The kernels the session was made with.
    pub closed spec fn kernels(&self) -> KernelSet {
        self.kernels
    }

    /// The keys of the compiled kernels, oldest first: name and source hash.
    pub open spec fn cache_keys(&self) -> Seq<(Seq<char>, u64)> {
        if self.is_acquired() {
            self.state().cache_keys()
        } else {
            Seq::empty()
        }
    }

    /// The compiled kernels, in the order of their keys.
    pub open spec fn cache_modules(&self) -> Seq<wgpu::ShaderModule> {
        if self.is_acquired() {
            self.state().cache_modules()
        } else {
            Seq::empty()
        }
    }

    /// The launches that this session submitted to its device, oldest first.
    /// Whether the device accepted one is what the call that made it
    /// returned.
    pub open spec fn launches(&self) -> Seq<Launch> {
        if self.is_acquired() {
            self.state().launches()
        } else {
            Seq::empty()
        }
    }

    /// The copies for read-backs that this session submitted to its device,
    /// oldest first.
    pub open spec fn copies(&self) -> Seq<CopyOut> {
        if self.is_acquired() {
            self.state().copies()
        } else {
            Seq::empty()
        }
    }

    /// Whether this is the session `before` at a later time: the kernels it
    /// was made with are the same, a device once acquired is kept with its
    /// adapter and limits, compiled kernels stay where they are in the cache,
    /// and what was submitted stays submitted.
    pub open spec fn follows(&self, before: &WgpuServer) -> bool {
        &&& self.kernels() == before.kernels()
        &&& before.is_acquired() ==> self.is_acquired() && self.device() == before.device()
            && self.adapter() == before.adapter() && self.limits() == before.limits()
        &&& before.cache_keys().is_prefix_of(self.cache_keys())
        &&& before.cache_modules().is_prefix_of(self.cache_modules())
        &&& before.launches().is_prefix_of(self.launches())
        &&& before.copies().is_prefix_of(self.copies())
    }

    /// Whether this is the session `before` at a later time at which nothing
    /// more has been compiled or submitted.
    pub open spec fn rests_on(&self, before: &WgpuServer) -> bool {
        &&& self.follows(before)
        &&& self.cache_keys() == before.cache_keys()
        &&& self.cache_modules() == before.cache_modules()
        &&& self.launches() == before.launches()
        &&& self.copies() == before.copies()
    }

    /// A session follows itself, and what follows a later time follows every
    /// earlier one.
    pub proof fn lemma_follows(a: &WgpuServer, b: &WgpuServer, c: &WgpuServer)
        ensures
            a.follows(a),
            c.follows(b) && b.follows(a) ==> c.follows(a),
    {
    }

    /// A session without a device yet, with nothing compiled and nothing
    /// submitted.
    pub fn new(kernels: KernelSet) -> (server: WgpuServer)
        ensures
            !server.is_acquired(),
            server.kernels() == kernels,
            server.cache_keys() == Seq::<(Seq<char>, u64)>::empty(),
            server.launches() == Seq::<Launch>::empty(),
            server.copies() == Seq::<CopyOut>::empty(),
    {
        WgpuServer { kernels, gpu: None }
    }

    /// The kernels the session was made with.
    pub fn kernel_set(&self) -> (kernels: &KernelSet)
        ensures
            *kernels == self.kernels(),
    {
        &self.kernels
    }

    /// How many kernels the session has compiled.
    pub fn cached_kernels(&self) -> (count: usize)
        ensures
            count == self.cache_keys().len(),
    {
        match &self.gpu {
            Some(gpu) => gpu.shader_cache.len(),
            None => 0,
        }
    }

    /// Whether the session has its device.
    pub fn has_device(&self) -> (yes: bool)
        ensures
            yes == self.is_acquired(),
    {
        self.gpu.is_some()
    }

    /// Makes sure the session has its device. The first call selects an
    /// adapter and requests a logical device whose limits on buffer size,
    /// storage binding size, workgroup width and invocations per workgroup
    /// are the adapter's best; later calls do nothing.
    pub fn acquire(&mut self) -> (result: Result<(), TensorError>)
        ensures
            final(self).rests_on(old(self)),
            old(self).is_acquired() ==> result is Ok,
            result is Ok <==> final(self).is_acquired(),
            result matches Err(e) ==> e == TensorError::DeviceAcquisitionFailure,
            final(self).is_acquired() ==> final(self).limits() == adapter_best(
                &final(self).adapter(),
            ) && device_limits(&final(self).device()) == final(self).limits(),
    {
        match &self.gpu {
            Some(gpu) => {
                proof {
                    use_type_invariant(gpu);
                }
                return Ok(());
            },
            None => {},
        }
        let adapter = match request_adapter() {
            Some(adapter) => adapter,
            None => {
                return Err(TensorError::DeviceAcquisitionFailure);
            },
        };
        let wanted = adapter_limits(&adapter);
        let granted = request_device(&adapter, &wanted);
        match Wgpu::from_grant(granted, adapter, wanted) {
            Ok(gpu) => {
                self.gpu = Some(gpu);
                Ok(())
            },
            Err(e) => Err(e),
        }
    }

    /// The device of a session that has one.
    fn gpu(&self) -> (gpu: &Wgpu)
        requires
            self.is_acquired(),
        ensures
            *gpu == self.state(),
    {
        match &self.gpu {
            Some(gpu) => gpu,
            None => vstd::pervasive::unreached(),
        }
    }

    /// Takes the device out of a session that has one, to be put back.
    fn take(&mut self) -> (gpu: Wgpu)
        requires
            old(self).is_acquired(),
        ensures
            gpu == old(self).state(),
            final(self).kernels() == old(self).kernels(),
    {
        let mut slot: Option<Wgpu> = None;
        core::mem::swap(&mut self.gpu, &mut slot);
        match slot {
            Some(gpu) => gpu,
            None => vstd::pervasive::unreached(),
        }
    }

    /// Launches a kernel over `buffers`: the kernel is compiled, or taken from
    /// the cache; the i-th buffer is bound whole to slot `i` of group 0, as
    /// storage that the kernel may read and write; one compute pass with a
    /// grid of `dispatch` workgroups is recorded and submitted. The call
    /// returns when the commands are queued. With no buffer there is nothing
    /// a kernel could change: nothing is compiled and nothing is launched.
    ///
    /// Fails where no device can be acquired, and where the device reports an
    /// error: source text that does not compile, an entry point the kernel
    /// lacks, a kernel that uses a slot for which no buffer is given, a grid
    /// over the device's limit. What was submitted is the last of
    /// [`WgpuServer::launches`] afterwards, also where the device then
    /// reported an error for it.
    pub fn execute(
        &mut self,
        buffers: &Vec<&GpuBuffer>,
        shader_name: &str,
        shader_str: &str,
        entry_point: &str,
        dispatch: Grid,
    ) -> (result: Result<(), TensorError>)
        ensures
            final(self).follows(old(self)),
            final(self).copies() == old(self).copies(),
            declared_slots_spec(shader_str@) != buffers@.len() ==> result == Err::<
                (),
                TensorError,
            >(TensorError::BindingMismatch) && *final(self) == *old(self),
            result is Ok ==> final(self).is_acquired(),
            buffers@.len() == 0 && declared_slots_spec(shader_str@) == 0 ==> (result is Ok
                <==> final(self).is_acquired()) && final(self).rests_on(old(self)),
            old(self).is_acquired() && buffers@.len() == 0 && declared_slots_spec(shader_str@)
                == 0 ==> result is Ok,
            final(self).launches() == old(self).launches() || {
                &&& one_more(final(self).launches(), old(self).launches())
                &&& is_launch_of(
                    final(self).launches().last(),
                    text_hash(shader_str@),
                    entry_point@,
                    raws(buffers@),
                    dispatch,
                )
                &&& !old(self).cache_keys().contains(cache_key(shader_name@, shader_str@))
                    ==> final(self).launches().last().source == shader_str@
            },
            result is Ok && buffers@.len() > 0 ==> final(self).launches() != old(self).launches(),
            final(self).launches() != old(self).launches() ==> result is Ok || result
                == Err::<(), TensorError>(TensorError::DeviceRejected),
            old(self).cache_keys().contains(cache_key(shader_name@, shader_str@)) ==> final(self).cache_keys() == old(self).cache_keys(),
            !old(self).cache_keys().contains(cache_key(shader_name@, shader_str@)) ==> {
                ||| final(self).cache_keys() == old(self).cache_keys()
                ||| final(self).cache_keys() == old(self).cache_keys().push(
                    cache_key(shader_name@, shader_str@),
                )
            },
            result is Ok && buffers@.len() > 0 ==> final(self).cache_keys().contains(
                cache_key(shader_name@, shader_str@),
            ),
            result matches Err(e) ==> {
                &&& e == TensorError::DeviceAcquisitionFailure || e == TensorError::DeviceRejected
                    || e == TensorError::TooLarge || e == TensorError::BindingMismatch
                &&& e == TensorError::BindingMismatch <==> declared_slots_spec(shader_str@)
                    != buffers@.len()
                &&& e == TensorError::DeviceAcquisitionFailure ==> !final(self).is_acquired()
                &&& e == TensorError::DeviceRejected || e == TensorError::TooLarge ==> final(self).is_acquired()
                &&& e == TensorError::TooLarge ==> buffers@.len() > u32::MAX
                &&& final(self).is_acquired() && buffers@.len() > u32::MAX ==> e
                    == TensorError::TooLarge || e == TensorError::BindingMismatch
            },
    {
        if declared_slots(shader_str) != buffers.len() {
            return Err(TensorError::BindingMismatch);
        }
        match self.acquire() {
            Ok(()) => {},
            Err(e) => {
                return Err(e);
            },
        }
        if buffers.len() == 0 {
            return Ok(());
        }
        if buffers.len() > u32::MAX as usize {
            return Err(TensorError::TooLarge);
        }
        let gpu = self.take();
        let (gpu, result) = gpu.execute(buffers, shader_name, shader_str, entry_point, dispatch);
        self.gpu = Some(gpu);
        result
    }

    /// [`WgpuServer::execute`] over three buffers, `buf1` in slot 0, `buf2`
    /// in slot 1 and `buf3` in slot 2, at the entry point `main`.
    pub fn execute_3(
        &mut self,
        buf1: &GpuBuffer,
        buf2: &GpuBuffer,
        buf3: &GpuBuffer,
        shader_name: &str,
        shader_str: &str,
        dispatch: (u32, u32, u32),
    ) -> (result: Result<(), TensorError>)
        ensures
            final(self).follows(old(self)),
            final(self).copies() == old(self).copies(),
            declared_slots_spec(shader_str@) != 3 ==> result == Err::<(), TensorError>(
                TensorError::BindingMismatch,
            ) && *final(self) == *old(self),
            result is Ok ==> final(self).is_acquired(),
            final(self).launches() == old(self).launches() || {
                &&& one_more(final(self).launches(), old(self).launches())
                &&& is_launch_of(
                    final(self).launches().last(),
                    text_hash(shader_str@),
                    ENTRY_POINT@,
                    seq![buf1.raw(), buf2.raw(), buf3.raw()],
                    Grid { x: dispatch.0, y: dispatch.1, z: dispatch.2 },
                )
                &&& !old(self).cache_keys().contains(cache_key(shader_name@, shader_str@))
                    ==> final(self).launches().last().source == shader_str@
            },
            result is Ok ==> final(self).launches() != old(self).launches(),
            final(self).launches() != old(self).launches() ==> result is Ok || result
                == Err::<(), TensorError>(TensorError::DeviceRejected),
            old(self).cache_keys().contains(cache_key(shader_name@, shader_str@)) ==> final(self).cache_keys() == old(self).cache_keys(),
            !old(self).cache_keys().contains(cache_key(shader_name@, shader_str@)) ==> {
                ||| final(self).cache_keys() == old(self).cache_keys()
                ||| final(self).cache_keys() == old(self).cache_keys().push(
                    cache_key(shader_name@, shader_str@),
                )
            },
            result is Ok ==> final(self).cache_keys().contains(
                cache_key(shader_name@, shader_str@),
            ),
            result matches Err(e) ==> {
                &&& e == TensorError::DeviceAcquisitionFailure || e == TensorError::DeviceRejected
                    || e == TensorError::BindingMismatch
                &&& e == TensorError::BindingMismatch <==> declared_slots_spec(shader_str@) != 3
                &&& e == TensorError::DeviceAcquisitionFailure ==> !final(self).is_acquired()
                &&& e == TensorError::DeviceRejected ==> final(self).is_acquired()
            },
    {
        let mut buffers: Vec<&GpuBuffer> = Vec::new();
        buffers.push(buf1);
        buffers.push(buf2);
        buffers.push(buf3);
        assert(raws(buffers@) =~= seq![buf1.raw(), buf2.raw(), buf3.raw()]);
        self.execute(
            &buffers,
            shader_name,
            shader_str,
            ENTRY_POINT,
            Grid { x: dispatch.0, y: dispatch.1, z: dispatch.2 },
        )
    }

    /// [`WgpuServer::execute`] over four buffers, `buf1` in slot 0, `buf2` in
    /// slot 1, `buf3` in slot 2 and `buf4` in slot 3, at the entry point
    /// `main`.
    pub fn execute_4(
        &mut self,
        buf1: &GpuBuffer,
        buf2: &GpuBuffer,
        buf3: &GpuBuffer,
        buf4: &GpuBuffer,
        shader_name: &str,
        shader_str: &str,
        dispatch: (u32, u32, u32),
    ) -> (result: Result<(), TensorError>)
        ensures
            final(self).follows(old(self)),
            final(self).copies() == old(self).copies(),
            declared_slots_spec(shader_str@) != 4 ==> result == Err::<(), TensorError>(
                TensorError::BindingMismatch,
            ) && *final(self) == *old(self),
            result is Ok ==> final(self).is_acquired(),
            final(self).launches() == old(self).launches() || {
                &&& one_more(final(self).launches(), old(self).launches())
                &&& is_launch_of(
                    final(self).launches().last(),
                    text_hash(shader_str@),
                    ENTRY_POINT@,
                    seq![buf1.raw(), buf2.raw(), buf3.raw(), buf4.raw()],
                    Grid { x: dispatch.0, y: dispatch.1, z: dispatch.2 },
                )
                &&& !old(self).cache_keys().contains(cache_key(shader_name@, shader_str@))
                    ==> final(self).launches().last().source == shader_str@
            },
            result is Ok ==> final(self).launches() != old(self).launches(),
            final(self).launches() != old(self).launches() ==> result is Ok || result
                == Err::<(), TensorError>(TensorError::DeviceRejected),
            old(self).cache_keys().contains(cache_key(shader_name@, shader_str@)) ==> final(self).cache_keys() == old(self).cache_keys(),
            !old(self).cache_keys().contains(cache_key(shader_name@, shader_str@)) ==> {
                ||| final(self).cache_keys() == old(self).cache_keys()
                ||| final(self).cache_keys() == old(self).cache_keys().push(
                    cache_key(shader_name@, shader_str@),
                )
            },
            result is Ok ==> final(self).cache_keys().contains(
                cache_key(shader_name@, shader_str@),
            ),
            result matches Err(e) ==> {
                &&& e == TensorError::DeviceAcquisitionFailure || e == TensorError::DeviceRejected
                    || e == TensorError::BindingMismatch
                &&& e == TensorError::BindingMismatch <==> declared_slots_spec(shader_str@) != 4
                &&& e == TensorError::DeviceAcquisitionFailure ==> !final(self).is_acquired()
                &&& e == TensorError::DeviceRejected ==> final(self).is_acquired()
            },
    {
        let mut buffers: Vec<&GpuBuffer> = Vec::new();
        buffers.push(buf1);
        buffers.push(buf2);
        buffers.push(buf3);
        buffers.push(buf4);
        assert(raws(buffers@) =~= seq![buf1.raw(), buf2.raw(), buf3.raw(), buf4.raw()]);
        self.execute(
            &buffers,
            shader_name,
            shader_str,
            ENTRY_POINT,
            Grid { x: dispatch.0, y: dispatch.1, z: dispatch.2 },
        )
    }

    /// Whether a read-back of a buffer of `bytes` bytes with this result had
    /// its copy submitted: one that gave words of a buffer that is not
    /// empty, one that failed at the mapping, and one that the device
    /// rejected though the size was a whole number of words.
    pub open spec fn was_copied(result: Result<Vec<u32>, TensorError>, bytes: nat) -> bool {
        match result {
            Ok(_) => bytes > 0,
            Err(e) => e == TensorError::MappingFailure || (e == TensorError::DeviceRejected
                && bytes % 4 == 0),
        }
    }

    /// Reads a buffer back as 32-bit words: a staging buffer of the same size
    /// is created, a copy into it is submitted behind everything submitted
    /// before, the staging buffer is mapped, which waits for the device, and
    /// [`words_of`] takes its words out, or fails where it is not mapped.
    ///
    /// A buffer that is not a whole number of words is refused as the device
    /// would refuse the copy, and an empty one is read without the device.
    pub fn get(&mut self, src: &GpuBuffer) -> (result: Result<Vec<u32>, TensorError>)
        ensures
            final(self).follows(old(self)),
            final(self).cache_keys() == old(self).cache_keys(),
            final(self).cache_modules() == old(self).cache_modules(),
            final(self).launches() == old(self).launches(),
            Self::was_copied(result, src.spec_size()) ==> final(self).copies() == old(self).copies().push(
                CopyOut {
                    source: src.raw(),
                    bytes: src.spec_size(),
                    after: old(self).launches().len(),
                },
            ),
            !Self::was_copied(result, src.spec_size()) ==> final(self).copies() == old(self).copies(),
            result matches Ok(words) ==> 4 * words@.len() == src.spec_size(),
            result is Ok && src.spec_size() > 0 ==> final(self).is_acquired(),
            src.spec_size() == 0 ==> result is Ok && final(self).rests_on(old(self)),
            src.spec_size() % 4 != 0 ==> result == Err::<Vec<u32>, TensorError>(
                TensorError::DeviceRejected,
            ),
            result matches Err(e) ==> {
                &&& e == TensorError::DeviceAcquisitionFailure || e == TensorError::DeviceRejected
                    || e == TensorError::MappingFailure
                &&& e == TensorError::DeviceAcquisitionFailure ==> !final(self).is_acquired()
                &&& e == TensorError::MappingFailure ==> final(self).is_acquired()
            },
    {
        let bytes = src.size();
        if bytes % 4 != 0 {
            return Err(TensorError::DeviceRejected);
        }
        if bytes == 0 {
            return Ok(Vec::new());
        }
        match self.acquire() {
            Ok(()) => {},
            Err(e) => {
                return Err(e);
            },
        }
        let gpu = self.take();
        let (gpu, result) = gpu.get(src);
        self.gpu = Some(gpu);
        result
    }
}

/// The compiled kernel with this name and source text, compiled now if the
/// session's cache has none under that name and the hash of that text.
pub fn get_shader<'a>(shader_name: &str, shader_str: &str, server: &'a mut WgpuServer) -> (result:
    Result<&'a wgpu::ShaderModule, TensorError>)
    ensures
        final(server).follows(old(server)),
        final(server).launches() == old(server).launches(),
        final(server).copies() == old(server).copies(),
        final(server).cache_keys().no_duplicates(),
        old(server).cache_keys().contains(cache_key(shader_name@, shader_str@)) ==> result is Ok
            && final(server).cache_keys() == old(server).cache_keys(),
        result matches Ok(module) ==> {
            &&& final(server).is_acquired()
            &&& text_hash(module_source(module)) == text_hash(shader_str@)
            &&& !old(server).cache_keys().contains(cache_key(shader_name@, shader_str@)) ==> {
                &&& final(server).cache_keys() == old(server).cache_keys().push(
                    cache_key(shader_name@, shader_str@),
                )
                &&& module_source(module) == shader_str@
            }
            &&& exists|i: int|
                0 <= i < final(server).cache_keys().len() && final(server).cache_keys()[i]
                    == cache_key(shader_name@, shader_str@) && final(server).cache_modules()[i]
                    == *module
        },
        result matches Err(e) ==> {
            &&& final(server).cache_keys() == old(server).cache_keys()
            &&& e == TensorError::DeviceAcquisitionFailure || e == TensorError::DeviceRejected
            &&& e == TensorError::DeviceAcquisitionFailure <==> !final(server).is_acquired()
        },
{
    match server.acquire() {
        Ok(()) => {},
        Err(e) => {
            return Err(e);
        },
    }
    let gpu = server.take();
    let (gpu, found) = gpu.ensure_shader(shader_name, shader_str);
    server.gpu = Some(gpu);
    match found {
        Ok(index) => {
            let gpu = server.gpu();
            assert(gpu.cache_modules()[index as int] == gpu.shader_cache@[index as int].module);
            assert(server.cache_keys()[index as int] == cache_key(shader_name@, shader_str@));
            assert(server.cache_modules()[index as int] == gpu.shader_cache@[index as int].module);
            Ok(&gpu.shader_cache[index].module)
        },
        Err(e) => Err(e),
    }
}

/// The logical device of the session, once it has been acquired. It is
/// handed out for reading: whoever replaces its error handler takes over
/// what becomes of the errors that the device reports.
pub fn get_device_read(server: &WgpuServer) -> (device: Option<&wgpu::Device>)
    ensures
        device is Some <==> server.is_acquired(),
        device matches Some(d) ==> *d == server.device(),
{
    match &server.gpu {
        Some(gpu) => Some(gpu.link.device_ref()),
        None => None,
    }
}

/// A new buffer of `size` bytes for a kernel to write: storage that can be
/// the source of a copy. Its contents are undefined until a kernel has
/// written them.
pub fn create_buffer(size: usize, label: Option<&str>, server: &mut WgpuServer) -> (result: Result<
    GpuBuffer,
    TensorError,
>)
    ensures
        final(server).rests_on(old(server)),
        result matches Ok(buffer) ==> {
            &&& buffer.spec_size() == size
            &&& buffer.spec_role() == BufferRole::Output
            &&& buffer.spec_label() == label_text(label)
            &&& final(server).is_acquired()
            &&& final(server).limits().admits(size as nat)
        },
        result matches Err(e) ==> {
            &&& e == TensorError::DeviceAcquisitionFailure || e == TensorError::TooLarge || e
                == TensorError::DeviceRejected
            &&& e == TensorError::DeviceAcquisitionFailure <==> !final(server).is_acquired()
            &&& e == TensorError::TooLarge <==> final(server).is_acquired() && !final(server).limits().admits(size as nat)
        },
{
    match server.acquire() {
        Ok(()) => {},
        Err(e) => {
            return Err(e);
        },
    }
    let gpu = server.gpu();
    if !gpu.limits.fits(size) {
        return Err(TensorError::TooLarge);
    }
    let _ = gpu.settled();
    let buffer = GpuBuffer::output(&gpu.link, size as u64, label);
    if !gpu.settled() {
        return Err(TensorError::DeviceRejected);
    }
    Ok(buffer)
}

/// A new buffer holding `contents`: storage that can be the destination of a
/// copy.
pub fn create_buffer_init(contents: &Vec<u32>, label: Option<&str>, server: &mut WgpuServer) -> (result:
    Result<GpuBuffer, TensorError>)
    ensures
        final(server).rests_on(old(server)),
        result matches Ok(buffer) ==> {
            &&& buffer.spec_size() == 4 * contents@.len()
            &&& buffer.spec_role() == BufferRole::Input
            &&& buffer.spec_label() == label_text(label)
            &&& buffer.words() == contents@
            &&& final(server).is_acquired()
            &&& final(server).limits().admits(4 * contents@.len())
        },
        result matches Err(e) ==> {
            &&& e == TensorError::DeviceAcquisitionFailure || e == TensorError::TooLarge || e
                == TensorError::DeviceRejected
            &&& e == TensorError::DeviceAcquisitionFailure <==> !final(server).is_acquired()
            &&& e == TensorError::TooLarge <==> final(server).is_acquired() && !final(server).limits().admits(4 * contents@.len())
        },
{
    match server.acquire() {
        Ok(()) => {},
        Err(e) => {
            return Err(e);
        },
    }
    let gpu = server.gpu();
    let bytes = match contents.len().checked_mul(4) {
        Some(bytes) => bytes,
        None => {
            return Err(TensorError::TooLarge);
        },
    };
    if !gpu.limits.fits(bytes) {
        return Err(TensorError::TooLarge);
    }
    proof {
        use_type_invariant(gpu);
    }
    let _ = gpu.settled();
    let buffer = GpuBuffer::input(&gpu.link, contents, label);
    if !gpu.settled() {
        return Err(TensorError::DeviceRejected);
    }
    Ok(buffer)
}

} // verus!
