//! The resource and dispatch engine.
//!
//! The engine owns two generation-checked tables — storage buffers and
//! compute kernels — and enforces the rules of the dispatch protocol: a
//! buffer has a fixed nonzero byte size, transfers must match that size
//! exactly, kernel bytecode must decode structurally, and a dispatch needs
//! valid handles, a nonzero three-dimensional grid, and a scalar-parameter
//! block inside the fixed range.
//!
//! The device itself is an external collaborator.  Each logical buffer
//! pairs a device-resident half with a host-addressable staging half; the
//! staging half is held here as plain bytes, and the adapter that owns the
//! device mirrors every record: it allocates the device half when a buffer
//! is created, relays the staging bytes after `write`, performs the
//! device-to-staging transfer and deposits the result through
//! `sync_staging` before `read`, builds a kernel object from the decoded
//! words after `spirv`, and records the command sequence a validated `run`
//! asks for.  Every such call is synchronous: the adapter waits for the
//! device queue to go idle before returning.

use vstd::arithmetic::mul::lemma_mul_inequality;
use vstd::prelude::*;

use crate::spirv;
use crate::table::Handle;
use crate::table::ResourceTable;

verus! {

/// Largest scalar-parameter block a dispatch may carry, in bytes.
pub const MAX_PUSH_CONSTANT_BYTES: usize = 128;

/// Handle to a storage buffer owned by an engine.
#[derive(Clone, Copy, PartialEq, Eq, Structural, Debug)]
pub struct Buffer(pub Handle);

/// Handle to a compute kernel owned by an engine.
#[derive(Clone, Copy, PartialEq, Eq, Structural, Debug)]
pub struct Shader(pub Handle);

/// The error taxonomy of the engine.  Handle misses, size mismatches and
/// malformed arguments are caller errors detected here; the remaining
/// kinds report failures of the device or of the kernel-source compiler,
/// raised by the adapter that owns them.
#[derive(Clone, Copy, PartialEq, Eq, Structural, Debug)]
pub enum EngineError {
    /// Device or context acquisition failed; no engine was produced.
    InitError,
    /// The device could not satisfy an allocation.
    AllocationError,
    /// A handle is stale or unknown.
    NotFound,
    /// A byte slice does not match the buffer's allocated size.
    SizeMismatch,
    /// A zero buffer size, a zero grid dimension, or an oversized
    /// scalar-parameter block.
    InvalidArgument,
    /// Kernel bytecode failed structural decoding.
    DecodeError,
    /// The kernel-source compiler rejected the source.
    CompileError,
    /// The device rejected kernel creation.
    CreationError,
}

/// One logical storage buffer: the fixed byte size shared by its two
/// halves, and the host-addressable staging half through which every
/// transfer passes.  The device-resident half lives with the adapter.
pub struct StorageBuffer {
    pub size_bytes: usize,
    pub staging: Vec<u8>,
}

/// One compute kernel: its bytecode, structurally validated and decoded
/// to words.  The executable device object built from these words lives
/// with the adapter.
pub struct BoundKernel {
    pub words: Vec<u32>,
}

/// The engine facade: the two resource tables and the live/torn-down
/// state.  All shared device objects (layouts, pools, the reusable
/// binding set and command recording) belong to the adapter and follow
/// this state: created once with the engine, destroyed once at teardown.
pub struct Engine {
    pub buffers: ResourceTable<StorageBuffer>,
    pub shaders: ResourceTable<BoundKernel>,
    pub live: bool,
    pub validation: bool,
}

impl Engine {
    /// Every buffer record is internally consistent: a nonzero size and a
    /// staging half of exactly that many bytes.
    pub open spec fn wf(self) -> bool {
        &&& self.buffers.wf()
        &&& self.shaders.wf()
        &&& forall|h: Handle|
            #[trigger] self.buffers.valid(h) ==> self.buffers.at(h).size_bytes > 0
                && self.buffers.at(h).staging@.len() == self.buffers.at(h).size_bytes
    }

    /// Whether `buffer` currently resolves to a live storage buffer.
    pub open spec fn buffer_valid(self, buffer: Buffer) -> bool {
        self.buffers.valid(buffer.0)
    }

    /// The byte size of a live buffer.
    pub open spec fn buffer_size(self, buffer: Buffer) -> usize
        recommends
            self.buffer_valid(buffer),
    {
        self.buffers.at(buffer.0).size_bytes
    }

    /// The bytes currently held by a live buffer's staging half.
    pub open spec fn buffer_staging(self, buffer: Buffer) -> Seq<u8>
        recommends
            self.buffer_valid(buffer),
    {
        self.buffers.at(buffer.0).staging@
    }

    /// Whether `shader` currently resolves to a live kernel.
    pub open spec fn kernel_valid(self, shader: Shader) -> bool {
        self.shaders.valid(shader.0)
    }

    /// The decoded bytecode words of a live kernel.
    pub open spec fn kernel_words(self, shader: Shader) -> Seq<u32>
        recommends
            self.kernel_valid(shader),
    {
        self.shaders.at(shader.0).words@
    }

    /// A live engine with empty tables.  The validation toggle is
    /// recorded for the adapter, which applies it when it brings the
    /// device context up; a failure there is its `InitError`, raised
    /// before any engine state exists.
    pub fn new(validation: bool) -> (e: Engine)
        ensures
            e.wf(),
            e.live,
            e.validation == validation,
            forall|b: Buffer| !e.buffer_valid(b),
            forall|s: Shader| !e.kernel_valid(s),
    {
        Engine {
            buffers: ResourceTable::new(),
            shaders: ResourceTable::new(),
            live: true,
            validation,
        }
    }

    /// Allocate a storage buffer of `length` elements of `element_size`
    /// bytes each.  Both counts must be nonzero and their product must
    /// fit the address space; the staging half starts zeroed.
    pub fn buffer(&mut self, length: usize, element_size: usize) -> (r: Result<
        Buffer,
        EngineError,
    >)
        requires
            old(self).wf(),
            old(self).live,
        ensures
            final(self).wf(),
            final(self).live,
            r is Ok <==> length > 0 && element_size > 0 && length * element_size <= usize::MAX,
            r is Err ==> *final(self) == *old(self) && r->Err_0 == EngineError::InvalidArgument,
            r is Ok ==> {
                let b = r->Ok_0;
                &&& final(self).buffer_valid(b)
                &&& !old(self).buffer_valid(b)
                &&& final(self).buffer_size(b) == length * element_size
                &&& final(self).buffer_staging(b).len() == length * element_size
                &&& (forall|i: int|
                    0 <= i < length * element_size ==> final(self).buffer_staging(b)[i] == 0u8)
                &&& final(self).shaders == old(self).shaders
                &&& (forall|b2: Buffer|
                    old(self).buffer_valid(b2) ==> final(self).buffer_valid(b2)
                        && final(self).buffer_size(b2) == old(self).buffer_size(b2)
                        && final(self).buffer_staging(b2) == old(self).buffer_staging(b2))
                &&& (forall|b2: Buffer|
                    b2 != b && final(self).buffer_valid(b2) ==> old(self).buffer_valid(b2))
                &&& old(self).buffers.len() <= final(self).buffers.len() <= old(self).buffers.len() + 1
                &&& b.0.index < final(self).buffers.len()
                &&& (forall|i: int|
                    0 <= i < old(self).buffers.len() && i != b.0.index ==> final(self).buffers.slots@[i] == old(self).buffers.slots@[i])
                &&& final(self).buffers.slots@[b.0.index as int].generation == b.0.generation
                &&& (b.0.index < old(self).buffers.len() ==> old(self).buffers.slots@[b.0.index
                    as int].value is None && b.0.generation == old(self).buffers.slots@[b.0.index
                    as int].generation)
                &&& (b.0.index == old(self).buffers.len() ==> b.0.generation == 0)
            },
    {
        if length == 0 || element_size == 0 {
            return Err(EngineError::InvalidArgument);
        }
        let size_bytes = match length.checked_mul(element_size) {
            Some(sb) => sb,
            None => {
                return Err(EngineError::InvalidArgument);
            },
        };
        proof {
            lemma_mul_inequality(1, length as int, element_size as int);
        }
        let staging = zero_bytes(size_bytes);
        let h = self.buffers.insert(StorageBuffer { size_bytes, staging });
        Ok(Buffer(h))
    }

    /// Upload: copy `data` into the staging half of `buffer`.  The slice
    /// must match the buffer's size exactly.  The adapter then relays the
    /// staging bytes to the device half and blocks until the transfer
    /// completes.
    pub fn write(&mut self, buffer: Buffer, data: &[u8]) -> (r: Result<(), EngineError>)
        requires
            old(self).wf(),
            old(self).live,
        ensures
            final(self).wf(),
            final(self).live,
            r is Ok <==> old(self).buffer_valid(buffer) && data@.len() == old(self).buffer_size(
                buffer,
            ),
            r is Err ==> *final(self) == *old(self),
            (r is Err && r->Err_0 == EngineError::NotFound) <==> !old(self).buffer_valid(buffer),
            (r is Err && r->Err_0 == EngineError::SizeMismatch) <==> old(self).buffer_valid(buffer)
                && data@.len() != old(self).buffer_size(buffer),
            r is Ok ==> final(self).buffer_staging(buffer) == data@ && staging_update(
                *old(self),
                *final(self),
                buffer,
            ),
    {
        self.set_staging(buffer, data)
    }

    /// Record what a device-to-staging transfer left in the staging half
    /// of `buffer`.  The adapter calls this with the bytes it found after
    /// the transfer, before `read` copies them out; the contract is that
    /// of `write`, since both fill the same relay.
    pub fn sync_staging(&mut self, buffer: Buffer, data: &[u8]) -> (r: Result<(), EngineError>)
        requires
            old(self).wf(),
            old(self).live,
        ensures
            final(self).wf(),
            final(self).live,
            r is Ok <==> old(self).buffer_valid(buffer) && data@.len() == old(self).buffer_size(
                buffer,
            ),
            r is Err ==> *final(self) == *old(self),
            (r is Err && r->Err_0 == EngineError::NotFound) <==> !old(self).buffer_valid(buffer),
            (r is Err && r->Err_0 == EngineError::SizeMismatch) <==> old(self).buffer_valid(buffer)
                && data@.len() != old(self).buffer_size(buffer),
            r is Ok ==> final(self).buffer_staging(buffer) == data@ && staging_update(
                *old(self),
                *final(self),
                buffer,
            ),
    {
        self.set_staging(buffer, data)
    }

    /// Download: copy the staging half of `buffer` into `data`, which
    /// must match the buffer's size exactly.  The adapter performs the
    /// device-to-staging transfer and `sync_staging` first, so these are
    /// the bytes the device last held.
    pub fn read(&mut self, buffer: Buffer, data: &mut Vec<u8>) -> (r: Result<(), EngineError>)
        requires
            old(self).wf(),
            old(self).live,
        ensures
            *final(self) == *old(self),
            final(data)@.len() == old(data)@.len(),
            r is Ok <==> old(self).buffer_valid(buffer) && old(data)@.len() == old(self).buffer_size(buffer),
            (r is Err && r->Err_0 == EngineError::NotFound) <==> !old(self).buffer_valid(buffer),
            (r is Err && r->Err_0 == EngineError::SizeMismatch) <==> old(self).buffer_valid(buffer)
                && old(data)@.len() != old(self).buffer_size(buffer),
            r is Ok ==> final(data)@ == old(self).buffer_staging(buffer),
            r is Err ==> final(data)@ == old(data)@,
    {
        match self.buffers.get(buffer.0) {
            None => Err(EngineError::NotFound),
            Some(rec) => {
                if data.len() != rec.size_bytes {
                    Err(EngineError::SizeMismatch)
                } else {
                    let n = rec.size_bytes;
                    let ghost data0 = data@;
                    let mut j: usize = 0;
                    while j < n
                        invariant
                            j <= n,
                            n == rec.staging@.len(),
                            data@.len() == data0.len(),
                            data0.len() == n,
                            forall|k: int| 0 <= k < j ==> data@[k] == rec.staging@[k],
                        decreases n - j,
                    {
                        let v = rec.staging[j];
                        data.set(j, v);
                        j = j + 1;
                    }
                    assert(data@ =~= rec.staging@);
                    Ok(())
                }
            },
        }
    }

    /// Load kernel bytecode: validate and decode it structurally, and on
    /// success register the kernel under a fresh handle.  The adapter
    /// then builds the executable kernel object from the decoded words,
    /// bound to the fixed two-slot layout and the scalar-parameter range;
    /// if the device rejects it — its `CreationError` — the adapter
    /// releases the kernel again.
    pub fn spirv(&mut self, spv: &[u8]) -> (r: Result<Shader, EngineError>)
        requires
            old(self).wf(),
            old(self).live,
        ensures
            final(self).wf(),
            final(self).live,
            r is Ok <==> spirv::decode_ok(spv@),
            r is Err ==> *final(self) == *old(self) && r->Err_0 == EngineError::DecodeError,
            r is Ok ==> {
                let s = r->Ok_0;
                &&& final(self).kernel_valid(s)
                &&& !old(self).kernel_valid(s)
                &&& final(self).kernel_words(s) == spirv::decoded_words(spv@)
                &&& final(self).buffers == old(self).buffers
                &&& (forall|s2: Shader|
                    old(self).kernel_valid(s2) ==> final(self).kernel_valid(s2)
                        && final(self).kernel_words(s2) == old(self).kernel_words(s2))
                &&& (forall|s2: Shader|
                    s2 != s && final(self).kernel_valid(s2) ==> old(self).kernel_valid(s2))
                &&& old(self).shaders.len() <= final(self).shaders.len() <= old(self).shaders.len() + 1
                &&& s.0.index < final(self).shaders.len()
                &&& (forall|i: int|
                    0 <= i < old(self).shaders.len() && i != s.0.index ==> final(self).shaders.slots@[i] == old(self).shaders.slots@[i])
                &&& final(self).shaders.slots@[s.0.index as int].generation == s.0.generation
                &&& (s.0.index < old(self).shaders.len() ==> old(self).shaders.slots@[s.0.index
                    as int].value is None && s.0.generation == old(self).shaders.slots@[s.0.index
                    as int].generation)
                &&& (s.0.index == old(self).shaders.len() ==> s.0.generation == 0)
            },
    {
        match spirv::decode_words(spv) {
            None => Err(EngineError::DecodeError),
            Some(words) => {
                let h = self.shaders.insert(BoundKernel { words });
                Ok(Shader(h))
            },
        }
    }

    /// Validate a dispatch: the kernel and both buffers must be live, the
    /// three-dimensional grid nonzero in every dimension, and the
    /// scalar-parameter block within the fixed range.  On success the
    /// adapter records the single-use command sequence — push the padded
    /// scalar block, bind the binding set with the two buffers in slots
    /// zero and one, bind the kernel, dispatch the grid — submits it, and
    /// blocks until the queue is idle.  Engine state does not change.
    pub fn run(
        &mut self,
        shader: Shader,
        read: Buffer,
        write: Buffer,
        x: u32,
        y: u32,
        z: u32,
        push_constant: &[u8],
    ) -> (r: Result<(), EngineError>)
        requires
            old(self).wf(),
            old(self).live,
        ensures
            *final(self) == *old(self),
            r is Ok <==> x > 0 && y > 0 && z > 0 && push_constant@.len()
                <= MAX_PUSH_CONSTANT_BYTES && old(self).kernel_valid(shader) && old(self).buffer_valid(read) && old(self).buffer_valid(write),
            (r is Err && r->Err_0 == EngineError::InvalidArgument) <==> (x == 0 || y == 0 || z == 0
                || push_constant@.len() > MAX_PUSH_CONSTANT_BYTES),
            (r is Err && r->Err_0 == EngineError::NotFound) <==> (x > 0 && y > 0 && z > 0
                && push_constant@.len() <= MAX_PUSH_CONSTANT_BYTES && !(old(self).kernel_valid(
                shader,
            ) && old(self).buffer_valid(read) && old(self).buffer_valid(write))),
    {
        if x == 0 || y == 0 || z == 0 || push_constant.len() > MAX_PUSH_CONSTANT_BYTES {
            return Err(EngineError::InvalidArgument);
        }
        if !self.buffers.is_valid(read.0) {
            return Err(EngineError::NotFound);
        }
        if !self.buffers.is_valid(write.0) {
            return Err(EngineError::NotFound);
        }
        if !self.shaders.is_valid(shader.0) {
            return Err(EngineError::NotFound);
        }
        Ok(())
    }

    /// Release one storage buffer before teardown.  Its handle — and any
    /// older handle into the same slot — stays invalid for good; the
    /// adapter frees the device half and both buffer objects.
    pub fn release_buffer(&mut self, buffer: Buffer) -> (r: Result<(), EngineError>)
        requires
            old(self).wf(),
            old(self).live,
        ensures
            final(self).wf(),
            final(self).live,
            r is Ok <==> old(self).buffer_valid(buffer),
            r is Err ==> *final(self) == *old(self) && r->Err_0 == EngineError::NotFound,
            r is Ok ==> {
                &&& final(self).shaders == old(self).shaders
                &&& (forall|b2: Buffer|
                    b2.0.index == buffer.0.index ==> !final(self).buffer_valid(b2))
                &&& (forall|b2: Buffer|
                    b2.0.index != buffer.0.index ==> final(self).buffer_valid(b2) == old(self).buffer_valid(b2))
                &&& (forall|b2: Buffer|
                    b2.0.index != buffer.0.index && old(self).buffer_valid(b2) ==> final(self).buffer_size(b2) == old(self).buffer_size(b2) && final(self).buffer_staging(
                        b2,
                    ) == old(self).buffer_staging(b2))
                &&& final(self).buffers.len() == old(self).buffers.len()
                &&& final(self).buffers.slots@[buffer.0.index as int].value is None
                &&& final(self).buffers.slots@[buffer.0.index as int].generation
                    == buffer.0.generation + 1
                &&& (forall|i: int|
                    0 <= i < old(self).buffers.len() && i != buffer.0.index ==> final(self).buffers.slots@[i] == old(self).buffers.slots@[i])
            },
    {
        match self.buffers.remove(buffer.0) {
            Some(_) => Ok(()),
            None => Err(EngineError::NotFound),
        }
    }

    /// Release one compute kernel before teardown; the adapter destroys
    /// the device kernel object.
    pub fn release_kernel(&mut self, shader: Shader) -> (r: Result<(), EngineError>)
        requires
            old(self).wf(),
            old(self).live,
        ensures
            final(self).wf(),
            final(self).live,
            r is Ok <==> old(self).kernel_valid(shader),
            r is Err ==> *final(self) == *old(self) && r->Err_0 == EngineError::NotFound,
            r is Ok ==> {
                &&& final(self).buffers == old(self).buffers
                &&& (forall|s2: Shader|
                    s2.0.index == shader.0.index ==> !final(self).kernel_valid(s2))
                &&& (forall|s2: Shader|
                    s2.0.index != shader.0.index ==> final(self).kernel_valid(s2) == old(self).kernel_valid(s2))
                &&& (forall|s2: Shader|
                    s2.0.index != shader.0.index && old(self).kernel_valid(s2) ==> final(self).kernel_words(s2) == old(self).kernel_words(s2))
                &&& final(self).shaders.len() == old(self).shaders.len()
                &&& final(self).shaders.slots@[shader.0.index as int].value is None
                &&& final(self).shaders.slots@[shader.0.index as int].generation
                    == shader.0.generation + 1
                &&& (forall|i: int|
                    0 <= i < old(self).shaders.len() && i != shader.0.index ==> final(self).shaders.slots@[i] == old(self).shaders.slots@[i])
            },
    {
        match self.shaders.remove(shader.0) {
            Some(_) => Ok(()),
            None => Err(EngineError::NotFound),
        }
    }

    /// Tear the engine down: after this no handle of either pool is
    /// valid, and no further operation is permitted.  The adapter drives
    /// the full sequence first — wait for the queue to go idle, destroy
    /// every live kernel object, free every buffer pair, then the shared
    /// pool, command and layout objects in reverse creation order — and
    /// marks the engine torn down last.
    pub fn teardown(&mut self)
        requires
            old(self).wf(),
            old(self).live,
        ensures
            final(self).wf(),
            !final(self).live,
            forall|b: Buffer| !final(self).buffer_valid(b),
            forall|s: Shader| !final(self).kernel_valid(s),
    {
        self.buffers = ResourceTable::new();
        self.shaders = ResourceTable::new();
        self.live = false;
    }

    /// Whether the engine is still live (not torn down).
    pub fn is_live(&self) -> (r: bool)
        ensures
            r == self.live,
    {
        self.live
    }

    /// The byte size of a live buffer; `None` for a stale handle.
    pub fn buffer_len(&self, buffer: Buffer) -> (r: Option<usize>)
        ensures
            r is Some <==> self.buffer_valid(buffer),
            r is Some ==> r.unwrap() == self.buffer_size(buffer),
    {
        match self.buffers.get(buffer.0) {
            Some(rec) => Some(rec.size_bytes),
            None => None,
        }
    }

    /// The staging bytes of a live buffer; `None` for a stale handle.
    /// The adapter relays these to the device half after a `write`.
    pub fn staging_bytes(&self, buffer: Buffer) -> (r: Option<&Vec<u8>>)
        ensures
            r is Some <==> self.buffer_valid(buffer),
            r is Some ==> r.unwrap()@ == self.buffer_staging(buffer),
    {
        match self.buffers.get(buffer.0) {
            Some(rec) => Some(&rec.staging),
            None => None,
        }
    }

    /// The decoded bytecode words of a live kernel; `None` for a stale
    /// handle.  The adapter builds the device kernel object from these.
    pub fn kernel_code(&self, shader: Shader) -> (r: Option<&Vec<u32>>)
        ensures
            r is Some <==> self.kernel_valid(shader),
            r is Some ==> r.unwrap()@ == self.kernel_words(shader),
    {
        match self.shaders.get(shader.0) {
            Some(rec) => Some(&rec.words),
            None => None,
        }
    }

    /// Shared body of `write` and `sync_staging`: replace the staging
    /// half of `buffer` with `data` when the sizes agree.
    fn set_staging(&mut self, buffer: Buffer, data: &[u8]) -> (r: Result<(), EngineError>)
        requires
            old(self).wf(),
            old(self).live,
        ensures
            final(self).wf(),
            final(self).live,
            r is Ok <==> old(self).buffer_valid(buffer) && data@.len() == old(self).buffer_size(
                buffer,
            ),
            r is Err ==> *final(self) == *old(self),
            (r is Err && r->Err_0 == EngineError::NotFound) <==> !old(self).buffer_valid(buffer),
            (r is Err && r->Err_0 == EngineError::SizeMismatch) <==> old(self).buffer_valid(buffer)
                && data@.len() != old(self).buffer_size(buffer),
            r is Ok ==> final(self).buffer_staging(buffer) == data@ && staging_update(
                *old(self),
                *final(self),
                buffer,
            ),
    {
        let size_bytes = match self.buffers.get(buffer.0) {
            None => {
                return Err(EngineError::NotFound);
            },
            Some(rec) => rec.size_bytes,
        };
        if data.len() != size_bytes {
            return Err(EngineError::SizeMismatch);
        }
        let staging = vstd::slice::slice_to_vec(data);
        let ok = self.buffers.update(buffer.0, StorageBuffer { size_bytes, staging });
        assert(ok);
        Ok(())
    }
}

/// A successful staging refill touches exactly one buffer's bytes: every
/// handle keeps its validity, every buffer keeps its size, every other
/// buffer keeps its staging bytes, and the kernels are untouched.
pub open spec fn staging_update(pre: Engine, post: Engine, buffer: Buffer) -> bool {
    &&& post.shaders == pre.shaders
    &&& post.buffer_size(buffer) == pre.buffer_size(buffer)
    &&& (forall|b2: Buffer| post.buffer_valid(b2) == pre.buffer_valid(b2))
    &&& (forall|b2: Buffer|
        pre.buffer_valid(b2) ==> post.buffer_size(b2) == pre.buffer_size(b2))
    &&& (forall|b2: Buffer|
        b2.0.index != buffer.0.index && pre.buffer_valid(b2) ==> post.buffer_staging(b2)
            == pre.buffer_staging(b2))
}

/// A vector of `n` zero bytes: the initial contents of a staging half.
fn zero_bytes(n: usize) -> (v: Vec<u8>)
    ensures
        v@.len() == n,
        forall|i: int| 0 <= i < n ==> v@[i] == 0u8,
{
    let mut v: Vec<u8> = Vec::new();
    let mut i: usize = 0;
    while i < n
        invariant
            i <= n,
            v@.len() == i,
            forall|k: int| 0 <= k < i ==> v@[k] == 0u8,
        decreases n - i,
    {
        v.push(0u8);
        i = i + 1;
    }
    v
}

/// The scalar-parameter block as it is pushed to the device: an empty
/// block is padded with zeros to the layout's minimum range of four
/// bytes, any other block is pushed as it is.
pub fn padded_push_constants(push_constant: &[u8]) -> (r: Vec<u8>)
    ensures
        push_constant@.len() == 0 ==> r@ =~= seq![0u8, 0u8, 0u8, 0u8],
        push_constant@.len() > 0 ==> r@ == push_constant@,
{
    if push_constant.len() == 0 {
        let mut v: Vec<u8> = Vec::new();
        v.push(0u8);
        v.push(0u8);
        v.push(0u8);
        v.push(0u8);
        v
    } else {
        vstd::slice::slice_to_vec(push_constant)
    }
}

/// Round trip: a successful `write` of `data` leaves exactly `data` in
/// the buffer's staging half, and a following `read` returns exactly the
/// staging bytes; so what is read back is what was written.  `pre` is the
/// engine before the write, `post` the engine the write leaves behind,
/// and `out` the bytes `read` returns from `post`.
pub proof fn lemma_write_read_round_trip(
    pre: Engine,
    post: Engine,
    buffer: Buffer,
    data: Seq<u8>,
    out: Seq<u8>,
)
    requires
        pre.wf(),
        pre.buffer_valid(buffer),
        data.len() == pre.buffer_size(buffer),
        post.buffer_staging(buffer) == data,
        out == post.buffer_staging(buffer),
    ensures
        out == data,
{
}

/// Stale-handle rejection at the engine: `release_buffer(stale)` leaves
/// the slot vacant one generation up, and when a later `buffer` call
/// reoccupies that index its fresh handle carries the bumped generation —
/// so the fresh handle differs from the stale one, and the stale one
/// resolves to nothing even though its index is live again.  `mid` is the
/// engine `release_buffer` leaves behind and `post` the engine after the
/// reoccupying `buffer` call, as the two contracts describe them.
pub proof fn lemma_stale_buffer_rejected(mid: Engine, post: Engine, stale: Buffer, fresh: Buffer)
    requires
        stale.0.index < mid.buffers.len(),
        mid.buffers.slots@[stale.0.index as int].value is None,
        mid.buffers.slots@[stale.0.index as int].generation == stale.0.generation + 1,
        post.buffer_valid(fresh),
        fresh.0.index == stale.0.index,
        fresh.0.generation == mid.buffers.slots@[fresh.0.index as int].generation,
        post.buffers.slots@[fresh.0.index as int].generation == fresh.0.generation,
    ensures
        fresh != stale,
        !post.buffer_valid(stale),
{
    assert(fresh.0.generation == stale.0.generation + 1);
}

/// Handle invalidation at teardown: an engine whose pools have been
/// emptied resolves no buffer handle and no kernel handle, whatever
/// their indices and generations.
pub proof fn lemma_torn_down_rejects_handles(e: Engine, buffer: Buffer, shader: Shader)
    requires
        e.buffers.len() == 0,
        e.shaders.len() == 0,
    ensures
        !e.buffer_valid(buffer),
        !e.kernel_valid(shader),
{
}

} // verus!
