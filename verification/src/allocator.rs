//! Buffer groups for DMA-BUF allocation and import, and the guards that tie buffers to memory.
//!
//! An allocator owns two buffer groups: one from which MPP allocates, one into which foreign
//! buffers are imported. Its index marks the buffers that it has handed out.

use vstd::prelude::*;

use crate::call::{Call, Reply};
use crate::mpp_ffi::{
    mpp_buffer_group_get_external, mpp_buffer_group_get_internal, GstAllocator, GstMemory, MppBuffer, MppBufferGroup,
    MppBufferInfo, MPP_BUFFER_EXTERNAL, MPP_BUFFER_INTERNAL, MPP_BUFFER_TYPE_DRM, MPP_OK, NULL,
};
use crate::script::{Event, Script, SpecStep, Step};

verus! {

/// The counter that gives each allocator an index of its own.
#[derive(Debug)]
pub struct AllocIndex {
    pub next: i32,
}

impl AllocIndex {
    pub fn new() -> (counter: AllocIndex)
        ensures
            counter.next == 0,
    {
        AllocIndex { next: 0 }
    }

    /// The counter after one index was drawn. It wraps around at the end of its range.
    pub open spec fn advanced(self) -> AllocIndex {
        AllocIndex {
            next: if self.next == i32::MAX {
                i32::MIN
            } else {
                (self.next + 1) as i32
            },
        }
    }

    /// Draws an index.
    pub fn fetch_add(&mut self) -> (index: i32)
        ensures
            index == old(self).next,
            *final(self) == old(self).advanced(),
    {
        let index = self.next;
        self.next = self.next.wrapping_add(1);
        index
    }
}

/// The counter after `n` indices were drawn.
pub open spec fn advanced_by(counter: AllocIndex, n: nat) -> AllocIndex
    decreases n,
{
    if n == 0 {
        counter
    } else {
        advanced_by(counter, (n - 1) as nat).advanced()
    }
}

/// The number that a counter stands at, counted without wrapping.
proof fn lemma_advanced_by(counter: AllocIndex, n: nat)
    requires
        n <= 0x1_0000_0000,
    ensures
        advanced_by(counter, n).next == counter.next + n || advanced_by(counter, n).next == counter.next + n
            - 0x1_0000_0000,
    decreases n,
{
    if n > 0 {
        lemma_advanced_by(counter, (n - 1) as nat);
    }
}

/// Two allocators have different indices, as long as not more than the range of an `i32` were
/// made between them.
pub proof fn law_indices_differ(counter: AllocIndex, i: nat, j: nat)
    requires
        i < j < i + 0x1_0000_0000,
    ensures
        advanced_by(counter, i).next != advanced_by(counter, j).next,
{
    let start = advanced_by(counter, i);
    lemma_advanced_by_add(counter, i, (j - i) as nat);
    lemma_advanced_by(start, (j - i) as nat);
}

proof fn lemma_advanced_by_add(counter: AllocIndex, i: nat, n: nat)
    ensures
        advanced_by(counter, i + n) == advanced_by(advanced_by(counter, i), n),
    decreases n,
{
    if n > 0 {
        lemma_advanced_by_add(counter, i, (n - 1) as nat);
    }
}

/// An allocator of MPP buffers.
#[derive(Debug, PartialEq, Eq)]
pub struct MppAllocator {
    /// The group from which MPP allocates.
    pub group: MppBufferGroup,
    /// The group into which foreign buffers are imported.
    pub ext_group: MppBufferGroup,
    pub index: i32,
    /// The GStreamer allocator of DMA-BUF memory; the reference is ours.
    pub dmabuf_alloc: GstAllocator,
}

/// What the getters of an MPP buffer say of it.
#[derive(Clone, Copy, PartialEq, Eq, Debug)]
pub struct BufferDesc {
    pub buffer: MppBuffer,
    pub fd: i32,
    pub size: usize,
    pub index: i32,
}

impl BufferDesc {
    /// The script that imports this buffer, taken to occupy `size` bytes.
    pub open spec fn importing(self, ext_group: MppBufferGroup, index: i32, size: usize) -> ImportBuffer {
        ImportBuffer::Begin { ext_group, index, buffer: self.buffer, fd: self.fd, size, from_index: self.index }
    }

    /// How importing this buffer goes under the given replies.
    pub open spec fn run_import(
        self,
        ext_group: MppBufferGroup,
        index: i32,
        size: usize,
        replies: Seq<Reply>,
    ) -> crate::script::Run<ImportBuffer> {
        crate::script::run(self.importing(ext_group, index, size), (), replies)
    }
}

/// DRM buffers come in whole pages.
pub const PAGE_SIZE: usize = 4096;

/// Whole pages that hold `size` bytes.
fn page_align(size: usize) -> (r: usize)
    requires
        size + PAGE_SIZE - 1 <= usize::MAX,
    ensures
        crate::mpp_ffi::is_aligned_up(size as int, PAGE_SIZE as int, r as int),
{
    assert(forall|x: usize|
        #![trigger x & !4095usize]
        (x & !4095usize) % 4096 == 0 && (x & !4095usize) <= x && x - (x & !4095usize) < 4096) by (bit_vector);
    (size + 4095) & !4095usize
}

/// The description under which a descriptor is imported.
pub open spec fn import_info(fd: i32, size: usize) -> MppBufferInfo {
    MppBufferInfo { buf_type: MPP_BUFFER_TYPE_DRM, size, ptr: NULL, hnd: NULL, fd, index: (-1) as i32 }
}

impl MppAllocator {
    /// The script that makes an allocator.
    pub fn new() -> (script: NewAllocator)
        ensures
            script == NewAllocator::Begin,
    {
        NewAllocator::Begin
    }

    /// The script that allocates a buffer of `size` bytes from the group of our own. Its result is
    /// the buffer and its descriptor; the caller must put the buffer in the end.
    pub fn alloc_buffer(&self, size: usize) -> (script: AllocBuffer)
        ensures
            script == (AllocBuffer::Begin { group: self.group, index: self.index, size }),
    {
        AllocBuffer::Begin { group: self.group, index: self.index, size }
    }

    /// The script that takes a reference to a buffer of MPP. A buffer that carries our index is
    /// used as it is and its descriptor is duplicated; any other is imported. The caller must put
    /// the buffer in the end, and close the duplicate.
    pub fn import_mpp_buffer(&self, desc: BufferDesc) -> (script: ImportBuffer)
        requires
            desc.fd >= 0 ==> desc.size + PAGE_SIZE - 1 <= usize::MAX,
        ensures
            script matches ImportBuffer::Begin { ext_group, index, buffer, fd, size, from_index } && {
                &&& ext_group == self.ext_group
                &&& index == self.index
                &&& buffer == desc.buffer
                &&& fd == desc.fd
                &&& desc.fd >= 0 ==> crate::mpp_ffi::is_aligned_up(
                    desc.size as int,
                    PAGE_SIZE as int,
                    size as int,
                )
                &&& desc.fd < 0 ==> size == desc.size
                &&& from_index == desc.index
            },
    {
        let size = if desc.fd < 0 {
            desc.size
        } else {
            page_align(desc.size)
        };
        ImportBuffer::Begin {
            ext_group: self.ext_group,
            index: self.index,
            buffer: desc.buffer,
            fd: desc.fd,
            size,
            from_index: desc.index,
        }
    }

    /// The script that imports a foreign descriptor.
    pub fn import_dmabuf_fd(&self, fd: i32, size: usize) -> (script: ImportFd)
        ensures
            script == (ImportFd::Begin { ext_group: self.ext_group, index: self.index, fd, size }),
    {
        ImportFd::Begin { ext_group: self.ext_group, index: self.index, fd, size }
    }

    /// The group from which MPP allocates.
    pub fn mpp_group(&self) -> (group: MppBufferGroup)
        ensures
            group == self.group,
    {
        self.group
    }

    pub fn index(&self) -> (index: i32)
        ensures
            index == self.index,
    {
        self.index
    }

    /// Clears what is cached of foreign buffers.
    pub fn clear_external(&self) -> (call: Call)
        ensures
            call == Call::BufferGroupClear(self.ext_group),
    {
        Call::BufferGroupClear(self.ext_group)
    }

    pub fn gst_dmabuf_allocator(&self) -> (allocator: GstAllocator)
        ensures
            allocator == self.dmabuf_alloc,
    {
        self.dmabuf_alloc
    }

    /// The calls that give back what an allocator owns.
    pub open spec fn teardown_calls(self) -> Seq<Call> {
        seq![
            Call::BufferGroupPut(self.ext_group),
            Call::BufferGroupPut(self.group),
            Call::ObjectUnref(self.dmabuf_alloc),
        ]
    }

    /// Gives back what the allocator owns.
    pub fn teardown(self) -> (calls: Vec<Call>)
        ensures
            calls@ == self.teardown_calls(),
    {
        vec![
            Call::BufferGroupPut(self.ext_group),
            Call::BufferGroupPut(self.group),
            Call::ObjectUnref(self.dmabuf_alloc),
        ]
    }
}

/// Makes an allocator: the group of our own, the group for imports, the DMA-BUF allocator.
pub enum NewAllocator {
    Begin,
    Internal,
    External { group: MppBufferGroup },
    Dmabuf { group: MppBufferGroup, ext_group: MppBufferGroup },
}

impl Script for NewAllocator {
    type State = AllocIndex;

    type Out = Result<MppAllocator, ()>;

    open spec fn next(self, state: AllocIndex, reply: Reply) -> (AllocIndex, SpecStep<Self, Self::Out>) {
        match self {
            NewAllocator::Begin => (
                state,
                SpecStep::Calls(
                    seq![Call::BufferGroupGet { buf_type: MPP_BUFFER_TYPE_DRM, mode: MPP_BUFFER_INTERNAL }],
                    NewAllocator::Internal,
                ),
            ),
            NewAllocator::Internal => if reply.ret != MPP_OK {
                (state, SpecStep::Done(seq![], Err(())))
            } else {
                (
                    state,
                    SpecStep::Calls(
                        seq![Call::BufferGroupGet { buf_type: MPP_BUFFER_TYPE_DRM, mode: MPP_BUFFER_EXTERNAL }],
                        NewAllocator::External { group: reply.handle },
                    ),
                )
            },
            NewAllocator::External { group } => if reply.ret != MPP_OK {
                (state, SpecStep::Done(seq![Call::BufferGroupPut(group)], Err(())))
            } else {
                (
                    state,
                    SpecStep::Calls(
                        seq![Call::DmabufAllocatorNew],
                        NewAllocator::Dmabuf { group, ext_group: reply.handle },
                    ),
                )
            },
            NewAllocator::Dmabuf { group, ext_group } => if reply.handle == NULL {
                (
                    state,
                    SpecStep::Done(seq![Call::BufferGroupPut(ext_group), Call::BufferGroupPut(group)], Err(())),
                )
            } else {
                (
                    state.advanced(),
                    SpecStep::Done(
                        seq![],
                        Ok(MppAllocator { group, ext_group, index: state.next, dmabuf_alloc: reply.handle }),
                    ),
                )
            },
        }
    }

    fn step(self, state: &mut AllocIndex, reply: Reply) -> (step: Step<Self, Self::Out>) {
        match self {
            NewAllocator::Begin => Step::Calls(
                vec![mpp_buffer_group_get_internal(MPP_BUFFER_TYPE_DRM)],
                NewAllocator::Internal,
            ),
            NewAllocator::Internal => {
                if reply.ret != MPP_OK {
                    return Step::Done(vec![], Err(()));
                }
                Step::Calls(
                    vec![mpp_buffer_group_get_external(MPP_BUFFER_TYPE_DRM)],
                    NewAllocator::External { group: reply.handle },
                )
            },
            NewAllocator::External { group } => {
                if reply.ret != MPP_OK {
                    return Step::Done(vec![Call::BufferGroupPut(group)], Err(()));
                }
                Step::Calls(
                    vec![Call::DmabufAllocatorNew],
                    NewAllocator::Dmabuf { group, ext_group: reply.handle },
                )
            },
            NewAllocator::Dmabuf { group, ext_group } => {
                if reply.handle == NULL {
                    return Step::Done(
                        vec![Call::BufferGroupPut(ext_group), Call::BufferGroupPut(group)],
                        Err(()),
                    );
                }
                let index = state.fetch_add();
                Step::Done(vec![], Ok(MppAllocator { group, ext_group, index, dmabuf_alloc: reply.handle }))
            },
        }
    }
}

/// Allocates a buffer, marks it with the allocator's index and asks for its descriptor.
pub enum AllocBuffer {
    Begin { group: MppBufferGroup, index: i32, size: usize },
    Got { index: i32 },
    Fd { buffer: MppBuffer },
}

impl Script for AllocBuffer {
    type State = ();

    type Out = Result<(MppBuffer, i32), ()>;

    open spec fn next(self, state: (), reply: Reply) -> ((), SpecStep<Self, Self::Out>) {
        match self {
            AllocBuffer::Begin { group, index, size } => (
                (),
                SpecStep::Calls(seq![Call::BufferGet { group, size }], AllocBuffer::Got { index }),
            ),
            AllocBuffer::Got { index } => if reply.ret != MPP_OK {
                ((), SpecStep::Done(seq![], Err(())))
            } else {
                (
                    (),
                    SpecStep::Calls(
                        seq![
                            Call::BufferSetIndex { buffer: reply.handle, index },
                            Call::BufferGetFd(reply.handle),
                        ],
                        AllocBuffer::Fd { buffer: reply.handle },
                    ),
                )
            },
            AllocBuffer::Fd { buffer } => ((), SpecStep::Done(seq![], Ok((buffer, reply.ret)))),
        }
    }

    fn step(self, state: &mut (), reply: Reply) -> (step: Step<Self, Self::Out>) {
        match self {
            AllocBuffer::Begin { group, index, size } => Step::Calls(
                vec![Call::BufferGet { group, size }],
                AllocBuffer::Got { index },
            ),
            AllocBuffer::Got { index } => {
                if reply.ret != MPP_OK {
                    return Step::Done(vec![], Err(()));
                }
                let buffer = reply.handle;
                Step::Calls(
                    vec![Call::BufferSetIndex { buffer, index }, Call::BufferGetFd(buffer)],
                    AllocBuffer::Fd { buffer },
                )
            },
            AllocBuffer::Fd { buffer } => Step::Done(vec![], Ok((buffer, reply.ret))),
        }
    }
}

/// Takes a reference to a buffer of MPP, importing it where it carries another index.
pub enum ImportBuffer {
    Begin { ext_group: MppBufferGroup, index: i32, buffer: MppBuffer, fd: i32, size: usize, from_index: i32 },
    Duped { buffer: MppBuffer },
    Imported { index: i32, buffer: MppBuffer },
    Fd { buffer: MppBuffer, imported: MppBuffer },
}

impl Script for ImportBuffer {
    type State = ();

    type Out = Result<(MppBuffer, i32), ()>;

    open spec fn next(self, state: (), reply: Reply) -> ((), SpecStep<Self, Self::Out>) {
        match self {
            ImportBuffer::Begin { ext_group, index, buffer, fd, size, from_index } => if fd < 0 {
                ((), SpecStep::Done(seq![], Err(())))
            } else if from_index != index {
                (
                    (),
                    SpecStep::Calls(
                        seq![Call::BufferImport { group: ext_group, info: import_info(fd, size) }],
                        ImportBuffer::Imported { index, buffer },
                    ),
                )
            } else {
                ((), SpecStep::Calls(seq![Call::Dup(fd)], ImportBuffer::Duped { buffer }))
            },
            ImportBuffer::Duped { buffer } => if reply.ret < 0 {
                ((), SpecStep::Done(seq![], Err(())))
            } else {
                ((), SpecStep::Done(seq![Call::BufferIncRef(buffer)], Ok((buffer, reply.ret))))
            },
            ImportBuffer::Imported { index, buffer } => if reply.ret != MPP_OK {
                ((), SpecStep::Done(seq![], Err(())))
            } else {
                (
                    (),
                    SpecStep::Calls(
                        seq![
                            Call::BufferSetIndex { buffer: reply.handle, index },
                            Call::BufferGetFd(reply.handle),
                        ],
                        ImportBuffer::Fd { buffer, imported: reply.handle },
                    ),
                )
            },
            ImportBuffer::Fd { buffer, imported } => (
                (),
                SpecStep::Done(seq![Call::BufferIncRef(buffer)], Ok((imported, reply.ret))),
            ),
        }
    }

    fn step(self, state: &mut (), reply: Reply) -> (step: Step<Self, Self::Out>) {
        match self {
            ImportBuffer::Begin { ext_group, index, buffer, fd, size, from_index } => {
                if fd < 0 {
                    return Step::Done(vec![], Err(()));
                }
                if from_index != index {
                    let info = MppBufferInfo { size, fd, ..Default::default() };
                    Step::Calls(
                        vec![Call::BufferImport { group: ext_group, info }],
                        ImportBuffer::Imported { index, buffer },
                    )
                } else {
                    Step::Calls(vec![Call::Dup(fd)], ImportBuffer::Duped { buffer })
                }
            },
            ImportBuffer::Duped { buffer } => {
                if reply.ret < 0 {
                    return Step::Done(vec![], Err(()));
                }
                Step::Done(vec![Call::BufferIncRef(buffer)], Ok((buffer, reply.ret)))
            },
            ImportBuffer::Imported { index, buffer } => {
                if reply.ret != MPP_OK {
                    return Step::Done(vec![], Err(()));
                }
                let imported = reply.handle;
                Step::Calls(
                    vec![Call::BufferSetIndex { buffer: imported, index }, Call::BufferGetFd(imported)],
                    ImportBuffer::Fd { buffer, imported },
                )
            },
            ImportBuffer::Fd { buffer, imported } => Step::Done(
                vec![Call::BufferIncRef(buffer)],
                Ok((imported, reply.ret)),
            ),
        }
    }
}

/// Imports a foreign descriptor.
pub enum ImportFd {
    Begin { ext_group: MppBufferGroup, index: i32, fd: i32, size: usize },
    Imported { index: i32 },
}

impl Script for ImportFd {
    type State = ();

    type Out = Result<MppBuffer, ()>;

    open spec fn next(self, state: (), reply: Reply) -> ((), SpecStep<Self, Self::Out>) {
        match self {
            ImportFd::Begin { ext_group, index, fd, size } => (
                (),
                SpecStep::Calls(
                    seq![Call::BufferImport { group: ext_group, info: import_info(fd, size) }],
                    ImportFd::Imported { index },
                ),
            ),
            ImportFd::Imported { index } => if reply.ret != MPP_OK {
                ((), SpecStep::Done(seq![], Err(())))
            } else {
                (
                    (),
                    SpecStep::Done(seq![Call::BufferSetIndex { buffer: reply.handle, index }], Ok(reply.handle)),
                )
            },
        }
    }

    fn step(self, state: &mut (), reply: Reply) -> (step: Step<Self, Self::Out>) {
        match self {
            ImportFd::Begin { ext_group, index, fd, size } => {
                let info = MppBufferInfo { size, fd, ..Default::default() };
                Step::Calls(
                    vec![Call::BufferImport { group: ext_group, info }],
                    ImportFd::Imported { index },
                )
            },
            ImportFd::Imported { index } => {
                if reply.ret != MPP_OK {
                    return Step::Done(vec![], Err(()));
                }
                Step::Done(vec![Call::BufferSetIndex { buffer: reply.handle, index }], Ok(reply.handle))
            },
        }
    }
}

/// Stands for the reference to an MPP buffer that a piece of GStreamer memory holds.
#[derive(Debug, PartialEq, Eq)]
pub struct MppBufGuard {
    pub mpp_buf: MppBuffer,
}

impl MppBufGuard {
    pub fn new(mpp_buf: MppBuffer) -> (guard: MppBufGuard)
        ensures
            guard.mpp_buf == mpp_buf,
    {
        MppBufGuard { mpp_buf }
    }

    /// Gives the reference back, when the memory is freed.
    pub fn release(self) -> (call: Call)
        ensures
            call == Call::BufferPut(self.mpp_buf),
    {
        Call::BufferPut(self.mpp_buf)
    }
}

/// What a piece of GStreamer memory carries for us over its life: a guard, if any.
#[derive(Debug, PartialEq, Eq)]
pub struct GuardedMemory {
    pub guard: Option<MppBufGuard>,
}

impl GuardedMemory {
    /// Memory that carries no guard yet.
    pub fn new() -> (memory: GuardedMemory)
        ensures
            memory.guard is None,
    {
        GuardedMemory { guard: None }
    }

    /// The buffer behind the memory.
    pub open spec fn buffer(self) -> Option<MppBuffer> {
        match self.guard {
            Some(guard) => Some(guard.mpp_buf),
            None => None,
        }
    }

    /// The calls that release the guard: one put of its buffer.
    pub open spec fn release_calls(self) -> Seq<Call> {
        match self.guard {
            Some(guard) => seq![Call::BufferPut(guard.mpp_buf)],
            None => Seq::empty(),
        }
    }

    /// Releases the guard, when the memory is freed.
    pub fn free(self) -> (calls: Vec<Call>)
        ensures
            calls@ == self.release_calls(),
    {
        match self.guard {
            Some(guard) => vec![guard.release()],
            None => vec![],
        }
    }
}

/// Ties a guard to memory, which releases it when it is freed. A guard that was there before is
/// released now.
pub fn attach_mpp_buf_guard(memory: &mut GuardedMemory, guard: MppBufGuard) -> (calls: Vec<Call>)
    ensures
        final(memory).guard == Some(guard),
        calls@ == old(memory).release_calls(),
{
    let calls = match memory.guard.take() {
        Some(before) => vec![before.release()],
        None => vec![],
    };
    memory.guard = Some(guard);
    calls
}

/// The buffer behind memory that carries a guard.
pub fn mpp_buffer_from_gst_memory_ref(memory: &GuardedMemory) -> (buffer: Option<MppBuffer>)
    ensures
        buffer == memory.buffer(),
{
    match &memory.guard {
        Some(guard) => Some(guard.mpp_buf),
        None => None,
    }
}

/// The script that wraps a buffer as DMA-BUF memory with a guard. The descriptor is duplicated, so
/// the buffer keeps its own.
pub fn wrap_mpp_buffer_as_dmabuf_memory(allocator: &MppAllocator, mpp_buf: MppBuffer, size: usize) -> (script:
    WrapBuffer)
    ensures
        script == (WrapBuffer::Begin { allocator: allocator.dmabuf_alloc, buffer: mpp_buf, size }),
{
    WrapBuffer::Begin { allocator: allocator.gst_dmabuf_allocator(), buffer: mpp_buf, size }
}

/// Wraps a buffer as DMA-BUF memory.
pub enum WrapBuffer {
    Begin { allocator: GstAllocator, buffer: MppBuffer, size: usize },
    Fd { allocator: GstAllocator, buffer: MppBuffer, size: usize },
    Duped { allocator: GstAllocator, buffer: MppBuffer, size: usize },
    Wrapped { buffer: MppBuffer, fd: i32 },
}

impl Script for WrapBuffer {
    type State = ();

    type Out = Option<GstMemory>;

    open spec fn next(self, state: (), reply: Reply) -> ((), SpecStep<Self, Self::Out>) {
        match self {
            WrapBuffer::Begin { allocator, buffer, size } => (
                (),
                SpecStep::Calls(
                    seq![Call::BufferIncRef(buffer), Call::BufferGetFd(buffer)],
                    WrapBuffer::Fd { allocator, buffer, size },
                ),
            ),
            WrapBuffer::Fd { allocator, buffer, size } => (
                (),
                SpecStep::Calls(seq![Call::Dup(reply.ret)], WrapBuffer::Duped { allocator, buffer, size }),
            ),
            WrapBuffer::Duped { allocator, buffer, size } => if reply.ret < 0 {
                ((), SpecStep::Done(seq![Call::BufferPut(buffer)], None))
            } else {
                (
                    (),
                    SpecStep::Calls(
                        seq![Call::FdAllocatorAlloc { allocator, fd: reply.ret, size }],
                        WrapBuffer::Wrapped { buffer, fd: reply.ret },
                    ),
                )
            },
            WrapBuffer::Wrapped { buffer, fd } => if reply.handle == NULL {
                ((), SpecStep::Done(seq![Call::Close(fd), Call::BufferPut(buffer)], None))
            } else {
                (
                    (),
                    SpecStep::Done(
                        seq![Call::MemorySetGuard { memory: reply.handle, buffer }],
                        Some(reply.handle),
                    ),
                )
            },
        }
    }

    fn step(self, state: &mut (), reply: Reply) -> (step: Step<Self, Self::Out>) {
        match self {
            WrapBuffer::Begin { allocator, buffer, size } => Step::Calls(
                vec![Call::BufferIncRef(buffer), Call::BufferGetFd(buffer)],
                WrapBuffer::Fd { allocator, buffer, size },
            ),
            WrapBuffer::Fd { allocator, buffer, size } => Step::Calls(
                vec![Call::Dup(reply.ret)],
                WrapBuffer::Duped { allocator, buffer, size },
            ),
            WrapBuffer::Duped { allocator, buffer, size } => {
                let fd = reply.ret;
                if fd < 0 {
                    return Step::Done(vec![Call::BufferPut(buffer)], None);
                }
                Step::Calls(
                    vec![Call::FdAllocatorAlloc { allocator, fd, size }],
                    WrapBuffer::Wrapped { buffer, fd },
                )
            },
            WrapBuffer::Wrapped { buffer, fd } => {
                if reply.handle == NULL {
                    return Step::Done(vec![Call::Close(fd), Call::BufferPut(buffer)], None);
                }
                let memory = reply.handle;
                Step::Done(vec![Call::MemorySetGuard { memory, buffer }], Some(memory))
            },
        }
    }
}

/// Weighs the references to one buffer.
pub open spec fn reference_weight(buffer: MppBuffer) -> spec_fn(Event) -> int {
    |event: Event|
        if event.call == Call::BufferIncRef(buffer) {
            1
        } else if event.call == Call::BufferPut(buffer) {
            -1
        } else {
            0
        }
}

/// Weighs descriptors: a duplicate is ours until it is closed or wrapped as memory.
pub open spec fn descriptor_weight() -> spec_fn(Event) -> int {
    |event: Event|
        match event.call {
            Call::Dup(_) => if event.reply matches Some(reply) && reply.ret >= 0 {
                1
            } else {
                0
            },
            Call::Close(_) => -1,
            Call::FdAllocatorAlloc { .. } => if event.reply matches Some(reply) && reply.handle != NULL {
                -1
            } else {
                0
            },
            _ => 0,
        }
}

spec fn wrap_references(buffer: MppBuffer) -> crate::script::Account<WrapBuffer> {
    crate::script::Account {
        weight: reference_weight(buffer),
        at: |script: WrapBuffer, state: ()|
            match script {
                WrapBuffer::Begin { buffer: b, .. } => b == buffer,
                WrapBuffer::Fd { buffer: b, .. } => b == buffer,
                WrapBuffer::Duped { buffer: b, .. } => b == buffer,
                WrapBuffer::Wrapped { buffer: b, .. } => b == buffer,
            },
        held: |script: WrapBuffer, state: (), reply: Reply|
            if script is Begin {
                0int
            } else {
                1
            },
        kept: |state: (), out: Option<GstMemory>|
            if out is Some {
                1int
            } else {
                0
            },
    }
}

/// Wrapping a buffer takes one reference, which the guard of the memory gives back when the memory
/// is freed; where wrapping fails, no reference is left.
pub proof fn law_wrap_takes_one_reference(
    allocator: GstAllocator,
    buffer: MppBuffer,
    size: usize,
    replies: Seq<Reply>,
)
    requires
        crate::script::run(WrapBuffer::Begin { allocator, buffer, size }, (), replies).out is Some,
    ensures
        ({
            let run = crate::script::run(WrapBuffer::Begin { allocator, buffer, size }, (), replies);
            crate::script::total(reference_weight(buffer), run.log) == if run.out->0 is Some {
                1int
            } else {
                0
            }
        }),
{
    let account = wrap_references(buffer);
    let script = WrapBuffer::Begin { allocator, buffer, size };
    reveal_with_fuel(crate::script::total, 4);
    crate::script::lemma_run_balances(account, script, (), replies);
}

spec fn wrap_descriptors() -> crate::script::Account<WrapBuffer> {
    crate::script::Account {
        weight: descriptor_weight(),
        at: |script: WrapBuffer, state: ()| true,
        held: |script: WrapBuffer, state: (), reply: Reply|
            match script {
                WrapBuffer::Duped { .. } => if reply.ret >= 0 {
                    1int
                } else {
                    0
                },
                WrapBuffer::Wrapped { .. } => if reply.handle == NULL {
                    1int
                } else {
                    0
                },
                _ => 0,
            },
        kept: |state: (), out: Option<GstMemory>| 0int,
    }
}

/// Wrapping a buffer leaves no duplicate of its descriptor behind: the duplicate goes into the
/// memory or is closed.
pub proof fn law_wrap_leaves_no_descriptor(
    allocator: GstAllocator,
    buffer: MppBuffer,
    size: usize,
    replies: Seq<Reply>,
)
    requires
        crate::script::run(WrapBuffer::Begin { allocator, buffer, size }, (), replies).out is Some,
    ensures
        crate::script::total(
            descriptor_weight(),
            crate::script::run(WrapBuffer::Begin { allocator, buffer, size }, (), replies).log,
        ) == 0,
{
    let script = WrapBuffer::Begin { allocator, buffer, size };
    reveal_with_fuel(crate::script::total, 4);
    crate::script::lemma_run_balances(wrap_descriptors(), script, (), replies);
}

spec fn import_references(buffer: MppBuffer) -> crate::script::Account<ImportBuffer> {
    crate::script::Account {
        weight: reference_weight(buffer),
        at: |script: ImportBuffer, state: ()|
            match script {
                ImportBuffer::Begin { buffer: b, .. } => b == buffer,
                ImportBuffer::Duped { buffer: b } => b == buffer,
                ImportBuffer::Imported { buffer: b, .. } => b == buffer,
                ImportBuffer::Fd { buffer: b, .. } => b == buffer,
            },
        held: |script: ImportBuffer, state: (), reply: Reply| 0int,
        kept: |state: (), out: Result<(MppBuffer, i32), ()>|
            if out is Ok {
                1int
            } else {
                0
            },
    }
}

/// Importing a buffer of MPP takes one reference to it, or none where it fails. A buffer without a
/// descriptor cannot be imported.
pub proof fn law_import_takes_one_reference(
    ext_group: MppBufferGroup,
    index: i32,
    desc: BufferDesc,
    size: usize,
    replies: Seq<Reply>,
)
    requires
        desc.run_import(ext_group, index, size, replies).out is Some,
    ensures
        ({
            let run = desc.run_import(ext_group, index, size, replies);
            &&& crate::script::total(reference_weight(desc.buffer), run.log) == if run.out->0 is Ok {
                1int
            } else {
                0
            }
            &&& desc.fd < 0 ==> run.out->0 is Err
        }),
{
    let script = desc.importing(ext_group, index, size);
    reveal_with_fuel(crate::script::total, 4);
    crate::script::lemma_run_balances(import_references(desc.buffer), script, (), replies);
}

spec fn import_descriptors(own: bool) -> crate::script::Account<ImportBuffer> {
    crate::script::Account {
        weight: descriptor_weight(),
        at: |script: ImportBuffer, state: ()|
            match script {
                ImportBuffer::Begin { index, from_index, .. } => own == (from_index == index),
                ImportBuffer::Duped { .. } => own,
                _ => !own,
            },
        held: |script: ImportBuffer, state: (), reply: Reply|
            if script is Duped && reply.ret >= 0 {
                1int
            } else {
                0
            },
        kept: |state: (), out: Result<(MppBuffer, i32), ()>|
            if own && out is Ok {
                1int
            } else {
                0
            },
    }
}

/// A buffer that carries the allocator's index comes back as it is, with a duplicate of its
/// descriptor that is the caller's; importing any other buffer duplicates nothing.
pub proof fn law_import_duplicates_own_descriptor(
    ext_group: MppBufferGroup,
    index: i32,
    desc: BufferDesc,
    size: usize,
    replies: Seq<Reply>,
)
    requires
        desc.run_import(ext_group, index, size, replies).out is Some,
    ensures
        ({
            let run = desc.run_import(ext_group, index, size, replies);
            &&& desc.index == index && run.out->0 is Ok ==> run.out->0->Ok_0.0 == desc.buffer
            &&& crate::script::total(descriptor_weight(), run.log) == if desc.index == index && run.out->0 is Ok {
                1int
            } else {
                0
            }
        }),
{
    let script = desc.importing(ext_group, index, size);
    reveal_with_fuel(crate::script::total, 4);
    reveal_with_fuel(crate::script::run, 3);
    crate::script::lemma_run_balances(import_descriptors(desc.index == index), script, (), replies);
}

/// Weighs what an allocator owns: buffer groups and the DMA-BUF allocator.
pub open spec fn allocator_weight() -> spec_fn(Event) -> int {
    |event: Event|
        match event.call {
            Call::BufferGroupGet { .. } => if event.reply matches Some(reply) && reply.ret == MPP_OK {
                1
            } else {
                0
            },
            Call::DmabufAllocatorNew => if event.reply matches Some(reply) && reply.handle != NULL {
                1
            } else {
                0
            },
            Call::BufferGroupPut(_) => -1,
            Call::ObjectUnref(_) => -1,
            _ => 0,
        }
}

impl NewAllocator {
    /// What is acquired at this point, given the reply that is about to be taken.
    pub open spec fn owned(self, reply: Reply) -> int {
        match self {
            NewAllocator::Begin => 0,
            NewAllocator::Internal => crate::resources::one_if(reply.ret == MPP_OK),
            NewAllocator::External { .. } => 1 + crate::resources::one_if(reply.ret == MPP_OK),
            NewAllocator::Dmabuf { .. } => 2 + crate::resources::one_if(reply.handle != NULL),
        }
    }
}

spec fn new_account() -> crate::script::Account<NewAllocator> {
    crate::script::Account {
        weight: allocator_weight(),
        at: |script: NewAllocator, state: AllocIndex| true,
        held: |script: NewAllocator, state: AllocIndex, reply: Reply| script.owned(reply),
        kept: |state: AllocIndex, out: Result<MppAllocator, ()>|
            if out is Ok {
                3int
            } else {
                0
            },
    }
}

/// Making an allocator acquires its two groups and its DMA-BUF allocator, or nothing in the end
/// where it fails; an index is drawn only where it succeeds.
pub proof fn law_new_allocator_owns_three_or_nothing(counter: AllocIndex, replies: Seq<Reply>)
    requires
        crate::script::run(NewAllocator::Begin, counter, replies).out is Some,
    ensures
        ({
            let run = crate::script::run(NewAllocator::Begin, counter, replies);
            &&& crate::script::total(allocator_weight(), run.log) == if run.out->0 is Ok {
                3int
            } else {
                0
            }
            &&& run.out->0 matches Ok(allocator) ==> allocator.index == counter.next && run.state
                == counter.advanced()
            &&& run.out->0 is Err ==> run.state == counter
        }),
{
    reveal_with_fuel(crate::script::total, 4);
    reveal_with_fuel(crate::script::run, 5);
    crate::script::lemma_run_balances(new_account(), NewAllocator::Begin, counter, replies);
}

/// Tearing an allocator down gives back all that making it acquired.
pub proof fn law_teardown_gives_all_back(counter: AllocIndex, replies: Seq<Reply>)
    requires
        crate::script::run(NewAllocator::Begin, counter, replies).out matches Some(Ok(_)),
    ensures
        ({
            let run = crate::script::run(NewAllocator::Begin, counter, replies);
            let allocator = run.out->0->Ok_0;
            crate::script::total(
                allocator_weight(),
                run.log + crate::script::events(allocator.teardown_calls(), None),
            ) == 0
        }),
{
    let run = crate::script::run(NewAllocator::Begin, counter, replies);
    let allocator = run.out->0->Ok_0;
    law_new_allocator_owns_three_or_nothing(counter, replies);
    let end = crate::script::events(allocator.teardown_calls(), None);
    crate::script::lemma_total_add(allocator_weight(), run.log, end);
    reveal_with_fuel(crate::script::total, 4);
}

/// Allocating a buffer takes one reference to it, or none where it fails; a buffer that was
/// allocated carries the allocator's index. Success hands a buffer out.
pub proof fn law_alloc_takes_one_reference(group: MppBufferGroup, index: i32, size: usize, replies: Seq<Reply>)
    requires
        replies.len() >= 3,
        replies[1].ret == MPP_OK ==> replies[1].handle != NULL,
    ensures
        ({
            let run = crate::script::run(AllocBuffer::Begin { group, index, size }, (), replies);
            &&& run.out is Some
            &&& run.out->0 is Ok <==> replies[1].ret == MPP_OK
            &&& crate::script::total(crate::resources::buffer_weight(), run.log) == crate::resources::one_if(
                run.out->0 is Ok,
            )
            &&& run.out->0 matches Ok((buffer, fd)) ==> {
                &&& buffer == replies[1].handle
                &&& fd == replies[2].ret
                &&& run.log[1].call == Call::BufferSetIndex { buffer, index }
            }
        }),
{
    broadcast use crate::script::group_batch;

    reveal_with_fuel(crate::script::run, 4);
    assert(replies.skip(1).skip(1)[0] == replies[2]);
    let account = crate::script::Account {
        weight: crate::resources::buffer_weight(),
        at: |script: AllocBuffer, state: ()| script matches AllocBuffer::Fd { buffer } ==> buffer != NULL,
        held: |script: AllocBuffer, state: (), reply: Reply|
            match script {
                AllocBuffer::Begin { .. } => 0,
                AllocBuffer::Got { .. } => crate::resources::one_if(reply.ret == MPP_OK),
                AllocBuffer::Fd { .. } => 1,
            },
        kept: |state: (), out: Result<(MppBuffer, i32), ()>| crate::resources::one_if(out is Ok),
    };
    let hands_out = |script: AllocBuffer, reply: Reply|
        script is Got && reply.ret == MPP_OK ==> reply.handle != NULL;
    let script = AllocBuffer::Begin { group, index, size };
    reveal_with_fuel(crate::script::as_expected, 4);
    crate::script::lemma_run_balances_expecting(account, hands_out, script, (), replies);
}

/// Memory that is given guards of these buffers one after the other, and the calls that this makes.
pub open spec fn memory_life(buffers: Seq<MppBuffer>) -> (GuardedMemory, Seq<Call>)
    decreases buffers.len(),
{
    if buffers.len() == 0 {
        (GuardedMemory { guard: None }, Seq::empty())
    } else {
        let (before, calls) = memory_life(buffers.drop_last());
        (
            GuardedMemory { guard: Some(MppBufGuard { mpp_buf: buffers.last() }) },
            calls + before.release_calls(),
        )
    }
}

/// How often a buffer occurs among others.
pub open spec fn occurrences(buffers: Seq<MppBuffer>, buffer: MppBuffer) -> int
    decreases buffers.len(),
{
    if buffers.len() == 0 {
        0
    } else {
        occurrences(buffers.drop_last(), buffer) + crate::resources::one_if(buffers.last() == buffer)
    }
}

/// A guard puts its buffer exactly once: not before the memory is freed or gets another guard, and
/// then neither twice nor never. The buffer behind the memory is that of the last guard.
pub proof fn law_guard_puts_once(buffers: Seq<MppBuffer>, buffer: MppBuffer)
    ensures
        ({
            let (memory, calls) = memory_life(buffers);
            let weight = reference_weight(buffer);
            &&& buffers.len() == 0 ==> memory.buffer() is None && calls.len() == 0
            &&& buffers.len() > 0 ==> memory.buffer() == Some(buffers.last()) && crate::script::batch(
                weight,
                calls,
                None,
            ) == -occurrences(buffers.drop_last(), buffer)
            &&& crate::script::batch(weight, calls + memory.release_calls(), None) == -occurrences(buffers, buffer)
        }),
    decreases buffers.len(),
{
    broadcast use crate::script::group_batch;

    if buffers.len() > 0 {
        law_guard_puts_once(buffers.drop_last(), buffer);
    }
}

/// The reference that wrapping a buffer takes ends with the memory: freeing it, or giving it a guard
/// of another buffer, puts the buffer once, and no reference of ours is left.
pub proof fn law_wrapped_memory_gives_reference_back(
    allocator: GstAllocator,
    buffer: MppBuffer,
    size: usize,
    replies: Seq<Reply>,
)
    requires
        crate::script::run(WrapBuffer::Begin { allocator, buffer, size }, (), replies).out matches Some(Some(_)),
    ensures
        ({
            let run = crate::script::run(WrapBuffer::Begin { allocator, buffer, size }, (), replies);
            let (memory, calls) = memory_life(seq![buffer]);
            &&& run.log.last().call == Call::MemorySetGuard { memory: run.out->0->0, buffer }
            &&& memory.buffer() == Some(buffer)
            &&& calls.len() == 0
            &&& memory.release_calls() == seq![Call::BufferPut(buffer)]
            &&& crate::script::total(
                reference_weight(buffer),
                run.log + crate::script::events(memory.release_calls(), None),
            ) == 0
        }),
{
    broadcast use crate::script::group_batch;

    let run = crate::script::run(WrapBuffer::Begin { allocator, buffer, size }, (), replies);
    law_wrap_takes_one_reference(allocator, buffer, size, replies);
    reveal_with_fuel(crate::script::run, 5);
    reveal_with_fuel(memory_life, 2);
    assert(seq![buffer].drop_last() =~= Seq::empty());
    let put = seq![Call::BufferPut(buffer)];
    crate::script::lemma_total_add(reference_weight(buffer), run.log, crate::script::events(put, None));
    assert(crate::script::batch(reference_weight(buffer), put, None) == -1);
}

} // verus!
