//! What the allocator asks for, call by call, and what follows from the replies.

use vstd::prelude::*;

use crate::allocator::{
    AllocBuffer, AllocIndex, BufferDesc, GuardedMemory, ImportBuffer, ImportFd, MppAllocator, NewAllocator, WrapBuffer,
};
use crate::call::{Call, Reply};
use crate::mpp_ffi::{
    GstAllocator, GstMemory, MppBuffer, MppBufferGroup, MppBufferInfo, MPP_BUFFER_EXTERNAL, MPP_BUFFER_INTERNAL,
    MPP_BUFFER_TYPE_DRM, MPP_OK, NULL,
};

verus! {

/// Making an allocator asks for a group of our own, a group for imports and a DMA-BUF allocator. It
/// holds what came back, under the index that was next; where one of them does not come, those that
/// came are given back, each by its own handle.
pub proof fn law_new_allocator_holds_what_came(counter: AllocIndex, replies: Seq<Reply>)
    requires
        replies.len() >= 4,
    ensures
        ({
            let run = crate::script::run(NewAllocator::Begin, counter, replies);
            let own = Call::BufferGroupGet { buf_type: MPP_BUFFER_TYPE_DRM, mode: MPP_BUFFER_INTERNAL };
            let foreign = Call::BufferGroupGet { buf_type: MPP_BUFFER_TYPE_DRM, mode: MPP_BUFFER_EXTERNAL };
            let (group, ext_group, dmabuf) = (replies[1], replies[2], replies[3]);
            let calls = crate::trace::calls_of(run.log);
            let failed = run.out == Some(Err::<MppAllocator, ()>(())) && run.state == counter;
            if group.ret != MPP_OK {
                failed && calls == seq![own]
            } else if ext_group.ret != MPP_OK {
                failed && calls == seq![own, foreign, Call::BufferGroupPut(group.handle)]
            } else if dmabuf.handle == NULL {
                failed && calls == seq![
                    own,
                    foreign,
                    Call::DmabufAllocatorNew,
                    Call::BufferGroupPut(ext_group.handle),
                    Call::BufferGroupPut(group.handle),
                ]
            } else {
                &&& calls == seq![own, foreign, Call::DmabufAllocatorNew]
                &&& run.out == Some(
                    Ok::<MppAllocator, ()>(
                        MppAllocator {
                            group: group.handle,
                            ext_group: ext_group.handle,
                            index: counter.next,
                            dmabuf_alloc: dmabuf.handle,
                        },
                    ),
                )
                &&& counter.next < i32::MAX ==> run.state.next == counter.next + 1
            }
        }),
{
    broadcast use crate::trace::group_calls;

    reveal_with_fuel(crate::script::run, 5);
    assert(replies.skip(1).skip(1)[0] == replies[2]);
    assert(replies.skip(1).skip(1).skip(1)[0] == replies[3]);
}

/// Allocating a buffer asks the group for `size` bytes and marks the buffer that comes with the index; the
/// result is that buffer with its descriptor.
pub proof fn law_alloc_asks_for_the_size(group: MppBufferGroup, index: i32, size: usize, replies: Seq<Reply>)
    requires
        replies.len() >= 3,
    ensures
        ({
            let run = crate::script::run(AllocBuffer::Begin { group, index, size }, (), replies);
            let buffer = replies[1].handle;
            let calls = crate::trace::calls_of(run.log);
            if replies[1].ret != MPP_OK {
                &&& calls == seq![Call::BufferGet { group, size }]
                &&& run.out == Some(Err::<(MppBuffer, i32), ()>(()))
            } else {
                &&& calls == seq![
                    Call::BufferGet { group, size },
                    Call::BufferSetIndex { buffer, index },
                    Call::BufferGetFd(buffer),
                ]
                &&& run.out == Some(Ok::<(MppBuffer, i32), ()>((buffer, replies[2].ret)))
            }
        }),
{
    broadcast use crate::trace::group_calls;

    reveal_with_fuel(crate::script::run, 4);
    assert(replies.skip(1).skip(1)[0] == replies[2]);
}

/// The description of a descriptor that is imported: DRM memory of `size` bytes, and nothing else.
pub open spec fn describes(info: MppBufferInfo, fd: i32, size: usize) -> bool {
    &&& info.buf_type == MPP_BUFFER_TYPE_DRM
    &&& info.size == size
    &&& info.fd == fd
    &&& info.ptr == NULL
    &&& info.hnd == NULL
    &&& info.index == -1
}

/// Importing a buffer of MPP. One that carries our index comes back itself, with a duplicate of its
/// descriptor. Any other is imported under its descriptor and size and marked with our index; the buffer
/// that the import made comes back with its own descriptor. Either way the buffer that was handed in is
/// referenced once, at the end.
pub proof fn law_import_hands_out(
    ext_group: MppBufferGroup,
    index: i32,
    desc: BufferDesc,
    size: usize,
    replies: Seq<Reply>,
)
    requires
        replies.len() >= 3,
    ensures
        ({
            let script = ImportBuffer::Begin {
                ext_group,
                index,
                buffer: desc.buffer,
                fd: desc.fd,
                size,
                from_index: desc.index,
            };
            let run = crate::script::run(script, (), replies);
            let calls = crate::trace::calls_of(run.log);
            let failed = run.out == Some(Err::<(MppBuffer, i32), ()>(()));
            if desc.fd < 0 {
                failed && calls.len() == 0
            } else if desc.index == index {
                if replies[1].ret < 0 {
                    failed && calls == seq![Call::Dup(desc.fd)]
                } else {
                    &&& calls == seq![Call::Dup(desc.fd), Call::BufferIncRef(desc.buffer)]
                    &&& run.out == Some(Ok::<(MppBuffer, i32), ()>((desc.buffer, replies[1].ret)))
                }
            } else {
                &&& calls[0] matches Call::BufferImport { group, info } && group == ext_group && describes(
                    info,
                    desc.fd,
                    size,
                )
                &&& if replies[1].ret != MPP_OK {
                    failed && calls.len() == 1
                } else {
                    let imported = replies[1].handle;
                    &&& calls.skip(1) == seq![
                        Call::BufferSetIndex { buffer: imported, index },
                        Call::BufferGetFd(imported),
                        Call::BufferIncRef(desc.buffer),
                    ]
                    &&& run.out == Some(Ok::<(MppBuffer, i32), ()>((imported, replies[2].ret)))
                }
            }
        }),
{
    broadcast use crate::trace::group_calls;

    reveal_with_fuel(crate::script::run, 4);
    assert(replies.skip(1).skip(1)[0] == replies[2]);
}

/// Importing a foreign descriptor asks for it under its size and marks what comes with our index.
pub proof fn law_import_fd_hands_out(
    ext_group: MppBufferGroup,
    index: i32,
    fd: i32,
    size: usize,
    replies: Seq<Reply>,
)
    requires
        replies.len() >= 2,
    ensures
        ({
            let run = crate::script::run(ImportFd::Begin { ext_group, index, fd, size }, (), replies);
            let calls = crate::trace::calls_of(run.log);
            &&& calls[0] matches Call::BufferImport { group, info } && group == ext_group && describes(info, fd, size)
            &&& if replies[1].ret != MPP_OK {
                &&& calls.len() == 1
                &&& run.out == Some(Err::<MppBuffer, ()>(()))
            } else {
                &&& calls.skip(1) == seq![Call::BufferSetIndex { buffer: replies[1].handle, index }]
                &&& run.out == Some(Ok::<MppBuffer, ()>(replies[1].handle))
            }
        }),
{
    broadcast use crate::trace::group_calls;

    reveal_with_fuel(crate::script::run, 3);
}

/// Wrapping a buffer as memory references it, duplicates its descriptor and hands the duplicate, with the
/// size, to the DMA-BUF allocator; the memory that comes is given a guard of the buffer and is the
/// result. Where the duplicate or the memory does not come, the duplicate is closed and the reference
/// given back.
pub proof fn law_wrap_hands_out(allocator: GstAllocator, buffer: MppBuffer, size: usize, replies: Seq<Reply>)
    requires
        replies.len() >= 4,
    ensures
        ({
            let run = crate::script::run(WrapBuffer::Begin { allocator, buffer, size }, (), replies);
            let calls = crate::trace::calls_of(run.log);
            let start = seq![Call::BufferIncRef(buffer), Call::BufferGetFd(buffer), Call::Dup(replies[1].ret)];
            let fd = replies[2].ret;
            let memory = replies[3].handle;
            if fd < 0 {
                &&& calls == start + seq![Call::BufferPut(buffer)]
                &&& run.out == Some(None::<GstMemory>)
            } else if memory == NULL {
                &&& calls == start + seq![
                    Call::FdAllocatorAlloc { allocator, fd, size },
                    Call::Close(fd),
                    Call::BufferPut(buffer),
                ]
                &&& run.out == Some(None::<GstMemory>)
            } else {
                &&& calls == start + seq![
                    Call::FdAllocatorAlloc { allocator, fd, size },
                    Call::MemorySetGuard { memory, buffer },
                ]
                &&& run.out == Some(Some(memory))
            }
        }),
{
    broadcast use crate::trace::group_calls;

    reveal_with_fuel(crate::script::run, 5);
    assert(replies.skip(1).skip(1)[0] == replies[2]);
    assert(replies.skip(1).skip(1).skip(1)[0] == replies[3]);
}

/// An allocator that is torn down gives back its group for imports, its own group and its DMA-BUF
/// allocator, each once.
pub proof fn law_allocator_gives_its_own_back(allocator: MppAllocator)
    ensures
        allocator.teardown_calls().to_multiset() =~= seq![
            Call::BufferGroupPut(allocator.ext_group),
            Call::BufferGroupPut(allocator.group),
            Call::ObjectUnref(allocator.dmabuf_alloc),
        ].to_multiset(),
{
}

/// Memory with a guard stands for the guard's buffer and puts it when it is freed; without a guard it
/// stands for none and puts nothing.
pub proof fn law_guard_stands_for_its_buffer(memory: GuardedMemory)
    ensures
        memory.guard matches Some(guard) ==> memory.buffer() == Some(guard.mpp_buf) && memory.release_calls() == seq![
            Call::BufferPut(guard.mpp_buf),
        ],
        memory.guard is None ==> memory.buffer() is None && memory.release_calls().len() == 0,
{
}

} // verus!
