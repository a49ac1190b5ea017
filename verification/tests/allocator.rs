use mppdarkgst::allocator::{
    attach_mpp_buf_guard, mpp_buffer_from_gst_memory_ref, wrap_mpp_buffer_as_dmabuf_memory, AllocIndex, BufferDesc,
    GuardedMemory, MppAllocator, MppBufGuard,
};
use mppdarkgst::call::{Call, Reply};
use mppdarkgst::mpp_ffi::{
    mpp_buffer_group_get_external, mpp_buffer_group_get_internal, MppBufferInfo, MPP_BUFFER_EXTERNAL,
    MPP_BUFFER_INTERNAL, MPP_BUFFER_TYPE_DRM, NULL,
};
use mppdarkgst::script::{Script, Step};

fn drive<S: Script>(script: S, state: &mut S::State, replies: &[Reply]) -> (Vec<Call>, Option<S::Out>) {
    let mut script = script;
    let mut log = vec![];
    let mut reply = Reply::none();
    let mut replies = replies.iter();
    loop {
        match script.step(state, reply) {
            Step::Calls(calls, next) => {
                log.extend(calls);
                script = next;
                match replies.next() {
                    Some(r) => reply = *r,
                    None => return (log, None),
                }
            }
            Step::Done(calls, out) => {
                log.extend(calls);
                return (log, Some(out));
            }
        }
    }
}

fn ret(ret: i32) -> Reply {
    Reply { ret, ..Reply::none() }
}

fn handle(handle: usize) -> Reply {
    Reply { handle, ..Reply::none() }
}

fn made(index: i32) -> MppAllocator {
    MppAllocator { group: 10, ext_group: 11, index, dmabuf_alloc: 12 }
}

const INTERNAL: Call = Call::BufferGroupGet { buf_type: MPP_BUFFER_TYPE_DRM, mode: MPP_BUFFER_INTERNAL };
const EXTERNAL: Call = Call::BufferGroupGet { buf_type: MPP_BUFFER_TYPE_DRM, mode: MPP_BUFFER_EXTERNAL };

#[test]
fn new_allocator_takes_two_groups_and_an_index() {
    let mut counter = AllocIndex::new();
    let (log, out) = drive(MppAllocator::new(), &mut counter, &[handle(10), handle(11), handle(12)]);
    assert_eq!(log, vec![INTERNAL, EXTERNAL, Call::DmabufAllocatorNew]);
    assert_eq!(out, Some(Ok(made(0))));

    let (_, out) = drive(MppAllocator::new(), &mut counter, &[handle(10), handle(11), handle(12)]);
    assert_eq!(out, Some(Ok(made(1))));
}

#[test]
fn new_allocator_gives_back_on_failure() {
    let mut counter = AllocIndex::new();
    let (log, out) = drive(MppAllocator::new(), &mut counter, &[ret(-1)]);
    assert_eq!(log, vec![INTERNAL]);
    assert_eq!(out, Some(Err(())));

    let (log, out) = drive(MppAllocator::new(), &mut counter, &[handle(10), ret(-1)]);
    assert_eq!(log, vec![INTERNAL, EXTERNAL, Call::BufferGroupPut(10)]);
    assert_eq!(out, Some(Err(())));

    let (log, out) = drive(MppAllocator::new(), &mut counter, &[handle(10), handle(11), handle(NULL)]);
    assert_eq!(
        log,
        vec![INTERNAL, EXTERNAL, Call::DmabufAllocatorNew, Call::BufferGroupPut(11), Call::BufferGroupPut(10)]
    );
    assert_eq!(out, Some(Err(())));

    // No index was drawn.
    assert_eq!(counter.fetch_add(), 0);
}

#[test]
fn teardown_gives_back_what_new_took() {
    assert_eq!(
        made(3).teardown(),
        vec![Call::BufferGroupPut(11), Call::BufferGroupPut(10), Call::ObjectUnref(12)]
    );
}

#[test]
fn indices_count_up_and_wrap() {
    let mut counter = AllocIndex::new();
    assert_eq!(counter.fetch_add(), 0);
    assert_eq!(counter.fetch_add(), 1);
    let mut counter = AllocIndex { next: i32::MAX };
    assert_eq!(counter.fetch_add(), i32::MAX);
    assert_eq!(counter.fetch_add(), i32::MIN);
}

#[test]
fn accessors() {
    let allocator = made(7);
    assert_eq!(allocator.mpp_group(), 10);
    assert_eq!(allocator.index(), 7);
    assert_eq!(allocator.gst_dmabuf_allocator(), 12);
    assert_eq!(allocator.clear_external(), Call::BufferGroupClear(11));
    assert_eq!(mpp_buffer_group_get_internal(MPP_BUFFER_TYPE_DRM), INTERNAL);
    assert_eq!(mpp_buffer_group_get_external(MPP_BUFFER_TYPE_DRM), EXTERNAL);
}

#[test]
fn alloc_marks_the_buffer() {
    let (log, out) = drive(made(7).alloc_buffer(4096), &mut (), &[handle(20), ret(5)]);
    assert_eq!(
        log,
        vec![
            Call::BufferGet { group: 10, size: 4096 },
            Call::BufferSetIndex { buffer: 20, index: 7 },
            Call::BufferGetFd(20),
        ]
    );
    assert_eq!(out, Some(Ok((20, 5))));

    let (log, out) = drive(made(7).alloc_buffer(4096), &mut (), &[ret(-1)]);
    assert_eq!(log, vec![Call::BufferGet { group: 10, size: 4096 }]);
    assert_eq!(out, Some(Err(())));
}

#[test]
fn import_of_own_buffer_duplicates_its_descriptor() {
    let desc = BufferDesc { buffer: 20, fd: 5, size: 100, index: 7 };
    let (log, out) = drive(made(7).import_mpp_buffer(desc), &mut (), &[ret(8)]);
    assert_eq!(log, vec![Call::Dup(5), Call::BufferIncRef(20)]);
    assert_eq!(out, Some(Ok((20, 8))));

    let (log, out) = drive(made(7).import_mpp_buffer(desc), &mut (), &[ret(-1)]);
    assert_eq!(log, vec![Call::Dup(5)]);
    assert_eq!(out, Some(Err(())));
}

#[test]
fn import_of_foreign_buffer_goes_through_the_external_group() {
    let desc = BufferDesc { buffer: 20, fd: 5, size: 4097, index: 6 };
    let info = MppBufferInfo { buf_type: MPP_BUFFER_TYPE_DRM, size: 8192, ptr: NULL, hnd: NULL, fd: 5, index: -1 };
    let (log, out) = drive(made(7).import_mpp_buffer(desc), &mut (), &[handle(21), ret(9)]);
    assert_eq!(
        log,
        vec![
            Call::BufferImport { group: 11, info },
            Call::BufferSetIndex { buffer: 21, index: 7 },
            Call::BufferGetFd(21),
            Call::BufferIncRef(20),
        ]
    );
    assert_eq!(out, Some(Ok((21, 9))));

    let (log, out) = drive(made(7).import_mpp_buffer(desc), &mut (), &[ret(-1)]);
    assert_eq!(log, vec![Call::BufferImport { group: 11, info }]);
    assert_eq!(out, Some(Err(())));
}

#[test]
fn import_without_descriptor_fails() {
    let desc = BufferDesc { buffer: 20, fd: -1, size: usize::MAX, index: 7 };
    let (log, out) = drive(made(7).import_mpp_buffer(desc), &mut (), &[]);
    assert_eq!(log, vec![]);
    assert_eq!(out, Some(Err(())));
}

#[test]
fn import_sizes_are_whole_pages() {
    for (size, pages) in [(0, 0), (1, 4096), (4095, 4096), (4096, 4096), (4097, 8192)] {
        let desc = BufferDesc { buffer: 20, fd: 5, size, index: 6 };
        let (log, _) = drive(made(7).import_mpp_buffer(desc), &mut (), &[]);
        match log[0] {
            Call::BufferImport { info, .. } => assert_eq!(info.size, pages),
            _ => panic!("no import"),
        }
    }
}

#[test]
fn import_of_a_descriptor() {
    let info = MppBufferInfo { size: 100, fd: 5, ..Default::default() };
    let (log, out) = drive(made(7).import_dmabuf_fd(5, 100), &mut (), &[handle(21)]);
    assert_eq!(
        log,
        vec![Call::BufferImport { group: 11, info }, Call::BufferSetIndex { buffer: 21, index: 7 }]
    );
    assert_eq!(out, Some(Ok(21)));

    let (_, out) = drive(made(7).import_dmabuf_fd(5, 100), &mut (), &[ret(-1)]);
    assert_eq!(out, Some(Err(())));
}

#[test]
fn buffer_info_defaults() {
    let info = MppBufferInfo::default();
    assert_eq!(
        info,
        MppBufferInfo { buf_type: MPP_BUFFER_TYPE_DRM, size: 0, ptr: NULL, hnd: NULL, fd: -1, index: -1 }
    );
}

#[test]
fn wrap_duplicates_the_descriptor_and_guards_the_buffer() {
    let allocator = made(7);
    let wrap = || wrap_mpp_buffer_as_dmabuf_memory(&allocator, 20, 300);
    let start = vec![Call::BufferIncRef(20), Call::BufferGetFd(20), Call::Dup(5)];
    let alloc_memory = Call::FdAllocatorAlloc { allocator: 12, fd: 6, size: 300 };

    let (log, out) = drive(wrap(), &mut (), &[ret(5), ret(6), handle(30)]);
    let mut expected = start.clone();
    expected.extend([alloc_memory, Call::MemorySetGuard { memory: 30, buffer: 20 }]);
    assert_eq!(log, expected);
    assert_eq!(out, Some(Some(30)));

    let (log, out) = drive(wrap(), &mut (), &[ret(5), ret(-1)]);
    let mut expected = start.clone();
    expected.push(Call::BufferPut(20));
    assert_eq!(log, expected);
    assert_eq!(out, Some(None));

    let (log, out) = drive(wrap(), &mut (), &[ret(5), ret(6), handle(NULL)]);
    let mut expected = start;
    expected.extend([alloc_memory, Call::Close(6), Call::BufferPut(20)]);
    assert_eq!(log, expected);
    assert_eq!(out, Some(None));
}

#[test]
fn guard_holds_one_reference() {
    let mut memory = GuardedMemory::new();
    assert_eq!(mpp_buffer_from_gst_memory_ref(&memory), None);
    assert_eq!(attach_mpp_buf_guard(&mut memory, MppBufGuard::new(20)), vec![]);
    assert_eq!(mpp_buffer_from_gst_memory_ref(&memory), Some(20));
    assert_eq!(memory.free(), vec![Call::BufferPut(20)]);
    assert_eq!(GuardedMemory::new().free(), vec![]);
    assert_eq!(MppBufGuard::new(20).release(), Call::BufferPut(20));
}

#[test]
fn second_guard_replaces_the_first() {
    let mut memory = GuardedMemory::new();
    attach_mpp_buf_guard(&mut memory, MppBufGuard::new(20));
    assert_eq!(attach_mpp_buf_guard(&mut memory, MppBufGuard::new(21)), vec![Call::BufferPut(20)]);
    assert_eq!(mpp_buffer_from_gst_memory_ref(&memory), Some(21));
    assert_eq!(memory.free(), vec![Call::BufferPut(21)]);
}
