use mppdarkgst::call::{Call, Flow, Geometry, MetaKey, Param, Port, Reply};
use mppdarkgst::jpegdec::frames::{AnnouncePicture, Decoded, FinishPicture, JpegDecode, JpegDeliver, Picture};
use mppdarkgst::jpegdec::state::{CreateError, DecoderState, JpegFormat, JpegSetFormat, SetFormatError};
use mppdarkgst::jpegdec::{MppJpegDec, PictureCaps};
use mppdarkgst::mpp_ffi::{
    FrameInfo, Mpp, MppApiStruct, MPP_BUFFER_INTERNAL, MPP_BUFFER_TYPE_DRM, MPP_CTX_DEC, MPP_DEC_SET_DISABLE_ERROR,
    MPP_SET_OUTPUT_TIMEOUT, MPP_VIDEO_CodingMJPEG, NULL,
};
use mppdarkgst::output::{Entry, NegotiateOutput};
use mppdarkgst::script::{Script, Step};

fn drive<S: Script>(script: S, state: &mut S::State, replies: &[Reply]) -> (Vec<Call>, Option<S::Out>) {
    let mut script = script;
    let mut log = vec![];
    let mut reply = Reply::none();
    let mut replies = replies.iter();
    loop {
        match script.step(state, reply) {
            Step::Calls(calls, next) => {
                log.extend(calls);
                script = next;
                match replies.next() {
                    Some(r) => reply = *r,
                    None => return (log, None),
                }
            }
            Step::Done(calls, out) => {
                log.extend(calls);
                return (log, Some(out));
            }
        }
    }
}

fn ok() -> Reply {
    Reply::none()
}

fn ret(ret: i32) -> Reply {
    Reply { ret, ..Reply::none() }
}

fn handle(handle: usize) -> Reply {
    Reply { handle, ..Reply::none() }
}

fn info(info: FrameInfo) -> Reply {
    Reply { info, ..Reply::none() }
}

fn full_api() -> MppApiStruct {
    MppApiStruct {
        decode_put_packet: true,
        decode_get_frame: true,
        encode_put_frame: true,
        encode_get_packet: true,
        poll: true,
        dequeue: true,
        enqueue: true,
        reset: true,
        control: true,
    }
}

const MPP: Mpp = Mpp { ctx: 100, mpi: 101 };
const PICTURE: Picture = Picture { frame: 71, buffer: 77 };

const SMALL: Geometry = Geometry { width: 640, height: 360, hor_stride: 640, ver_stride: 368 };
const GROUP: Call = Call::BufferGroupGet { buf_type: MPP_BUFFER_TYPE_DRM, mode: MPP_BUFFER_INTERNAL };

fn decoder() -> DecoderState {
    DecoderState {
        mpp: MPP,
        api: full_api(),
        geometry: SMALL,
        buf_size: 471_040,
        input_group: 20,
        buf_group: 21,
        negotiated: true,
    }
}

fn picture() -> FrameInfo {
    FrameInfo {
        eos: 0,
        info_change: 0,
        errinfo: 0,
        discard: 0,
        width: 640,
        height: 360,
        hor_stride: 640,
        ver_stride: 368,
        buffer: 77,
    }
}

#[test]
fn jpeg_start_makes_a_context() {
    let dec = MppJpegDec::default();
    let reply = Reply { handle: 100, mpi: 101, api: full_api(), ..Reply::none() };
    let (log, out) = drive(dec.start(), &mut (), &[reply]);
    assert_eq!(log, vec![Call::Create]);
    let expected = DecoderState {
        geometry: Geometry { width: 0, height: 0, hor_stride: 0, ver_stride: 0 },
        buf_size: 0,
        input_group: NULL,
        buf_group: NULL,
        negotiated: false,
        ..decoder()
    };
    assert_eq!(out, Some(Ok(expected)));

    let (_, out) = drive(dec.start(), &mut (), &[ret(-1)]);
    assert_eq!(out, Some(Err(CreateError)));
}

#[test]
fn stop_releases_what_is_held() {
    let release = vec![
        Call::Reset(MPP),
        Call::BufferGroupPut(21),
        Call::BufferGroupPut(20),
        Call::Destroy(100),
    ];
    let mut dec = MppJpegDec::default();
    assert_eq!(dec.stop(), vec![]);
    assert_eq!(dec.install(decoder()), vec![]);
    assert_eq!(dec.install(decoder()), release);
    assert_eq!(dec.stop(), release);
    assert_eq!(dec.state, None);

    let api = MppApiStruct { reset: false, ..full_api() };
    dec.install(DecoderState { api, input_group: NULL, buf_group: NULL, ..decoder() });
    assert_eq!(dec.stop(), vec![Call::Destroy(100)]);
}

#[test]
fn format_of_a_picture() {
    let format = JpegFormat::new(Some(640), Some(360));
    assert_eq!(format, JpegFormat { geometry: SMALL, buf_size: 640 * 368 * 2 });
    let format = JpegFormat::new(None, None);
    assert_eq!(
        format,
        JpegFormat {
            geometry: Geometry { width: 1920, height: 1080, hor_stride: 1920, ver_stride: 1088 },
            buf_size: 1920 * 1088 * 2,
        }
    );
    assert!(JpegFormat::fits(Some(640), None));
    assert!(!JpegFormat::fits(Some(-1), Some(1)));
    assert!(!JpegFormat::fits(Some(1), Some(-16)));
}

#[test]
fn set_format_checks() {
    let size = PictureCaps::Size { width: Some(640), height: Some(360) };
    let mut dec = MppJpegDec::default();
    assert!(matches!(dec.set_format(PictureCaps::Missing), Err(SetFormatError::NotStarted)));
    assert!(matches!(dec.set_format(size), Err(SetFormatError::NotStarted)));
    dec.install(decoder());
    assert!(matches!(dec.set_format(PictureCaps::Missing), Err(SetFormatError::NoCaps)));
    assert!(matches!(dec.set_format(PictureCaps::Empty), Err(SetFormatError::NoStructure)));
    assert!(matches!(dec.set_format(size), Ok(JpegSetFormat::Begin { .. })));
}

fn set_format() -> JpegSetFormat {
    let mut dec = MppJpegDec::default();
    dec.install(decoder());
    dec.set_format(PictureCaps::Size { width: Some(1280), height: None }).ok().unwrap()
}

#[test]
fn set_format_makes_new_groups() {
    let mut state = decoder();
    let (log, out) = drive(set_format(), &mut state, &[ok(), handle(22), handle(23)]);
    assert_eq!(
        log,
        vec![
            Call::Init { mpp: MPP, ctx_type: MPP_CTX_DEC, coding: MPP_VIDEO_CodingMJPEG },
            Call::Control { mpp: MPP, cmd: MPP_DEC_SET_DISABLE_ERROR, param: Param::Null },
            Call::Control { mpp: MPP, cmd: MPP_SET_OUTPUT_TIMEOUT, param: Param::I64(200) },
            Call::BufferGroupPut(20),
            GROUP,
            Call::BufferGroupPut(21),
            GROUP,
        ]
    );
    assert_eq!(out, Some(Ok(())));
    let expected = DecoderState {
        geometry: Geometry { width: 1280, height: 1080, hor_stride: 1280, ver_stride: 1088 },
        buf_size: 1280 * 1088 * 2,
        input_group: 22,
        buf_group: 23,
        negotiated: false,
        ..decoder()
    };
    assert_eq!(state, expected);
}

#[test]
fn set_format_errors_keep_the_format() {
    let mut state = decoder();
    let (log, out) = drive(set_format(), &mut state, &[ret(-1)]);
    assert_eq!((log.len(), out), (1, Some(Err(SetFormatError::Init))));
    assert_eq!(state, decoder());

    let mut state = decoder();
    let (_, out) = drive(set_format(), &mut state, &[ok(), ret(-1)]);
    assert_eq!(out, Some(Err(SetFormatError::InputGroup)));
    assert_eq!(state, DecoderState { input_group: NULL, ..decoder() });

    let mut state = decoder();
    let (_, out) = drive(set_format(), &mut state, &[ok(), handle(22), ret(-1)]);
    assert_eq!(out, Some(Err(SetFormatError::OutputGroup)));
    assert_eq!(state, DecoderState { input_group: 22, buf_group: NULL, ..decoder() });
}

#[test]
fn handle_frame_checks() {
    let mut dec = MppJpegDec::default();
    assert!(matches!(dec.handle_frame(None), Entry::Answer(Flow::Error)));
    assert!(matches!(dec.handle_frame(Some(9)), Entry::Answer(Flow::NotNegotiated)));
    dec.install(DecoderState { buf_size: 0, ..decoder() });
    assert!(matches!(dec.handle_frame(Some(9)), Entry::Answer(Flow::NotNegotiated)));
    dec.install(decoder());
    assert!(matches!(dec.handle_frame(Some(9)), Entry::Run(JpegDecode::Begin { length: 9 })));
    assert!(matches!(dec.handle_frame(None), Entry::Answer(Flow::Error)));
}

/// The replies up to the point where the decoded frame is taken out of its task.
fn way_to_frame() -> Vec<Reply> {
    vec![
        handle(40),  // input buffer
        handle(80),  // packet
        ok(),        // poll input
        handle(50),  // task
        handle(41),  // output buffer
        handle(70),  // frame
        handle(60),  // frame meta
        ok(),        // enqueue input
        ok(),        // poll output
        handle(51),  // output task
    ]
}

fn decode(state: &mut DecoderState, more: &[Reply]) -> (Vec<Call>, Option<Decoded>) {
    let mut replies = way_to_frame();
    replies.extend(more);
    drive(JpegDecode::Begin { length: 999 }, state, &replies)
}

#[test]
fn decode_runs_the_task_through() {
    let mut state = decoder();
    let (log, out) = decode(&mut state, &[handle(71), handle(61), handle(80), info(picture())]);
    assert_eq!(
        log,
        vec![
            Call::BufferGet { group: 20, size: 999 },
            Call::CopyToBuffer { buffer: 40, length: 999 },
            Call::PacketInitWithBuffer(40),
            Call::PacketSetLength { packet: 80, length: 999 },
            Call::BufferPut(40),
            Call::Poll { mpp: MPP, port: Port::Input },
            Call::Dequeue { mpp: MPP, port: Port::Input },
            Call::TaskMetaSetPacket { task: 50, key: MetaKey::InputPacket, packet: 80 },
            Call::BufferGet { group: 21, size: 471_040 },
            Call::FrameInit,
            Call::FrameSetBuffer { frame: 70, buffer: 41 },
            Call::BufferPut(41),
            Call::FrameGetMeta(70),
            Call::MetaSetPacket { meta: 60, key: MetaKey::InputPacket, packet: 80 },
            Call::TaskMetaSetFrame { task: 50, key: MetaKey::OutputFrame, frame: 70 },
            Call::Enqueue { mpp: MPP, port: Port::Input, task: 50 },
            Call::Poll { mpp: MPP, port: Port::Output },
            Call::Dequeue { mpp: MPP, port: Port::Output },
            Call::TaskMetaGetFrame { task: 51, key: MetaKey::OutputFrame },
            Call::FrameGetMeta(71),
            Call::MetaGetPacket { meta: 61, key: MetaKey::InputPacket },
            Call::PacketDeinit(80),
            Call::Enqueue { mpp: MPP, port: Port::Output, task: 51 },
            Call::FrameInspect(71),
        ]
    );
    assert_eq!(out, Some(Decoded::Ready(PICTURE)));
    assert_eq!(state, decoder());
}

#[test]
fn decode_announces_a_new_size() {
    let script = NegotiateOutput::Begin { width: 640, height: 360 };
    let expected = Some(Decoded::NewSize(AnnouncePicture { script, picture: PICTURE }));
    let replies = [handle(71), handle(61), handle(80), info(picture())];

    let mut state = DecoderState { negotiated: false, ..decoder() };
    assert_eq!(decode(&mut state, &replies).1, expected);
    assert_eq!(state, decoder());

    let other = Geometry { width: 320, height: 360, hor_stride: 320, ver_stride: 368 };
    let mut state = DecoderState { geometry: other, ..decoder() };
    assert_eq!(decode(&mut state, &replies).1, expected);
    assert_eq!(state, decoder());

}

#[test]
fn decode_takes_new_strides_over() {
    // Strides alone do not make a size new, but the picture is read by them.
    let wide = FrameInfo { hor_stride: 704, ver_stride: 384, ..picture() };
    let layout = Geometry { hor_stride: 704, ver_stride: 384, ..SMALL };
    let mut state = decoder();
    let (_, out) = decode(&mut state, &[handle(71), handle(61), handle(80), info(wide)]);
    assert_eq!(out, Some(Decoded::Ready(PICTURE)));
    assert_eq!(state, DecoderState { geometry: layout, ..decoder() });

    let (log, _) = drive(JpegDeliver::Begin { picture: PICTURE }, &mut state, &[handle(30)]);
    assert_eq!(log[0], Call::CopyDecoded { buffer: 77, geometry: layout });
}

#[test]
fn decode_without_frame_or_packet() {
    let enqueue = Call::Enqueue { mpp: MPP, port: Port::Output, task: 51 };
    let (log, out) = decode(&mut decoder(), &[handle(NULL)]);
    assert_eq!(log.last(), Some(&enqueue));
    assert_eq!(out, Some(Decoded::Answer(Flow::Success)));

    let (log, _) = decode(&mut decoder(), &[handle(71), handle(NULL)]);
    assert_eq!(log[log.len() - 2..], [enqueue, Call::FrameInspect(71)]);

    let (log, _) = decode(&mut decoder(), &[handle(71), handle(61), handle(NULL)]);
    assert_eq!(log[log.len() - 2..], [enqueue, Call::FrameInspect(71)]);
    assert!(!log.iter().any(|c| matches!(c, Call::PacketDeinit(_))));
}

#[test]
fn decode_drops_bad_frames() {
    for bad in [FrameInfo { errinfo: 1, ..picture() }, FrameInfo { discard: 1, ..picture() }] {
        let (log, out) = decode(&mut decoder(), &[handle(71), handle(61), handle(80), info(bad)]);
        assert_eq!(log.last(), Some(&Call::FrameDeinit(71)));
        assert_eq!(out, Some(Decoded::Answer(Flow::Success)));
    }
}

#[test]
fn decode_errors_give_back() {
    let packet = Call::PacketDeinit(80);
    let cases: Vec<(usize, Reply, Vec<Call>)> = vec![
        (0, ret(-1), vec![Call::BufferGet { group: 20, size: 999 }]),
        (1, ret(-1), vec![Call::PacketInitWithBuffer(40), Call::BufferPut(40)]),
        (2, ret(-1), vec![Call::Poll { mpp: MPP, port: Port::Input }, packet]),
        (3, ret(-1), vec![Call::Dequeue { mpp: MPP, port: Port::Input }, packet]),
        (3, handle(NULL), vec![Call::Dequeue { mpp: MPP, port: Port::Input }, packet]),
        (4, ret(-1), vec![Call::BufferGet { group: 21, size: 471_040 }, packet]),
        (7, ret(-1), vec![Call::Enqueue { mpp: MPP, port: Port::Input, task: 50 }, Call::FrameDeinit(70), packet]),
        (8, ret(-1), vec![Call::Poll { mpp: MPP, port: Port::Output }, packet]),
        (9, ret(-1), vec![Call::Dequeue { mpp: MPP, port: Port::Output }, packet]),
        (9, handle(NULL), vec![Call::Dequeue { mpp: MPP, port: Port::Output }, packet]),
    ];
    for (at, reply, end) in cases {
        let mut replies = way_to_frame();
        replies.truncate(at);
        replies.push(reply);
        let mut state = decoder();
        let (log, out) = drive(JpegDecode::Begin { length: 999 }, &mut state, &replies);
        assert_eq!(out, Some(Decoded::Answer(Flow::Error)));
        assert_eq!(log[log.len() - end.len()..], end);
        assert_eq!(state, decoder());
    }
}

#[test]
fn decode_without_frame_meta() {
    let mut replies = way_to_frame();
    replies[6] = handle(NULL);
    let (log, _) = drive(JpegDecode::Begin { length: 999 }, &mut decoder(), &replies);
    assert!(!log.iter().any(|c| matches!(c, Call::MetaSetPacket { .. })));
    assert!(log.contains(&Call::TaskMetaSetFrame { task: 50, key: MetaKey::OutputFrame, frame: 70 }));
}

#[test]
fn decode_without_task_entries() {
    for api in [
        MppApiStruct { poll: false, ..full_api() },
        MppApiStruct { dequeue: false, ..full_api() },
        MppApiStruct { enqueue: false, ..full_api() },
    ] {
        let mut state = DecoderState { api, ..decoder() };
        let (log, out) = drive(JpegDecode::Begin { length: 999 }, &mut state, &way_to_frame());
        assert_eq!(log.last(), Some(&Call::BufferPut(40)));
        assert_eq!(out, Some(Decoded::Answer(Flow::Error)));
    }
}

#[test]
fn deliver_copies_by_the_known_size() {
    let mut dec = MppJpegDec::default();
    assert!(matches!(dec.deliver(PICTURE), Entry::Answer(Flow::Error)));
    dec.install(decoder());
    assert!(matches!(dec.deliver(PICTURE), Entry::Run(JpegDeliver::Begin { picture: PICTURE })));

    let deliver = |buffer| JpegDeliver::Begin { picture: Picture { frame: 71, buffer } };
    let (log, out) = drive(deliver(77), &mut decoder(), &[handle(30)]);
    assert_eq!(log, vec![Call::CopyDecoded { buffer: 77, geometry: SMALL }, Call::FrameDeinit(71)]);
    assert_eq!(out, Some(Entry::Run(FinishPicture::Begin { buffer: 30 })));

    let (_, out) = drive(deliver(77), &mut decoder(), &[handle(NULL)]);
    assert_eq!(out, Some(Entry::Answer(Flow::Success)));

    let (log, out) = drive(deliver(NULL), &mut decoder(), &[]);
    assert_eq!(log, vec![Call::FrameDeinit(71)]);
    assert_eq!(out, Some(Entry::Answer(Flow::Success)));
}

#[test]
fn picture_goes_through_in_order() {
    let replies = [handle(71), handle(61), handle(80), info(picture())];
    for negotiated in [true, false] {
        let mut state = DecoderState { negotiated, ..decoder() };
        let (_, out) = decode(&mut state, &replies);
        let picture = match out {
            Some(Decoded::Ready(picture)) => {
                assert!(negotiated);
                picture
            }
            Some(Decoded::NewSize(script)) => {
                assert!(!negotiated);
                let (log, picture) = drive(script, &mut (), &[ok()]);
                assert_eq!(log, vec![Call::SetPictureState { width: 640, height: 360 }, Call::Negotiate]);
                // A size that is refused keeps nothing from being copied.
                let (log, same) = drive(script, &mut (), &[ret(-1)]);
                assert_eq!(log.len(), 1);
                assert_eq!(same, picture);
                picture.unwrap()
            }
            _ => panic!("no picture"),
        };
        assert_eq!(picture, PICTURE);
        let (_, out) = drive(JpegDeliver::Begin { picture }, &mut state, &[handle(30)]);
        match out {
            Some(Entry::Run(script)) => {
                let (log, flow) = drive(script, &mut (), &[ret(-2)]);
                assert_eq!(log, vec![Call::SetFrameOutput(30), Call::FinishThisFrame]);
                assert_eq!(flow, Some(Flow::Downstream(-2)));
            }
            _ => panic!("nothing to hand on"),
        }
    }
}

#[test]
fn flush_resets_and_forgets_the_size() {
    let mut dec = MppJpegDec::default();
    assert_eq!(dec.flush(), vec![]);
    dec.install(decoder());
    assert_eq!(dec.flush(), vec![Call::Reset(MPP)]);
    assert_eq!(dec.state, Some(DecoderState { negotiated: false, ..decoder() }));
}
