use mppdarkgst::allocator::{AllocIndex, MppAllocator};
use mppdarkgst::call::{Call, Flow, Geometry, Param, Reply};
use mppdarkgst::enc::configure::{EncSetFormat, SetFormatError};
use mppdarkgst::enc::format::{codec_mime, EncFormat};
use mppdarkgst::enc::frames::{AfterFrame, EncFinish, EncHandleFrame, PollPending};
use mppdarkgst::enc::settings::{PropertyValue, Settings, DEFAULT_BPS, DEFAULT_GOP, MAX_BPS, MAX_GOP, MIN_BPS, MIN_GOP};
use mppdarkgst::enc::state::{EncTeardown, EncoderState, InputBufs, Slot, StartError};
use mppdarkgst::enc::MppH265Enc;
use mppdarkgst::mpp_ffi::{
    Mpp, MppApiStruct, MPP_CTX_ENC, MPP_ENC_GET_CFG, MPP_ENC_HEADER_MODE_EACH_IDR, MPP_ENC_RC_MODE_CBR,
    MPP_ENC_SEI_MODE_DISABLE, MPP_ENC_SET_CFG, MPP_ENC_SET_HEADER_MODE, MPP_ENC_SET_SEI_CFG, MPP_FMT_YUV420SP,
    MPP_SET_OUTPUT_TIMEOUT, MPP_VIDEO_CodingAVC, MPP_VIDEO_CodingHEVC, NULL,
};
use mppdarkgst::output::{Deliver, Entry};
use mppdarkgst::script::{Script, Step};

fn drive<S: Script>(script: S, state: &mut S::State, replies: &[Reply]) -> (Vec<Call>, Option<S::Out>) {
    let mut script = script;
    let mut log = vec![];
    let mut reply = Reply::none();
    let mut replies = replies.iter();
    loop {
        match script.step(state, reply) {
            Step::Calls(calls, next) => {
                log.extend(calls);
                script = next;
                match replies.next() {
                    Some(r) => reply = *r,
                    None => return (log, None),
                }
            }
            Step::Done(calls, out) => {
                log.extend(calls);
                return (log, Some(out));
            }
        }
    }
}

fn ok() -> Reply {
    Reply::none()
}

fn ret(ret: i32) -> Reply {
    Reply { ret, ..Reply::none() }
}

fn handle(handle: usize) -> Reply {
    Reply { handle, ..Reply::none() }
}

fn full_api() -> MppApiStruct {
    MppApiStruct {
        decode_put_packet: true,
        decode_get_frame: true,
        encode_put_frame: true,
        encode_get_packet: true,
        poll: true,
        dequeue: true,
        enqueue: true,
        reset: true,
        control: true,
    }
}

fn context(ctx: usize) -> Reply {
    Reply { handle: ctx, mpi: ctx + 1, api: full_api(), ..Reply::none() }
}

const MPP: Mpp = Mpp { ctx: 100, mpi: 101 };

fn encoder() -> EncoderState {
    EncoderState {
        mpp: MPP,
        api: full_api(),
        cfg: 50,
        allocator: MppAllocator { group: 10, ext_group: 11, index: 4, dmabuf_alloc: 12 },
        input_bufs: InputBufs { first: 60, second: 61 },
        slot: Slot::First,
        in_flight_frame: NULL,
        geometry: Geometry { width: 1920, height: 1080, hor_stride: 1920, ver_stride: 1088 },
        codec: MPP_VIDEO_CodingHEVC,
    }
}

fn timeout(mpp: Mpp, ms: i64) -> Call {
    Call::Control { mpp, cmd: MPP_SET_OUTPUT_TIMEOUT, param: Param::I64(ms) }
}

fn init(mpp: Mpp, coding: i32) -> Call {
    Call::Init { mpp, ctx_type: MPP_CTX_ENC, coding }
}

fn allocator_teardown() -> Vec<Call> {
    vec![Call::BufferGroupPut(11), Call::BufferGroupPut(10), Call::ObjectUnref(12)]
}

#[test]
fn start_prefers_hevc() {
    let enc = MppH265Enc::default();
    let mut counter = AllocIndex::new();
    let replies = [handle(10), handle(11), handle(12), context(100), ok(), handle(50)];
    let (log, out) = drive(enc.start(), &mut counter, &replies);
    assert_eq!(
        log[3..],
        [
            Call::Create,
            timeout(MPP, 100),
            init(MPP, MPP_VIDEO_CodingHEVC),
            Call::EncCfgInit,
            Call::Control { mpp: MPP, cmd: MPP_ENC_GET_CFG, param: Param::Handle(50) },
        ]
    );
    let expected = EncoderState {
        allocator: MppAllocator { group: 10, ext_group: 11, index: 0, dmabuf_alloc: 12 },
        input_bufs: InputBufs { first: NULL, second: NULL },
        geometry: Geometry { width: 0, height: 0, hor_stride: 0, ver_stride: 0 },
        ..encoder()
    };
    assert_eq!(out, Some(Ok(expected)));
}

#[test]
fn start_falls_back_to_avc() {
    let enc = MppH265Enc::default();
    let replies = [handle(10), handle(11), handle(12), context(100), ret(-1), context(200), ok(), handle(50)];
    let (log, out) = drive(enc.start(), &mut AllocIndex::new(), &replies);
    let second = Mpp { ctx: 200, mpi: 201 };
    assert_eq!(
        log[5..10],
        [
            init(MPP, MPP_VIDEO_CodingHEVC),
            Call::Destroy(100),
            Call::Create,
            timeout(second, 100),
            init(second, MPP_VIDEO_CodingAVC),
        ]
    );
    let state = out.unwrap().unwrap();
    assert_eq!(state.codec, MPP_VIDEO_CodingAVC);
    assert_eq!(state.mpp, second);
}

#[test]
fn start_errors_leave_nothing_behind() {
    let enc = MppH265Enc::default();
    let groups = [handle(10), handle(11), handle(12)];
    let run = |more: &[Reply]| {
        let mut replies = groups.to_vec();
        replies.extend(more);
        drive(enc.start(), &mut AllocIndex::new(), &replies)
    };

    let (_, out) = drive(enc.start(), &mut AllocIndex::new(), &[ret(-1)]);
    assert_eq!(out, Some(Err(StartError::Allocator)));

    let (log, out) = run(&[ret(-1)]);
    assert_eq!(out, Some(Err(StartError::Create)));
    assert_eq!(log[log.len() - 3..], allocator_teardown());

    let (log, out) = run(&[context(100), ret(-1), ret(-1)]);
    assert_eq!(out, Some(Err(StartError::CreateRetry)));
    assert_eq!(log[log.len() - 3..], allocator_teardown());

    let (log, out) = run(&[context(100), ret(-1), context(200), ret(-1)]);
    assert_eq!(out, Some(Err(StartError::Init)));
    assert_eq!(log[log.len() - 4], Call::Destroy(200));
    assert_eq!(log[log.len() - 3..], allocator_teardown());

    let (log, out) = run(&[context(100), ok(), ret(-1)]);
    assert_eq!(out, Some(Err(StartError::CfgInit)));
    assert_eq!(log[log.len() - 4], Call::Destroy(100));
    assert_eq!(log[log.len() - 3..], allocator_teardown());
}

#[test]
fn install_and_stop_hand_out_what_was_there() {
    let mut enc = MppH265Enc::default();
    assert!(enc.stop().is_none());
    assert!(enc.install(encoder()).is_none());
    assert!(matches!(enc.install(encoder()), Some(EncTeardown::Begin { .. })));
    assert_eq!(enc.state, Some(encoder()));
    assert!(matches!(enc.stop(), Some(EncTeardown::Begin { .. })));
    assert_eq!(enc.state, None);
}

#[test]
fn teardown_drains_and_releases() {
    let enc = EncoderState { in_flight_frame: 70, ..encoder() };
    let release = vec![
        Call::FrameDeinit(70),
        Call::BufferPut(60),
        Call::BufferPut(61),
        Call::EncCfgDeinit(50),
        Call::Destroy(100),
        Call::BufferGroupPut(11),
        Call::BufferGroupPut(10),
        Call::ObjectUnref(12),
    ];
    let (log, out) = drive(EncTeardown::begin(enc), &mut (), &[handle(80), handle(90), handle(NULL)]);
    let mut expected = vec![
        Call::FrameInit,
        Call::FrameSetEos { frame: 80, eos: 1 },
        Call::FrameSetBuffer { frame: 80, buffer: NULL },
        Call::EncodePutFrame { mpp: MPP, frame: 80 },
        Call::EncodeGetPacket(MPP),
        Call::PacketDeinit(90),
        Call::EncodeGetPacket(MPP),
        Call::FrameDeinit(80),
    ];
    expected.extend(release.clone());
    assert_eq!(log, expected);
    assert_eq!(out, Some(()));

    // Without a frame to mark the end with, the encoder is released at once.
    let enc = EncoderState { in_flight_frame: 70, ..encoder() };
    let (log, out) = drive(EncTeardown::begin(enc), &mut (), &[ret(-1)]);
    let mut expected = vec![Call::FrameInit];
    expected.extend(release);
    assert_eq!(log, expected);
    assert_eq!(out, Some(()));
}

#[test]
fn teardown_takes_at_most_ten_packets() {
    let replies = vec![handle(80); 12];
    let (log, out) = drive(EncTeardown::begin(encoder()), &mut (), &replies);
    assert_eq!(out, Some(()));
    let polls = log.iter().filter(|c| matches!(c, Call::EncodeGetPacket(_))).count();
    let packets = log.iter().filter(|c| matches!(c, Call::PacketDeinit(_))).count();
    assert_eq!((polls, packets), (10, 10));
}

#[test]
fn teardown_without_entries_and_buffers() {
    let api = MppApiStruct { encode_put_frame: false, encode_get_packet: false, ..full_api() };
    let enc = EncoderState { api, input_bufs: InputBufs { first: NULL, second: NULL }, ..encoder() };
    let (log, _) = drive(EncTeardown::begin(enc), &mut (), &[handle(80)]);
    assert_eq!(
        log,
        vec![
            Call::FrameInit,
            Call::FrameSetEos { frame: 80, eos: 1 },
            Call::FrameSetBuffer { frame: 80, buffer: NULL },
            Call::FrameDeinit(80),
            Call::EncCfgDeinit(50),
            Call::Destroy(100),
            Call::BufferGroupPut(11),
            Call::BufferGroupPut(10),
            Call::ObjectUnref(12),
        ]
    );
}

#[test]
fn default_settings() {
    let settings = Settings::default();
    assert_eq!(settings, Settings { bps: 4_000_000, gop: 60 });
    assert_eq!((DEFAULT_BPS, MIN_BPS, MAX_BPS), (4_000_000, 0, 100_000_000));
    assert_eq!((DEFAULT_GOP, MIN_GOP, MAX_GOP), (60, -1, 1000));
    assert_eq!(MppH265Enc::default(), MppH265Enc { settings, state: None });
}

#[test]
fn properties_read_back() {
    let mut settings = Settings::default();
    settings.set_property("bps", PropertyValue::UInt(123));
    assert_eq!(settings.property("bps"), PropertyValue::UInt(123));
    assert_eq!(settings.property("gop"), PropertyValue::Int(60));
    settings.set_property("gop", PropertyValue::Int(-1));
    assert_eq!(settings.property("gop"), PropertyValue::Int(-1));
    assert_eq!(settings.property("bps"), PropertyValue::UInt(123));
}

#[test]
fn format_of_full_hd() {
    let format = EncFormat::new(Settings::default(), 1920, 1080, 60, 1);
    assert_eq!(
        format,
        EncFormat {
            width: 1920,
            height: 1080,
            hor_stride: 1920,
            ver_stride: 1088,
            fps_n: 60,
            fps_d: 1,
            bps: 4_000_000,
            bps_max: 4_250_000,
            bps_min: 3_750_000,
            gop: 60,
            frame_size: 3_133_440,
        }
    );
}

#[test]
fn automatic_bitrate_and_group_size() {
    let auto = Settings { bps: 0, gop: -1 };
    let format = EncFormat::new(auto, 1920, 1080, 30, 1);
    assert_eq!(format.bps, 7_776_000);
    assert_eq!(format.gop, 30);
    let format = EncFormat::new(auto, 1280, 720, 30_000, 1001);
    assert_eq!(format.bps, 1280 * 720 / 8 * 29);
    assert_eq!(format.gop, 29);
    // A denominator of zero counts as one.
    assert_eq!(EncFormat::new(auto, 64, 64, 25, 0).gop, 25);
}

#[test]
fn unknown_frame_rate_counts_as_thirty() {
    let format = EncFormat::new(Settings { bps: 0, gop: -1 }, 64, 64, 0, 7);
    assert_eq!((format.fps_n, format.fps_d), (30, 1));
    assert_eq!(format.gop, 30);
    assert_eq!(format.bps, 64 * 64 / 8 * 30);
}

#[test]
fn formats_that_do_not_fit() {
    let auto = Settings { bps: 0, gop: -1 };
    assert!(EncFormat::fits(auto, 3840, 2160, 60, 1));
    assert!(!EncFormat::fits(auto, u32::MAX, 16, 60, 1));
    assert!(!EncFormat::fits(auto, 65_536, 65_536, 30, 1));
    assert!(!EncFormat::fits(auto, 3840, 2160, 10_000, 1));
    assert!(!EncFormat::fits(Settings { bps: 300_000_000, gop: 1 }, 64, 64, 30, 1));
    assert!(EncFormat::fits(Settings { bps: MAX_BPS, gop: 1 }, 64, 64, 30, 1));
}

#[test]
fn mime_types() {
    assert_eq!(codec_mime(MPP_VIDEO_CodingHEVC), "video/x-h265");
    assert_eq!(codec_mime(MPP_VIDEO_CodingAVC), "video/x-h264");
}

#[test]
fn configuration_keys() {
    let format = EncFormat::new(Settings::default(), 1920, 1080, 60, 1);
    let calls = format.config(50);
    let s32 = |key, value| Call::EncCfgSetS32 { cfg: 50, key, value };
    assert_eq!(
        calls,
        vec![
            s32("prep:width", 1920),
            s32("prep:height", 1080),
            s32("prep:hor_stride", 1920),
            s32("prep:ver_stride", 1088),
            s32("prep:format", MPP_FMT_YUV420SP),
            s32("rc:mode", MPP_ENC_RC_MODE_CBR),
            s32("rc:bps_target", 4_000_000),
            s32("rc:bps_max", 4_250_000),
            s32("rc:bps_min", 3_750_000),
            s32("rc:gop", 60),
            Call::EncCfgSetU32 { cfg: 50, key: "rc:max_reenc_times", value: 1 },
            s32("rc:fps_in_flex", 0),
            s32("rc:fps_in_num", 60),
            s32("rc:fps_in_denorm", 1),
            s32("rc:fps_out_flex", 0),
            s32("rc:fps_out_num", 60),
            s32("rc:fps_out_denorm", 1),
            s32("rc:qp_init", 26),
            s32("rc:qp_min", 10),
            s32("rc:qp_max", 51),
            s32("rc:qp_min_i", 10),
            s32("rc:qp_max_i", 51),
            s32("rc:qp_ip", 2),
        ]
    );
}

fn set_format() -> EncSetFormat {
    let mut enc = MppH265Enc::default();
    enc.install(encoder());
    enc.set_format(640, 360, 25, 1).ok().unwrap()
}

#[test]
fn set_format_replaces_buffers_and_configures() {
    let mut state = EncoderState { slot: Slot::Second, in_flight_frame: 70, ..encoder() };
    let replies = [handle(62), ret(5), handle(63), ret(6), ok(), ok(), ok()];
    let (log, out) = drive(set_format(), &mut state, &replies);
    assert_eq!(out, Some(Ok(())));
    let get = Call::BufferGet { group: 10, size: 640 * 368 * 3 / 2 };
    assert_eq!(
        log[..8],
        [
            Call::BufferPut(60),
            get,
            Call::BufferSetIndex { buffer: 62, index: 4 },
            Call::BufferGetFd(62),
            Call::BufferPut(61),
            get,
            Call::BufferSetIndex { buffer: 63, index: 4 },
            Call::BufferGetFd(63),
        ]
    );
    let format = EncFormat::new(Settings::default(), 640, 360, 25, 1);
    assert_eq!(log[8..31], format.config(50));
    let control = |cmd, param| Call::Control { mpp: MPP, cmd, param };
    assert_eq!(
        log[31..],
        [
            control(MPP_ENC_SET_SEI_CFG, Param::I32(MPP_ENC_SEI_MODE_DISABLE)),
            control(MPP_ENC_SET_HEADER_MODE, Param::I32(MPP_ENC_HEADER_MODE_EACH_IDR)),
            control(MPP_ENC_SET_CFG, Param::Handle(50)),
            Call::SetOutputState { mime: "video/x-h265", width: 640, height: 360 },
            Call::Negotiate,
        ]
    );
    let expected = EncoderState {
        input_bufs: InputBufs { first: 62, second: 63 },
        in_flight_frame: 70,
        geometry: Geometry { width: 640, height: 360, hor_stride: 640, ver_stride: 368 },
        ..encoder()
    };
    assert_eq!(state, expected);
}

#[test]
fn set_format_without_commands() {
    let api = MppApiStruct { control: false, ..full_api() };
    let mut state = EncoderState { api, codec: MPP_VIDEO_CodingAVC, ..encoder() };
    let replies = [handle(62), ret(5), handle(63), ret(6), ok(), ok()];
    let (log, out) = drive(set_format(), &mut state, &replies);
    assert_eq!(out, Some(Ok(())));
    assert_eq!(
        log[31..],
        [Call::SetOutputState { mime: "video/x-h264", width: 640, height: 360 }, Call::Negotiate]
    );
}

#[test]
fn set_format_errors() {
    let enc = MppH265Enc::default();
    assert!(matches!(enc.set_format(640, 360, 25, 1), Err(SetFormatError::NotStarted)));

    let cases = [
        (vec![ret(-1)], SetFormatError::InputBuffer(Slot::First)),
        (vec![handle(62), ret(5), ret(-1)], SetFormatError::InputBuffer(Slot::Second)),
        (vec![handle(62), ret(5), handle(63), ret(6), ret(-9)], SetFormatError::SetCfg(-9)),
        (vec![handle(62), ret(5), handle(63), ret(6), ok(), ret(-1)], SetFormatError::SetOutputState),
        (vec![handle(62), ret(5), handle(63), ret(6), ok(), ok(), ret(-1)], SetFormatError::Negotiate),
    ];
    for (replies, error) in cases {
        let (_, out) = drive(set_format(), &mut encoder(), &replies);
        assert_eq!(out, Some(Err(error)));
    }

    // A buffer that could not be replaced is gone; the other one stays.
    let mut state = encoder();
    drive(set_format(), &mut state, &[ret(-1)]);
    assert_eq!(state.input_bufs, InputBufs { first: NULL, second: 61 });
}

fn packet(buffer: usize, size: usize) -> Reply {
    Reply { handle: buffer, size, ..Reply::none() }
}

#[test]
fn poll_copies_the_packet() {
    let mut state = EncoderState { in_flight_frame: 70, ..encoder() };
    let replies = [handle(NULL), handle(90), packet(91, 500), handle(30)];
    let (log, out) = drive(PollPending::Begin, &mut state, &replies);
    assert_eq!(
        log,
        vec![
            Call::EncodeGetPacket(MPP),
            Call::EncodeGetPacket(MPP),
            Call::FrameDeinit(70),
            Call::PacketInspect(90),
            Call::CopyPacket { buffer: 91, length: 500 },
            Call::PacketDeinit(90),
        ]
    );
    assert_eq!(out, Some(Ok(30)));
    assert_eq!(state, encoder());
}

#[test]
fn poll_of_an_empty_packet() {
    for reply in [packet(NULL, 500), packet(91, 0)] {
        let mut state = EncoderState { in_flight_frame: 70, ..encoder() };
        let (log, out) = drive(PollPending::Begin, &mut state, &[handle(90), reply, handle(30)]);
        assert_eq!(log[3], Call::NewEmptyBuffer);
        assert_eq!(out, Some(Ok(30)));
    }
}

#[test]
fn poll_gives_up_after_five_attempts() {
    let mut state = EncoderState { in_flight_frame: 70, ..encoder() };
    let (log, out) = drive(PollPending::Begin, &mut state, &[handle(NULL); 5]);
    let mut expected = vec![Call::EncodeGetPacket(MPP); 5];
    expected.push(Call::FrameDeinit(70));
    assert_eq!(log, expected);
    assert_eq!(out, Some(Err(Flow::Error)));
    assert_eq!(state.in_flight_frame, NULL);
}

#[test]
fn poll_without_entry_leaves_the_frame() {
    let api = MppApiStruct { encode_get_packet: false, ..full_api() };
    let mut state = EncoderState { api, in_flight_frame: 70, ..encoder() };
    let (log, out) = drive(PollPending::Begin, &mut state, &[]);
    assert_eq!(log, vec![]);
    assert_eq!(out, Some(Err(Flow::Error)));
    assert_eq!(state.in_flight_frame, 70);
}

fn handle_frame(pts: Option<u64>) -> EncHandleFrame {
    let mut enc = MppH265Enc::default();
    enc.install(encoder());
    match enc.handle_frame(pts) {
        Entry::Run(script) => script,
        Entry::Answer(_) => panic!("not started"),
    }
}

#[test]
fn first_frame_is_submitted() {
    let mut state = encoder();
    let replies = [handle(40), ok(), handle(71), ok()];
    let (log, out) = drive(handle_frame(Some(1_000)), &mut state, &replies);
    assert_eq!(
        log,
        vec![
            Call::InputBuffer,
            Call::CopyInput { input: 40, target: 60, geometry: encoder().geometry },
            Call::FrameInit,
            Call::FrameSetWidth { frame: 71, width: 1920 },
            Call::FrameSetHeight { frame: 71, height: 1080 },
            Call::FrameSetHorStride { frame: 71, stride: 1920 },
            Call::FrameSetVerStride { frame: 71, stride: 1088 },
            Call::FrameSetFmt { frame: 71, fmt: MPP_FMT_YUV420SP },
            Call::FrameSetBuffer { frame: 71, buffer: 60 },
            Call::FrameSetEos { frame: 71, eos: 0 },
            Call::FrameSetPts { frame: 71, pts: 1_000 },
            Call::EncodePutFrame { mpp: MPP, frame: 71 },
        ]
    );
    assert!(matches!(out, Some(AfterFrame::Answer(Flow::Success))));
    assert_eq!(state, EncoderState { in_flight_frame: 71, slot: Slot::Second, ..encoder() });
}

#[test]
fn next_frame_fetches_the_one_before_and_uses_the_other_buffer() {
    let mut state = EncoderState { in_flight_frame: 71, slot: Slot::Second, ..encoder() };
    let replies = [handle(90), packet(91, 500), handle(30), handle(41), ok(), handle(72), ok()];
    let (log, out) = drive(handle_frame(None), &mut state, &replies);
    assert_eq!(
        log[..7],
        [
            Call::EncodeGetPacket(MPP),
            Call::FrameDeinit(71),
            Call::PacketInspect(90),
            Call::CopyPacket { buffer: 91, length: 500 },
            Call::PacketDeinit(90),
            Call::InputBuffer,
            Call::CopyInput { input: 41, target: 61, geometry: encoder().geometry },
        ]
    );
    assert!(log.contains(&Call::FrameSetBuffer { frame: 72, buffer: 61 }));
    assert!(!log.iter().any(|c| matches!(c, Call::FrameSetPts { .. })));
    assert_eq!(state, EncoderState { in_flight_frame: 72, slot: Slot::First, ..encoder() });
    match out {
        Some(AfterFrame::Deliver(deliver)) => {
            let (log, flow) = drive(deliver, &mut (), &[handle(NULL)]);
            assert_eq!(log, vec![Call::OldestFrame, Call::DropBuffer(30)]);
            assert_eq!(flow, Some(Flow::Error));
        }
        _ => panic!("nothing to deliver"),
    }
}

#[test]
fn frames_go_through_in_turn() {
    let mut state = encoder();
    let mut finished = vec![];
    for k in 0..5usize {
        let mut replies = vec![];
        if k > 0 {
            replies.extend([handle(NULL), handle(90 + k), packet(200 + k, 500 + k), handle(30 + k)]);
        }
        replies.extend([handle(40 + k), ok(), handle(70 + k), ok()]);
        let (log, out) = drive(handle_frame(None), &mut state, &replies);
        assert!(log.contains(&Call::CopyInput { input: 40 + k, target: 60 + k % 2, geometry: encoder().geometry }));
        assert!(log.contains(&Call::FrameSetBuffer { frame: 70 + k, buffer: 60 + k % 2 }));
        assert_eq!(log.last(), Some(&Call::EncodePutFrame { mpp: MPP, frame: 70 + k }));
        assert_eq!(state.in_flight_frame, 70 + k);
        match out {
            Some(AfterFrame::Answer(Flow::Success)) => assert_eq!(k, 0),
            Some(AfterFrame::Deliver(deliver)) => {
                assert_eq!(
                    log[..6],
                    [
                        Call::EncodeGetPacket(MPP),
                        Call::EncodeGetPacket(MPP),
                        Call::FrameDeinit(70 + k - 1),
                        Call::PacketInspect(90 + k),
                        Call::CopyPacket { buffer: 200 + k, length: 500 + k },
                        Call::PacketDeinit(90 + k),
                    ]
                );
                let (log, flow) = drive(deliver, &mut (), &[handle(300 + k), ret(k as i32)]);
                assert_eq!(log[1], Call::SetOutputBuffer { frame: 300 + k, buffer: 30 + k });
                assert_eq!(flow, Some(Flow::Downstream(k as i32)));
                finished.extend(log.into_iter().filter(|call| matches!(call, Call::FinishFrame(_))));
            }
            _ => panic!("frame {k} did not go through"),
        }
    }
    assert_eq!(finished, (301..305).map(Call::FinishFrame).collect::<Vec<_>>());
    assert_eq!(state, EncoderState { in_flight_frame: 74, slot: Slot::Second, ..encoder() });
}

#[test]
fn handle_frame_errors_lose_nothing() {
    let before = [handle(90), packet(91, 500), handle(30)];
    let cases = [
        (vec![handle(NULL)], vec![Call::DropBuffer(30)]),
        (vec![handle(41), ret(-1)], vec![Call::DropBuffer(30)]),
        (vec![handle(41), ok(), ret(-1)], vec![Call::DropBuffer(30)]),
        (
            vec![handle(41), ok(), handle(72), ret(-1)],
            vec![Call::FrameDeinit(72), Call::DropBuffer(30)],
        ),
    ];
    for (more, end) in cases {
        let mut state = EncoderState { in_flight_frame: 71, ..encoder() };
        let mut replies = before.to_vec();
        replies.extend(more);
        let (log, out) = drive(handle_frame(None), &mut state, &replies);
        assert!(matches!(out, Some(AfterFrame::Answer(Flow::Error))));
        assert_eq!(log[log.len() - end.len()..], end);
        assert_eq!(state, encoder());
    }

    let api = MppApiStruct { encode_put_frame: false, ..full_api() };
    let mut state = EncoderState { api, ..encoder() };
    let (log, out) = drive(handle_frame(None), &mut state, &[handle(41), ok(), handle(72)]);
    assert!(matches!(out, Some(AfterFrame::Answer(Flow::Error))));
    assert_eq!(log.last(), Some(&Call::FrameDeinit(72)));
    assert_eq!(state.in_flight_frame, NULL);
}

#[test]
fn handle_frame_of_a_stopped_encoder() {
    let enc = MppH265Enc::default();
    assert!(matches!(enc.handle_frame(None), Entry::Answer(Flow::NotNegotiated)));
}

#[test]
fn handle_frame_ends_within_bounds() {
    let mut state = EncoderState { in_flight_frame: 71, ..encoder() };
    let mut replies = vec![handle(NULL); 4];
    replies.extend([handle(90), packet(91, 5), handle(30), handle(41), ok(), handle(72), ok()]);
    assert_eq!(replies.len(), 11);
    let (_, out) = drive(handle_frame(None), &mut state, &replies);
    assert!(out.is_some());
}

#[test]
fn finish_delivers_the_last_packet() {
    let mut enc = MppH265Enc::default();
    assert!(matches!(enc.finish(), Entry::Answer(Flow::Success)));
    enc.install(encoder());
    assert!(matches!(enc.finish(), Entry::Run(EncFinish::Begin)));

    let (log, out) = drive(EncFinish::Begin, &mut encoder(), &[]);
    assert_eq!(log, vec![]);
    assert!(matches!(out, Some(AfterFrame::Answer(Flow::Success))));

    let mut state = EncoderState { in_flight_frame: 71, ..encoder() };
    let (_, out) = drive(EncFinish::Begin, &mut state, &[handle(90), packet(91, 5), handle(30)]);
    assert_eq!(state, encoder());
    match out {
        Some(AfterFrame::Deliver(deliver)) => {
            // Nobody waits for the last frame: that is no error.
            let (log, flow) = drive(deliver, &mut (), &[handle(NULL)]);
            assert_eq!(log, vec![Call::OldestFrame, Call::DropBuffer(30)]);
            assert_eq!(flow, Some(Flow::Success));
        }
        _ => panic!("nothing to deliver"),
    }

    let mut state = EncoderState { in_flight_frame: 71, ..encoder() };
    let (_, out) = drive(EncFinish::Begin, &mut state, &[handle(NULL); 5]);
    assert!(matches!(out, Some(AfterFrame::Answer(Flow::Error))));
    assert_eq!(state, encoder());
}

#[test]
fn delivery_finishes_the_oldest_frame() {
    let deliver = Deliver::begin(30, Flow::Error);
    let (log, flow) = drive(deliver, &mut (), &[handle(33), ret(-2)]);
    assert_eq!(
        log,
        vec![Call::OldestFrame, Call::SetOutputBuffer { frame: 33, buffer: 30 }, Call::FinishFrame(33)]
    );
    assert_eq!(flow, Some(Flow::Downstream(-2)));
}

#[test]
fn flush_releases_the_frame_in_flight() {
    let mut enc = MppH265Enc::default();
    assert_eq!(enc.flush(), vec![]);
    enc.install(EncoderState { in_flight_frame: 70, ..encoder() });
    assert_eq!(enc.flush(), vec![Call::FrameDeinit(70), Call::Reset(MPP)]);
    assert_eq!(enc.state, Some(encoder()));
    assert_eq!(enc.flush(), vec![Call::Reset(MPP)]);

    let api = MppApiStruct { reset: false, ..full_api() };
    enc.install(EncoderState { api, ..encoder() });
    assert_eq!(enc.flush(), vec![]);
}
