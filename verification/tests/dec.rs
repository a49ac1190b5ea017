use mppdarkgst::call::{Call, Flow, FrameResult, Geometry, PacketData, Param, Reply};
use mppdarkgst::dec::frames::{Drain, PollDecoded, SendEos, SubmitPacket, TryGetFrame};
use mppdarkgst::dec::state::{codec_of, CreateError, DecSetFormat, DecTeardown, DecoderState, SetFormatError, StreamCaps};
use mppdarkgst::dec::MppVideoDec;
use mppdarkgst::enc::format::codec_mime;
use mppdarkgst::mpp_ffi::{
    FrameInfo, Mpp, MppApiStruct, MPP_CTX_DEC, MPP_DEC_SET_DISABLE_ERROR, MPP_DEC_SET_INFO_CHANGE_READY,
    MPP_DEC_SET_PARSER_FAST_MODE, MPP_DEC_SET_PARSER_SPLIT_MODE, MPP_SET_OUTPUT_TIMEOUT, MPP_VIDEO_CodingAVC,
    MPP_VIDEO_CodingHEVC, MPP_VIDEO_CodingUnused, NULL,
};
use mppdarkgst::output::Entry;
use mppdarkgst::script::{Script, Step};

fn drive<S: Script>(script: S, state: &mut S::State, replies: &[Reply]) -> (Vec<Call>, Option<S::Out>) {
    let mut script = script;
    let mut log = vec![];
    let mut reply = Reply::none();
    let mut replies = replies.iter();
    loop {
        match script.step(state, reply) {
            Step::Calls(calls, next) => {
                log.extend(calls);
                script = next;
                match replies.next() {
                    Some(r) => reply = *r,
                    None => return (log, None),
                }
            }
            Step::Done(calls, out) => {
                log.extend(calls);
                return (log, Some(out));
            }
        }
    }
}

fn ok() -> Reply {
    Reply::none()
}

fn ret(ret: i32) -> Reply {
    Reply { ret, ..Reply::none() }
}

fn handle(handle: usize) -> Reply {
    Reply { handle, ..Reply::none() }
}

fn info(info: FrameInfo) -> Reply {
    Reply { info, ..Reply::none() }
}

fn frame(frame: FrameResult) -> Reply {
    Reply { frame, ..Reply::none() }
}

fn clock(clock: u64) -> Reply {
    Reply { clock, ..Reply::none() }
}

fn full_api() -> MppApiStruct {
    MppApiStruct {
        decode_put_packet: true,
        decode_get_frame: true,
        encode_put_frame: true,
        encode_get_packet: true,
        poll: true,
        dequeue: true,
        enqueue: true,
        reset: true,
        control: true,
    }
}

const MPP: Mpp = Mpp { ctx: 100, mpi: 101 };
const HD: Geometry = Geometry { width: 1920, height: 1080, hor_stride: 1920, ver_stride: 1088 };

fn decoder() -> DecoderState {
    DecoderState { mpp: MPP, api: full_api(), codec: MPP_VIDEO_CodingHEVC, negotiated: true, geometry: HD }
}

fn picture() -> FrameInfo {
    FrameInfo {
        eos: 0,
        info_change: 0,
        errinfo: 0,
        discard: 0,
        width: 640,
        height: 360,
        hor_stride: 640,
        ver_stride: 368,
        buffer: 77,
    }
}

const SMALL: Geometry = Geometry { width: 640, height: 360, hor_stride: 640, ver_stride: 368 };

#[test]
fn decoder_start_makes_a_context() {
    let dec = MppVideoDec::default();
    let reply = Reply { handle: 100, mpi: 101, api: full_api(), ..Reply::none() };
    let (log, out) = drive(dec.start(), &mut (), &[reply]);
    assert_eq!(log, vec![Call::Create]);
    let expected = DecoderState {
        codec: MPP_VIDEO_CodingUnused,
        negotiated: false,
        geometry: Geometry { width: 0, height: 0, hor_stride: 0, ver_stride: 0 },
        ..decoder()
    };
    assert_eq!(out, Some(Ok(expected)));

    let (_, out) = drive(dec.start(), &mut (), &[ret(-1)]);
    assert_eq!(out, Some(Err(CreateError)));
}

#[test]
fn install_and_stop() {
    let mut dec = MppVideoDec::default();
    assert!(dec.stop().is_none());
    assert!(dec.install(decoder()).is_none());
    assert!(matches!(dec.install(decoder()), Some(DecTeardown::Begin { .. })));
    assert!(matches!(dec.stop(), Some(DecTeardown::Begin { .. })));
    assert_eq!(dec.state, None);
}

#[test]
fn codecs_of_streams() {
    assert_eq!(codec_of(StreamCaps::Named("video/x-h264")), Ok(MPP_VIDEO_CodingAVC));
    assert_eq!(codec_of(StreamCaps::Named("video/x-h265")), Ok(MPP_VIDEO_CodingHEVC));
    assert_eq!(codec_of(StreamCaps::Named("video/x-vp8")), Err(SetFormatError::UnsupportedCodec));
    assert_eq!(codec_of(StreamCaps::Named("")), Err(SetFormatError::UnsupportedCodec));
    assert_eq!(codec_of(StreamCaps::Missing), Err(SetFormatError::NoCaps));
    assert_eq!(codec_of(StreamCaps::Empty), Err(SetFormatError::NoStructure));
}

#[test]
fn decoder_takes_what_the_encoder_announces() {
    for codec in [MPP_VIDEO_CodingHEVC, MPP_VIDEO_CodingAVC] {
        assert_eq!(codec_of(StreamCaps::Named(codec_mime(codec))), Ok(codec));
    }
}

#[test]
fn set_format_checks_the_stream_first() {
    let mut dec = MppVideoDec::default();
    assert!(matches!(dec.set_format(StreamCaps::Missing), Err(SetFormatError::NoCaps)));
    assert!(matches!(dec.set_format(StreamCaps::Empty), Err(SetFormatError::NoStructure)));
    assert!(matches!(dec.set_format(StreamCaps::Named("x")), Err(SetFormatError::UnsupportedCodec)));
    assert!(matches!(dec.set_format(StreamCaps::Named("video/x-h264")), Err(SetFormatError::NotStarted)));
    dec.install(decoder());
    assert!(matches!(
        dec.set_format(StreamCaps::Named("video/x-h264")),
        Ok(DecSetFormat::Begin { codec: MPP_VIDEO_CodingAVC })
    ));
}

#[test]
fn set_format_sets_modes_before_init() {
    let mut state = decoder();
    let (log, out) = drive(DecSetFormat::Begin { codec: MPP_VIDEO_CodingAVC }, &mut state, &[ok()]);
    let control = |cmd, param| Call::Control { mpp: MPP, cmd, param };
    assert_eq!(
        log,
        vec![
            control(MPP_DEC_SET_PARSER_SPLIT_MODE, Param::I32(1)),
            control(MPP_DEC_SET_PARSER_FAST_MODE, Param::I32(1)),
            Call::Init { mpp: MPP, ctx_type: MPP_CTX_DEC, coding: MPP_VIDEO_CodingAVC },
            control(MPP_DEC_SET_DISABLE_ERROR, Param::Null),
            control(MPP_SET_OUTPUT_TIMEOUT, Param::I64(200)),
        ]
    );
    assert_eq!(out, Some(Ok(())));
    assert_eq!(state, DecoderState { codec: MPP_VIDEO_CodingAVC, negotiated: false, ..decoder() });
}

#[test]
fn set_format_that_fails_changes_nothing() {
    let mut state = decoder();
    let (log, out) = drive(DecSetFormat::Begin { codec: MPP_VIDEO_CodingAVC }, &mut state, &[ret(-1)]);
    assert_eq!(log.len(), 3);
    assert_eq!(out, Some(Err(SetFormatError::Init)));
    assert_eq!(state, decoder());

    let api = MppApiStruct { control: false, ..full_api() };
    let mut state = DecoderState { api, ..decoder() };
    let (log, _) = drive(DecSetFormat::Begin { codec: MPP_VIDEO_CodingAVC }, &mut state, &[ok()]);
    assert_eq!(log, vec![Call::Init { mpp: MPP, ctx_type: MPP_CTX_DEC, coding: MPP_VIDEO_CodingAVC }]);
}

fn submit(pts: Option<u64>) -> SubmitPacket {
    let mut dec = MppVideoDec::default();
    dec.install(decoder());
    match dec.handle_frame(pts) {
        Entry::Run(script) => script,
        Entry::Answer(_) => panic!("not started"),
    }
}

#[test]
fn submit_offers_the_input() {
    let put = Call::DecodePutPacket { mpp: MPP, packet: 80 };
    let (log, out) = drive(submit(Some(9)), &mut decoder(), &[ok(), handle(80), ok()]);
    assert_eq!(
        log,
        vec![
            Call::MapInput,
            Call::PacketInit(PacketData::Input),
            Call::PacketSetPts { packet: 80, pts: 9 },
            put,
            Call::PacketDeinit(80),
        ]
    );
    assert_eq!(out, Some(Entry::Run(PollDecoded::Begin)));

    let (log, out) = drive(submit(None), &mut decoder(), &[ok(), handle(80), ret(-1), ok()]);
    assert_eq!(
        log[2..],
        [put, Call::SleepMillis(2), put, Call::PacketDeinit(80)]
    );
    assert_eq!(out, Some(Entry::Run(PollDecoded::Begin)));
}

#[test]
fn submit_errors() {
    let (log, out) = drive(submit(None), &mut decoder(), &[ret(-1)]);
    assert_eq!(log, vec![Call::MapInput]);
    assert_eq!(out, Some(Entry::Answer(Flow::Error)));

    let (_, out) = drive(submit(None), &mut decoder(), &[ok(), ret(-1)]);
    assert_eq!(out, Some(Entry::Answer(Flow::Error)));

    let api = MppApiStruct { decode_put_packet: false, ..full_api() };
    let mut state = DecoderState { api, ..decoder() };
    let (_, out) = drive(submit(None), &mut state, &[ok(), handle(80)]);
    assert_eq!(out, Some(Entry::Answer(Flow::Error)));

    assert!(matches!(MppVideoDec::default().handle_frame(None), Entry::Answer(Flow::NotNegotiated)));
}

#[test]
fn submit_gives_up_after_a_thousand_retries() {
    let mut replies = vec![ok(), handle(80)];
    replies.extend(vec![ret(-1); 1001]);
    let (log, out) = drive(submit(None), &mut decoder(), &replies);
    assert_eq!(out, Some(Entry::Answer(Flow::Error)));
    let puts = log.iter().filter(|c| matches!(c, Call::DecodePutPacket { .. })).count();
    assert_eq!(puts, 1001);
    assert_eq!(log.last(), Some(&Call::PacketDeinit(80)));

    // One refusal less, and the packet goes through.
    let mut replies = vec![ok(), handle(80)];
    replies.extend(vec![ret(-1); 1000]);
    replies.push(ok());
    let (_, out) = drive(submit(None), &mut decoder(), &replies);
    assert_eq!(out, Some(Entry::Run(PollDecoded::Begin)));
}

#[test]
fn fetch_copies_a_picture() {
    let mut state = decoder();
    let (log, out) = drive(TryGetFrame::Begin, &mut state, &[handle(70), info(picture()), handle(30)]);
    assert_eq!(
        log,
        vec![
            Call::DecodeGetFrame(MPP),
            Call::FrameInspect(70),
            Call::CopyDecoded { buffer: 77, geometry: HD },
            Call::FrameDeinit(70),
        ]
    );
    assert_eq!(out, Some(FrameResult::Frame(30)));
    assert_eq!(state, decoder());

    let (_, out) = drive(TryGetFrame::Begin, &mut state, &[handle(70), info(picture()), handle(NULL)]);
    assert_eq!(out, Some(FrameResult::Skip));
}

#[test]
fn fetch_announces_the_size_first() {
    let mut state = DecoderState { negotiated: false, ..decoder() };
    let (log, out) = drive(TryGetFrame::Begin, &mut state, &[handle(70), info(picture()), handle(30)]);
    assert_eq!(
        log[2..4],
        [
            Call::NegotiateOutput { width: 640, height: 360 },
            Call::CopyDecoded { buffer: 77, geometry: SMALL },
        ]
    );
    assert_eq!(out, Some(FrameResult::Frame(30)));
    assert_eq!(state, DecoderState { geometry: SMALL, ..decoder() });
}

#[test]
fn fetch_takes_a_change_of_size_over() {
    let mut state = DecoderState { negotiated: false, ..decoder() };
    let changed = FrameInfo { info_change: 1, ..picture() };
    let (log, out) = drive(TryGetFrame::Begin, &mut state, &[handle(70), info(changed)]);
    assert_eq!(
        log[2..],
        [
            Call::Control { mpp: MPP, cmd: MPP_DEC_SET_INFO_CHANGE_READY, param: Param::Null },
            Call::FrameDeinit(70),
            Call::NegotiateOutput { width: 640, height: 360 },
        ]
    );
    assert_eq!(out, Some(FrameResult::Skip));
    assert_eq!(state, DecoderState { geometry: SMALL, ..decoder() });
}

#[test]
fn fetch_results() {
    let run = |replies: &[Reply]| drive(TryGetFrame::Begin, &mut decoder(), replies);
    let deinit = Some(&Call::FrameDeinit(70));

    let (log, out) = run(&[ret(-1)]);
    assert_eq!((log.len(), out), (1, Some(FrameResult::TryAgain)));
    let (log, out) = run(&[handle(NULL)]);
    assert_eq!((log.len(), out), (1, Some(FrameResult::TryAgain)));

    // The end of the stream comes before anything else.
    let end = FrameInfo { eos: 1, info_change: 1, errinfo: 1, ..picture() };
    let (log, out) = run(&[handle(70), info(end)]);
    assert_eq!((log.last(), out), (deinit, Some(FrameResult::Eos)));

    for bad in [
        FrameInfo { errinfo: 1, ..picture() },
        FrameInfo { discard: 1, ..picture() },
        FrameInfo { buffer: NULL, ..picture() },
    ] {
        let (log, out) = run(&[handle(70), info(bad)]);
        assert_eq!((log.len(), log.last(), out), (3, deinit, Some(FrameResult::Skip)));
    }
}

#[test]
fn fetch_of_a_stopped_decoder_is_the_end() {
    let mut dec = MppVideoDec::default();
    assert!(matches!(dec.try_get_one_frame(), Err(FrameResult::Eos)));
    let api = MppApiStruct { decode_get_frame: false, ..full_api() };
    dec.install(DecoderState { api, ..decoder() });
    assert!(matches!(dec.try_get_one_frame(), Err(FrameResult::Eos)));
    dec.install(decoder());
    assert!(matches!(dec.try_get_one_frame(), Ok(TryGetFrame::Begin)));
}

#[test]
fn polling_hands_all_frames_on() {
    let replies = [
        frame(FrameResult::Frame(30)),
        frame(FrameResult::Skip),
        frame(FrameResult::Frame(31)),
        frame(FrameResult::TryAgain),
    ];
    let (log, out) = drive(PollDecoded::Begin, &mut (), &replies);
    assert_eq!(
        log,
        vec![
            Call::TryGetOneFrame,
            Call::FinishOneFrame(30),
            Call::TryGetOneFrame,
            Call::TryGetOneFrame,
            Call::FinishOneFrame(31),
            Call::TryGetOneFrame,
        ]
    );
    assert_eq!(out, Some(Flow::Success));

    let (_, out) = drive(PollDecoded::Begin, &mut (), &[frame(FrameResult::Eos)]);
    assert_eq!(out, Some(Flow::Success));
}

#[test]
fn frames_follow_an_accepted_packet() {
    let (_, out) = drive(submit(None), &mut decoder(), &[ok(), handle(80), ok()]);
    match out {
        Some(Entry::Run(script)) => {
            let replies = [frame(FrameResult::Frame(30)), frame(FrameResult::TryAgain)];
            let (log, flow) = drive(script, &mut (), &replies);
            assert_eq!(log, vec![Call::TryGetOneFrame, Call::FinishOneFrame(30), Call::TryGetOneFrame]);
            assert_eq!(flow, Some(Flow::Success));
        }
        _ => panic!("packet was not accepted"),
    }
}

#[test]
fn draining_follows_the_end() {
    for reply in [handle(80), ret(-1)] {
        let (log, out) = drive(SendEos::Begin, &mut decoder(), &[reply]);
        assert!(!log.iter().any(|c| matches!(c, Call::TryGetOneFrame | Call::FinishOneFrame(_))));
        let (log, flow) = drive(out.unwrap(), &mut (), &[clock(1), clock(2), frame(FrameResult::Eos)]);
        assert_eq!(log, vec![Call::Now, Call::Now, Call::TryGetOneFrame]);
        assert_eq!(flow, Some(Flow::Success));
    }
}

#[test]
fn finish_sends_the_end() {
    let mut dec = MppVideoDec::default();
    assert!(matches!(dec.finish(), Entry::Answer(Flow::Error)));
    dec.install(decoder());
    assert!(matches!(dec.finish(), Entry::Run(SendEos::Begin)));

    let (log, out) = drive(SendEos::Begin, &mut decoder(), &[handle(80)]);
    assert_eq!(
        log,
        vec![
            Call::PacketInit(PacketData::Empty),
            Call::PacketSetEos(80),
            Call::DecodePutPacket { mpp: MPP, packet: 80 },
            Call::PacketDeinit(80),
        ]
    );
    assert_eq!(out, Some(Drain::Begin));

    let (log, out) = drive(SendEos::Begin, &mut decoder(), &[ret(-1)]);
    assert_eq!((log.len(), out), (1, Some(Drain::Begin)));

    let api = MppApiStruct { decode_put_packet: false, ..full_api() };
    let (log, _) = drive(SendEos::Begin, &mut DecoderState { api, ..decoder() }, &[handle(80)]);
    assert_eq!(log[1..], [Call::PacketSetEos(80), Call::PacketDeinit(80)]);
}

#[test]
fn draining_ends_with_the_stream() {
    let replies = [
        clock(1_000),
        clock(2_000),
        frame(FrameResult::Frame(30)),
        clock(3_000),
        frame(FrameResult::TryAgain),
        clock(4_000),
        frame(FrameResult::Skip),
        clock(5_000),
        frame(FrameResult::Eos),
    ];
    let (log, out) = drive(Drain::Begin, &mut (), &replies);
    assert_eq!(
        log,
        vec![
            Call::Now,
            Call::Now,
            Call::TryGetOneFrame,
            Call::FinishOneFrame(30),
            Call::Now,
            Call::TryGetOneFrame,
            Call::SleepMillis(2),
            Call::Now,
            Call::TryGetOneFrame,
            Call::Now,
            Call::TryGetOneFrame,
        ]
    );
    assert_eq!(out, Some(Flow::Success));
}

#[test]
fn draining_ends_after_five_seconds() {
    let start = 1_000;
    let (log, out) = drive(Drain::Begin, &mut (), &[clock(start), clock(start + 4_999_999_999)]);
    assert_eq!((log.len(), out), (3, None));
    let (log, out) = drive(Drain::Begin, &mut (), &[clock(start), clock(start + 5_000_000_000)]);
    assert_eq!((log.len(), out), (2, Some(Flow::Success)));
}

#[test]
fn teardown_ends_the_stream_and_drains() {
    let dec = decoder();
    let (log, out) = drive(DecTeardown::Begin { dec }, &mut (), &[handle(80), handle(70), ret(-1)]);
    assert_eq!(
        log,
        vec![
            Call::PacketInit(PacketData::Empty),
            Call::PacketSetEos(80),
            Call::DecodePutPacket { mpp: MPP, packet: 80 },
            Call::PacketDeinit(80),
            Call::DecodeGetFrame(MPP),
            Call::FrameDeinit(70),
            Call::DecodeGetFrame(MPP),
            Call::Reset(MPP),
            Call::Destroy(100),
        ]
    );
    assert_eq!(out, Some(()));
}

#[test]
fn teardown_takes_at_most_ten_frames() {
    let dec = decoder();
    let (log, out) = drive(DecTeardown::Begin { dec }, &mut (), &vec![handle(70); 11]);
    assert_eq!(out, Some(()));
    assert_eq!(log.iter().filter(|c| matches!(c, Call::DecodeGetFrame(_))).count(), 10);
    assert_eq!(log.iter().filter(|c| matches!(c, Call::FrameDeinit(_))).count(), 10);
}

#[test]
fn teardown_without_entries() {
    let api = MppApiStruct { decode_put_packet: false, decode_get_frame: false, reset: false, ..full_api() };
    let dec = DecoderState { api, ..decoder() };
    let (log, out) = drive(DecTeardown::Begin { dec }, &mut (), &[ret(-1)]);
    assert_eq!(log, vec![Call::PacketInit(PacketData::Empty), Call::Destroy(100)]);
    assert_eq!(out, Some(()));
}

#[test]
fn flush_resets() {
    let mut dec = MppVideoDec::default();
    assert_eq!(dec.flush(), vec![]);
    dec.install(decoder());
    assert_eq!(dec.flush(), vec![Call::Reset(MPP)]);
    assert_eq!(dec.state, Some(decoder()));
}

#[test]
fn output_is_negotiated_where_the_size_is_accepted() {
    let dec = MppVideoDec::default();
    let (log, out) = drive(dec.negotiate_output(640, 360), &mut (), &[ok()]);
    assert_eq!(log, vec![Call::SetPictureState { width: 640, height: 360 }, Call::Negotiate]);
    assert_eq!(out, Some(()));

    let (log, out) = drive(dec.negotiate_output(640, 360), &mut (), &[ret(-1)]);
    assert_eq!(log, vec![Call::SetPictureState { width: 640, height: 360 }]);
    assert_eq!(out, Some(()));
}

#[test]
fn one_frame_is_finished_or_dropped() {
    let dec = MppVideoDec::default();
    let (log, out) = drive(dec.finish_one_frame(30), &mut (), &[handle(33), ret(-2)]);
    assert_eq!(
        log,
        vec![Call::OldestFrame, Call::SetOutputBuffer { frame: 33, buffer: 30 }, Call::FinishFrame(33)]
    );
    assert_eq!(out, Some(Flow::Downstream(-2)));

    let (log, out) = drive(dec.finish_one_frame(30), &mut (), &[handle(NULL)]);
    assert_eq!(log, vec![Call::OldestFrame, Call::DropBuffer(30)]);
    assert_eq!(out, Some(Flow::Success));
}
