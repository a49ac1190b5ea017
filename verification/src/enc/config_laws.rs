//! What setting the encoder up for a format tells the hardware.

use vstd::prelude::*;

use crate::call::{Call, Param, Reply};
use crate::enc::configure::{EncSetFormat, SetFormatError};
use crate::enc::format::EncFormat;
use crate::enc::settings::Settings;
use crate::enc::state::{EncoderState, InputBufs, Slot};
use crate::mpp_ffi::{
    MppEncCfg, MPP_ENC_HEADER_MODE_EACH_IDR, MPP_ENC_RC_MODE_CBR, MPP_ENC_SEI_MODE_DISABLE, MPP_ENC_SET_CFG,
    MPP_ENC_SET_HEADER_MODE, MPP_ENC_SET_SEI_CFG, MPP_FMT_YUV420SP, MPP_OK, MPP_VIDEO_CodingHEVC, NULL,
};

verus! {

/// The value that a call gives a key of a configuration, if it gives it one.
pub open spec fn sets(call: Call, cfg: MppEncCfg, key: Seq<char>) -> Option<int> {
    match call {
        Call::EncCfgSetS32 { cfg: c, key: k, value } => if c == cfg && k@ == key {
            Some(value as int)
        } else {
            None
        },
        Call::EncCfgSetU32 { cfg: c, key: k, value } => if c == cfg && k@ == key {
            Some(value as int)
        } else {
            None
        },
        _ => None,
    }
}

/// The value that a key of a configuration has after the first `n` of these calls: the last one that it
/// was given.
pub open spec fn last_set(calls: Seq<Call>, n: nat, cfg: MppEncCfg, key: Seq<char>) -> Option<int>
    decreases n,
{
    if n == 0 {
        None
    } else if sets(calls[n - 1], cfg, key) is Some {
        sets(calls[n - 1], cfg, key)
    } else {
        last_set(calls, (n - 1) as nat, cfg, key)
    }
}

/// The value that a key of a configuration has after these calls.
pub open spec fn setting(calls: Seq<Call>, cfg: MppEncCfg, key: Seq<char>) -> Option<int> {
    last_set(calls, calls.len(), cfg, key)
}

/// What tells the keys apart: their lengths and two of their characters.
proof fn lemma_key_marks()
    ensures
        "prep:width"@.len() == 10 && "prep:width"@[5] == 'w' && "prep:width"@[8] == 't',
        "prep:height"@.len() == 11 && "prep:height"@[5] == 'h' && "prep:height"@[8] == 'g',
        "prep:hor_stride"@.len() == 15 && "prep:hor_stride"@[5] == 'h' && "prep:hor_stride"@[8] == '_',
        "prep:ver_stride"@.len() == 15 && "prep:ver_stride"@[5] == 'v' && "prep:ver_stride"@[8] == '_',
        "prep:format"@.len() == 11 && "prep:format"@[5] == 'f' && "prep:format"@[8] == 'm',
        "rc:mode"@.len() == 7 && "rc:mode"@[5] == 'd',
        "rc:bps_target"@.len() == 13 && "rc:bps_target"@[5] == 's' && "rc:bps_target"@[8] == 'a',
        "rc:bps_max"@.len() == 10 && "rc:bps_max"@[5] == 's' && "rc:bps_max"@[8] == 'a',
        "rc:bps_min"@.len() == 10 && "rc:bps_min"@[5] == 's' && "rc:bps_min"@[8] == 'i',
        "rc:gop"@.len() == 6 && "rc:gop"@[5] == 'p',
        "rc:max_reenc_times"@.len() == 18 && "rc:max_reenc_times"@[5] == 'x' && "rc:max_reenc_times"@[8] == 'e',
        "rc:fps_in_flex"@.len() == 14 && "rc:fps_in_flex"@[5] == 's' && "rc:fps_in_flex"@[8] == 'n',
        "rc:fps_in_num"@.len() == 13 && "rc:fps_in_num"@[5] == 's' && "rc:fps_in_num"@[8] == 'n',
        "rc:fps_in_denorm"@.len() == 16 && "rc:fps_in_denorm"@[5] == 's' && "rc:fps_in_denorm"@[8] == 'n',
        "rc:fps_out_flex"@.len() == 15 && "rc:fps_out_flex"@[5] == 's' && "rc:fps_out_flex"@[8] == 'u',
        "rc:fps_out_num"@.len() == 14 && "rc:fps_out_num"@[5] == 's' && "rc:fps_out_num"@[8] == 'u',
        "rc:fps_out_denorm"@.len() == 17 && "rc:fps_out_denorm"@[5] == 's' && "rc:fps_out_denorm"@[8] == 'u',
        "rc:qp_init"@.len() == 10 && "rc:qp_init"@[5] == '_' && "rc:qp_init"@[8] == 'i',
        "rc:qp_min"@.len() == 9 && "rc:qp_min"@[5] == '_' && "rc:qp_min"@[8] == 'n',
        "rc:qp_max"@.len() == 9 && "rc:qp_max"@[5] == '_' && "rc:qp_max"@[8] == 'x',
        "rc:qp_min_i"@.len() == 11 && "rc:qp_min_i"@[5] == '_' && "rc:qp_min_i"@[8] == 'n',
        "rc:qp_max_i"@.len() == 11 && "rc:qp_max_i"@[5] == '_' && "rc:qp_max_i"@[8] == 'x',
        "rc:qp_ip"@.len() == 8 && "rc:qp_ip"@[5] == '_',
{
    reveal_strlit("prep:width");
    reveal_strlit("prep:height");
    reveal_strlit("prep:hor_stride");
    reveal_strlit("prep:ver_stride");
    reveal_strlit("prep:format");
    reveal_strlit("rc:mode");
    reveal_strlit("rc:bps_target");
    reveal_strlit("rc:bps_max");
    reveal_strlit("rc:bps_min");
    reveal_strlit("rc:gop");
    reveal_strlit("rc:max_reenc_times");
    reveal_strlit("rc:fps_in_flex");
    reveal_strlit("rc:fps_in_num");
    reveal_strlit("rc:fps_in_denorm");
    reveal_strlit("rc:fps_out_flex");
    reveal_strlit("rc:fps_out_num");
    reveal_strlit("rc:fps_out_denorm");
    reveal_strlit("rc:qp_init");
    reveal_strlit("rc:qp_min");
    reveal_strlit("rc:qp_max");
    reveal_strlit("rc:qp_min_i");
    reveal_strlit("rc:qp_max_i");
    reveal_strlit("rc:qp_ip");
}

#[verifier::rlimit(60)]
proof fn lemma_settings_a(format: EncFormat, cfg: MppEncCfg)
    ensures
        setting(format.config_calls(cfg), cfg, "prep:width"@) == Some((format.width as i32) as int),
        setting(format.config_calls(cfg), cfg, "prep:height"@) == Some((format.height as i32) as int),
        setting(format.config_calls(cfg), cfg, "prep:hor_stride"@) == Some((format.hor_stride as i32) as int),
        setting(format.config_calls(cfg), cfg, "prep:ver_stride"@) == Some((format.ver_stride as i32) as int),
        setting(format.config_calls(cfg), cfg, "prep:format"@) == Some(MPP_FMT_YUV420SP as int),
        setting(format.config_calls(cfg), cfg, "rc:mode"@) == Some(MPP_ENC_RC_MODE_CBR as int),
        setting(format.config_calls(cfg), cfg, "rc:bps_target"@) == Some((format.bps as i32) as int),
        setting(format.config_calls(cfg), cfg, "rc:bps_max"@) == Some((format.bps_max as i32) as int),
{
    reveal_with_fuel(last_set, 24);
    lemma_key_marks();
}

#[verifier::rlimit(60)]
proof fn lemma_settings_b(format: EncFormat, cfg: MppEncCfg)
    ensures
        setting(format.config_calls(cfg), cfg, "rc:bps_min"@) == Some((format.bps_min as i32) as int),
        setting(format.config_calls(cfg), cfg, "rc:gop"@) == Some(format.gop as int),
        setting(format.config_calls(cfg), cfg, "rc:max_reenc_times"@) == Some(1int),
        setting(format.config_calls(cfg), cfg, "rc:fps_in_flex"@) == Some(0int),
        setting(format.config_calls(cfg), cfg, "rc:fps_in_num"@) == Some(format.fps_n as int),
        setting(format.config_calls(cfg), cfg, "rc:fps_in_denorm"@) == Some(format.fps_d as int),
        setting(format.config_calls(cfg), cfg, "rc:fps_out_flex"@) == Some(0int),
        setting(format.config_calls(cfg), cfg, "rc:fps_out_num"@) == Some(format.fps_n as int),
{
    reveal_with_fuel(last_set, 24);
    lemma_key_marks();
}

#[verifier::rlimit(60)]
proof fn lemma_settings_c(format: EncFormat, cfg: MppEncCfg)
    ensures
        setting(format.config_calls(cfg), cfg, "rc:fps_out_denorm"@) == Some(format.fps_d as int),
        setting(format.config_calls(cfg), cfg, "rc:qp_init"@) == Some(26int),
        setting(format.config_calls(cfg), cfg, "rc:qp_min"@) == Some(10int),
        setting(format.config_calls(cfg), cfg, "rc:qp_max"@) == Some(51int),
        setting(format.config_calls(cfg), cfg, "rc:qp_min_i"@) == Some(10int),
        setting(format.config_calls(cfg), cfg, "rc:qp_max_i"@) == Some(51int),
        setting(format.config_calls(cfg), cfg, "rc:qp_ip"@) == Some(2int),
{
    reveal_with_fuel(last_set, 24);
    lemma_key_marks();
}

/// Whether after these calls a configuration describes the format: each key has the value that the format
/// gives it, and the keys that no format changes have theirs.
pub open spec fn describes(calls: Seq<Call>, cfg: MppEncCfg, format: EncFormat) -> bool {
    &&& setting(calls, cfg, "prep:width"@) == Some((format.width as i32) as int)
    &&& setting(calls, cfg, "prep:height"@) == Some((format.height as i32) as int)
    &&& setting(calls, cfg, "prep:hor_stride"@) == Some((format.hor_stride as i32) as int)
    &&& setting(calls, cfg, "prep:ver_stride"@) == Some((format.ver_stride as i32) as int)
    &&& setting(calls, cfg, "prep:format"@) == Some(MPP_FMT_YUV420SP as int)
    &&& setting(calls, cfg, "rc:mode"@) == Some(MPP_ENC_RC_MODE_CBR as int)
    &&& setting(calls, cfg, "rc:bps_target"@) == Some((format.bps as i32) as int)
    &&& setting(calls, cfg, "rc:bps_max"@) == Some((format.bps_max as i32) as int)
    &&& setting(calls, cfg, "rc:bps_min"@) == Some((format.bps_min as i32) as int)
    &&& setting(calls, cfg, "rc:gop"@) == Some(format.gop as int)
    &&& setting(calls, cfg, "rc:max_reenc_times"@) == Some(1int)
    &&& setting(calls, cfg, "rc:fps_in_flex"@) == Some(0int)
    &&& setting(calls, cfg, "rc:fps_in_num"@) == Some(format.fps_n as int)
    &&& setting(calls, cfg, "rc:fps_in_denorm"@) == Some(format.fps_d as int)
    &&& setting(calls, cfg, "rc:fps_out_flex"@) == Some(0int)
    &&& setting(calls, cfg, "rc:fps_out_num"@) == Some(format.fps_n as int)
    &&& setting(calls, cfg, "rc:fps_out_denorm"@) == Some(format.fps_d as int)
    &&& setting(calls, cfg, "rc:qp_init"@) == Some(26int)
    &&& setting(calls, cfg, "rc:qp_min"@) == Some(10int)
    &&& setting(calls, cfg, "rc:qp_max"@) == Some(51int)
    &&& setting(calls, cfg, "rc:qp_min_i"@) == Some(10int)
    &&& setting(calls, cfg, "rc:qp_max_i"@) == Some(51int)
    &&& setting(calls, cfg, "rc:qp_ip"@) == Some(2int)
}

/// How many keys of a configuration are set.
pub const KEYS: usize = 23;

/// How setting a format up goes on once both buffers are there, with `told` the calls from then on. The
/// configuration is filled in, and nothing but the configuration, so that it describes the format. Where
/// commands can be given, it is put into force after that, with the other modes, and a refusal is an
/// error. Then the stream type of the codec is announced at the size of the format, and negotiated.
#[verifier::opaque]
pub open spec fn configures(
    told: Seq<Call>,
    out: Result<(), SetFormatError>,
    state: EncoderState,
    format: EncFormat,
    replies: Seq<Reply>,
) -> bool {
    let filled = told.take(KEYS as int);
    let rest = told.skip(KEYS as int);
    let announce = Call::SetOutputState {
        mime: if state.codec == MPP_VIDEO_CodingHEVC {
            "video/x-h265"
        } else {
            "video/x-h264"
        },
        width: format.width,
        height: format.height,
    };
    let force = if state.api.control {
        seq![
            Call::Control { mpp: state.mpp, cmd: MPP_ENC_SET_SEI_CFG, param: Param::I32(MPP_ENC_SEI_MODE_DISABLE) },
            Call::Control {
                mpp: state.mpp,
                cmd: MPP_ENC_SET_HEADER_MODE,
                param: Param::I32(MPP_ENC_HEADER_MODE_EACH_IDR),
            },
            Call::Control { mpp: state.mpp, cmd: MPP_ENC_SET_CFG, param: Param::Handle(state.cfg) },
        ]
    } else {
        seq![]
    };
    let next: int = if state.api.control {
        1
    } else {
        0
    };
    &&& told.len() >= KEYS
    &&& forall|i: int|
        0 <= i < KEYS ==> match #[trigger] told[i] {
            Call::EncCfgSetS32 { cfg, .. } => cfg == state.cfg,
            Call::EncCfgSetU32 { cfg, .. } => cfg == state.cfg,
            _ => false,
        }
    &&& describes(filled, state.cfg, format)
    &&& if state.api.control && replies[0].ret != MPP_OK {
        &&& rest == force
        &&& out == Err::<(), SetFormatError>(SetFormatError::SetCfg(replies[0].ret))
    } else if replies[next].ret != MPP_OK {
        &&& rest == force + seq![announce]
        &&& out == Err::<(), SetFormatError>(SetFormatError::SetOutputState)
    } else {
        &&& rest == force + seq![announce, Call::Negotiate]
        &&& out == if replies[next + 1].ret != MPP_OK {
            Err::<(), SetFormatError>(SetFormatError::Negotiate)
        } else {
            Ok(())
        }
    }
}

#[verifier::rlimit(60)]
proof fn lemma_configures(format: EncFormat, buffer: usize, state: EncoderState, replies: Seq<Reply>)
    requires
        replies.len() >= 4,
    ensures
        ({
            let script = EncSetFormat::Buffer {
                format,
                slot: Slot::Second,
                script: crate::allocator::AllocBuffer::Fd { buffer },
            };
            let run = crate::script::run(script, state, replies);
            &&& run.out is Some
            &&& configures(crate::trace::calls_of(run.log), run.out->0, run.state, format, replies.skip(1))
            &&& run.state == EncoderState {
                input_bufs: InputBufs { first: state.input_bufs.first, second: buffer },
                slot: Slot::First,
                ..state
            }
        }),
{
    broadcast use crate::trace::group_calls;

    reveal_with_fuel(crate::script::run, 4);
    reveal(configures);
    let script = EncSetFormat::Buffer {
        format,
        slot: Slot::Second,
        script: crate::allocator::AllocBuffer::Fd { buffer },
    };
    let run = crate::script::run(script, state, replies);
    let told = crate::trace::calls_of(run.log);
    let r1 = replies.skip(1);
    assert(r1.skip(1)[0] == r1[1] && r1.skip(1).skip(1)[0] == r1[2]);
    let filled = format.config_calls(state.cfg);
    lemma_settings_a(format, state.cfg);
    lemma_settings_b(format, state.cfg);
    lemma_settings_c(format, state.cfg);
    assert(told.take(KEYS as int) =~= filled);
    let announce = Call::SetOutputState {
        mime: if state.codec == MPP_VIDEO_CodingHEVC {
            "video/x-h265"
        } else {
            "video/x-h264"
        },
        width: format.width,
        height: format.height,
    };
    assert(forall|i: int| 0 <= i < KEYS ==> #[trigger] told[i] == filled[i]);
    let rest = told.skip(KEYS as int);
    if state.api.control {
        let force = seq![
            Call::Control { mpp: state.mpp, cmd: MPP_ENC_SET_SEI_CFG, param: Param::I32(MPP_ENC_SEI_MODE_DISABLE) },
            Call::Control {
                mpp: state.mpp,
                cmd: MPP_ENC_SET_HEADER_MODE,
                param: Param::I32(MPP_ENC_HEADER_MODE_EACH_IDR),
            },
            Call::Control { mpp: state.mpp, cmd: MPP_ENC_SET_CFG, param: Param::Handle(state.cfg) },
        ];
        if r1[0].ret != MPP_OK {
            assert(rest =~= force);
        } else if r1[1].ret != MPP_OK {
            assert(rest =~= force + seq![announce]);
        } else {
            assert(rest =~= force + seq![announce, Call::Negotiate]);
        }
    } else {
        let force = Seq::<Call>::empty();
        if r1[0].ret != MPP_OK {
            assert(rest =~= force + seq![announce]);
        } else {
            assert(rest =~= force + seq![announce, Call::Negotiate]);
        }
    }
}

#[verifier::rlimit(60)]
proof fn lemma_second_buffer(format: EncFormat, index: i32, state: EncoderState, replies: Seq<Reply>)
    requires
        replies.len() >= 5,
    ensures
        ({
            let script = EncSetFormat::Buffer {
                format,
                slot: Slot::Second,
                script: crate::allocator::AllocBuffer::Got { index },
            };
            let run = crate::script::run(script, state, replies);
            let made = crate::trace::calls_of(run.log);
            let second = replies[0].handle;
            &&& run.out is Some
            &&& if replies[0].ret != MPP_OK {
                &&& made == Seq::<Call>::empty()
                &&& run.out == Some(Err::<(), SetFormatError>(SetFormatError::InputBuffer(Slot::Second)))
                &&& run.state == state
            } else {
                &&& made.len() >= 2
                &&& made.take(2) == seq![Call::BufferSetIndex { buffer: second, index }, Call::BufferGetFd(second)]
                &&& configures(made.skip(2), run.out->0, run.state, format, replies.skip(2))
                &&& run.state == EncoderState {
                    input_bufs: InputBufs { first: state.input_bufs.first, second },
                    slot: Slot::First,
                    ..state
                }
            }
        }),
{
    broadcast use crate::trace::group_calls;

    let script = EncSetFormat::Buffer {
        format,
        slot: Slot::Second,
        script: crate::allocator::AllocBuffer::Got { index },
    };
    let run = crate::script::run(script, state, replies);
    let made = crate::trace::calls_of(run.log);
    let second = replies[0].handle;
    if replies[0].ret == MPP_OK {
        let rest = replies.skip(1);
        lemma_configures(format, second, state, rest);
        let next = EncSetFormat::Buffer {
            format,
            slot: Slot::Second,
            script: crate::allocator::AllocBuffer::Fd { buffer: second },
        };
        let tail = crate::script::run(next, state, rest);
        assert(made.skip(2) =~= crate::trace::calls_of(tail.log));
        assert(made.take(2) =~= seq![Call::BufferSetIndex { buffer: second, index }, Call::BufferGetFd(second)]);
        assert(rest.skip(1) =~= replies.skip(2));
    }
}

/// Setting the encoder up for a format, from its first call to its last. The old input buffers are given
/// back, each before its successor is asked for; the new ones have the size of the format and carry the
/// allocator's index. Then the hardware is told of the format: see `configures`. The encoder keeps the
/// size of the format and the buffers that came, the first of them first, and a frame in flight stays.
#[verifier::rlimit(60)]
pub proof fn law_configuration_reaches_the_hardware(format: EncFormat, state: EncoderState, replies: Seq<Reply>)
    requires
        replies.len() >= 8,
    ensures
        ({
            let run = crate::script::run(EncSetFormat::Begin { format }, state, replies);
            let made = crate::trace::calls_of(run.log);
            let index = state.allocator.index;
            let (one, two) = (state.input_bufs.first, state.input_bufs.second);
            let ask = Call::BufferGet { group: state.allocator.group, size: format.frame_size };
            let (first, second) = (replies[1].handle, replies[3].handle);
            let start = crate::trace::only_if(one != NULL, Call::BufferPut(one)) + seq![ask];
            let middle = start + seq![
                Call::BufferSetIndex { buffer: first, index },
                Call::BufferGetFd(first),
            ] + crate::trace::only_if(two != NULL, Call::BufferPut(two)) + seq![ask];
            let both = middle + seq![Call::BufferSetIndex { buffer: second, index }, Call::BufferGetFd(second)];
            &&& run.out is Some
            &&& run.state.geometry.width == format.width
            &&& run.state.geometry.height == format.height
            &&& run.state.geometry.hor_stride == format.hor_stride
            &&& run.state.geometry.ver_stride == format.ver_stride
            &&& run.state == EncoderState {
                geometry: run.state.geometry,
                input_bufs: run.state.input_bufs,
                slot: run.state.slot,
                ..state
            }
            &&& if replies[1].ret != MPP_OK {
                &&& made == start
                &&& run.out == Some(Err::<(), SetFormatError>(SetFormatError::InputBuffer(Slot::First)))
                &&& run.state.input_bufs == (InputBufs { first: NULL, second: two })
                &&& run.state.slot == state.slot
            } else if replies[3].ret != MPP_OK {
                &&& made == middle
                &&& run.out == Some(Err::<(), SetFormatError>(SetFormatError::InputBuffer(Slot::Second)))
                &&& run.state.input_bufs == (InputBufs { first, second: NULL })
                &&& run.state.slot == state.slot
            } else {
                &&& made.len() >= both.len()
                &&& made.take(both.len() as int) == both
                &&& configures(made.skip(both.len() as int), run.out->0, run.state, format, replies.skip(5))
                &&& run.state.input_bufs == (InputBufs { first, second })
                &&& run.state.slot == Slot::First
            }
        }),
{
    broadcast use crate::trace::group_calls;

    reveal_with_fuel(crate::script::run, 4);
    let run = crate::script::run(EncSetFormat::Begin { format }, state, replies);
    let made = crate::trace::calls_of(run.log);
    let r2 = replies.skip(1).skip(1);
    let r3 = r2.skip(1);
    assert(r2[0] == replies[2] && r3[0] == replies[3]);
    let index = state.allocator.index;
    let (one, two) = (state.input_bufs.first, state.input_bufs.second);
    let ask = Call::BufferGet { group: state.allocator.group, size: format.frame_size };
    let (first, second) = (replies[1].handle, replies[3].handle);
    let start = crate::trace::only_if(one != NULL, Call::BufferPut(one)) + seq![ask];
    let middle = start + seq![Call::BufferSetIndex { buffer: first, index }, Call::BufferGetFd(first)]
        + crate::trace::only_if(two != NULL, Call::BufferPut(two)) + seq![ask];
    if replies[1].ret != MPP_OK {
        assert(made =~= start);
    } else {
        let st = EncoderState { geometry: format.geometry(), input_bufs: InputBufs { first, second: NULL }, ..state };
        let script = EncSetFormat::Buffer {
            format,
            slot: Slot::Second,
            script: crate::allocator::AllocBuffer::Got { index },
        };
        let tail = crate::trace::calls_of(crate::script::run(script, st, r3).log);
        lemma_second_buffer(format, index, st, r3);
        assert(made =~= middle + tail);
        assert(r3.skip(2) =~= replies.skip(5));
        if replies[3].ret == MPP_OK {
            let both = middle + seq![Call::BufferSetIndex { buffer: second, index }, Call::BufferGetFd(second)];
            assert(tail =~= tail.take(2) + tail.skip(2));
            assert(made.skip(both.len() as int) =~= tail.skip(2));
            assert(made.take(both.len() as int) =~= both);
        } else {
            assert(made =~= middle);
        }
    }
}

/// The bitrate and the group size that the properties ask for are those that the hardware is set to, with
/// a window of a sixteenth around the bitrate, and the size and frame rate are those of the input.
pub proof fn law_properties_reach_the_hardware(
    format: EncFormat,
    settings: Settings,
    width: u32,
    height: u32,
    fps_n: i32,
    fps_d: i32,
    calls: Seq<Call>,
    cfg: MppEncCfg,
)
    requires
        format.follows(settings, width, height, fps_n, fps_d),
        describes(calls, cfg, format),
        settings.in_range(),
        width <= i32::MAX,
        height <= i32::MAX,
    ensures
        settings.bps != 0 ==> {
            &&& setting(calls, cfg, "rc:bps_target"@) == Some(settings.bps as int)
            &&& setting(calls, cfg, "rc:bps_max"@) == Some(settings.bps * 17 / 16)
            &&& setting(calls, cfg, "rc:bps_min"@) == Some(settings.bps * 15 / 16)
        },
        settings.gop >= 0 ==> setting(calls, cfg, "rc:gop"@) == Some(settings.gop as int),
        settings.gop < 0 && fps_n > 0 && fps_d > 0 ==> setting(calls, cfg, "rc:gop"@) == Some(
            fps_n as int / fps_d as int,
        ),
        setting(calls, cfg, "prep:width"@) == Some(width as int),
        setting(calls, cfg, "prep:height"@) == Some(height as int),
        fps_n != 0 ==> {
            &&& setting(calls, cfg, "rc:fps_in_num"@) == Some(fps_n as int)
            &&& setting(calls, cfg, "rc:fps_in_denorm"@) == Some(fps_d as int)
            &&& setting(calls, cfg, "rc:fps_out_num"@) == Some(fps_n as int)
            &&& setting(calls, cfg, "rc:fps_out_denorm"@) == Some(fps_d as int)
        },
        fps_n == 0 ==> {
            &&& setting(calls, cfg, "rc:fps_in_num"@) == Some(30int)
            &&& setting(calls, cfg, "rc:fps_in_denorm"@) == Some(1int)
            &&& setting(calls, cfg, "rc:fps_out_num"@) == Some(30int)
            &&& setting(calls, cfg, "rc:fps_out_denorm"@) == Some(1int)
        },
{
}

} // verus!
