//! What the encoder derives from the format of its input.

use vstd::prelude::*;

use crate::call::{Call, Geometry};
use crate::enc::settings::Settings;
use crate::mpp_ffi::{
    mpp_align, MppEncCfg, MPP_ALIGNMENT, MPP_ENC_RC_MODE_CBR, MPP_FMT_YUV420SP, MPP_VIDEO_CodingHEVC,
};

verus! {

/// The frame rate where the input does not give one.
pub const DEFAULT_FPS: i32 = 30;

/// The format of the encoder's input and what follows from it.
#[derive(Clone, Copy, PartialEq, Eq, Debug)]
pub struct EncFormat {
    pub width: u32,
    pub height: u32,
    pub hor_stride: u32,
    pub ver_stride: u32,
    pub fps_n: i32,
    pub fps_d: i32,
    pub bps: u32,
    pub bps_max: u32,
    pub bps_min: u32,
    pub gop: i32,
    /// Bytes of an input frame in hardware memory.
    pub frame_size: usize,
}

/// Division that rounds towards zero.
pub open spec fn quotient(a: int, b: int) -> int
    recommends
        b > 0,
{
    if a >= 0 {
        a / b
    } else {
        -((-a) / b)
    }
}

/// A denominator that can be divided by.
pub open spec fn divisor(fps_d: i32) -> i32 {
    if fps_d < 1 {
        1
    } else {
        fps_d
    }
}

/// The frame rate that is used: an unknown one counts as the default.
pub open spec fn frame_rate(fps_n: i32, fps_d: i32) -> (i32, i32) {
    if fps_n == 0 {
        (DEFAULT_FPS, 1)
    } else {
        (fps_n, fps_d)
    }
}

/// The bitrate that is chosen by size and frame rate: an eighth of a bit for each pixel.
pub open spec fn auto_bps(width: u32, height: u32, fps_n: i32, fps_d: i32) -> int {
    ((width * height) / 8) * ((fps_n as u32) as int / divisor(fps_d) as int)
}

/// The bitrate that the encoder is set to.
pub open spec fn target_bps(settings: Settings, width: u32, height: u32, fps_n: i32, fps_d: i32) -> int {
    let (n, d) = frame_rate(fps_n, fps_d);
    if settings.bps == 0 {
        auto_bps(width, height, n, d)
    } else {
        settings.bps as int
    }
}

/// The group size that the encoder is set to.
pub open spec fn target_gop(settings: Settings, fps_n: i32, fps_d: i32) -> int {
    let (n, d) = frame_rate(fps_n, fps_d);
    if settings.gop < 0 {
        quotient(n as int, divisor(d) as int)
    } else {
        settings.gop as int
    }
}

/// The smallest multiple of the alignment that is not below `v`.
pub open spec fn aligned(v: u32) -> int {
    ((v + MPP_ALIGNMENT - 1) / MPP_ALIGNMENT as int) * MPP_ALIGNMENT
}

/// Whether sizes and bitrates stay within 32 bits.
pub open spec fn format_fits(settings: Settings, width: u32, height: u32, fps_n: i32, fps_d: i32) -> bool {
    &&& width + MPP_ALIGNMENT <= u32::MAX
    &&& height + MPP_ALIGNMENT <= u32::MAX
    &&& aligned(width) * aligned(height) * 3 <= u32::MAX
    &&& target_bps(settings, width, height, fps_n, fps_d) * 17 <= u32::MAX
}

/// The executable division that rounds towards zero.
fn divide(a: i32, b: i32) -> (r: i32)
    requires
        b > 0,
    ensures
        r == quotient(a as int, b as int),
{
    a / b
}

/// An aligned value is the one that `mpp_align` gives.
pub proof fn lemma_aligned(v: u32, r: u32)
    requires
        crate::mpp_ffi::is_aligned_up(v as int, MPP_ALIGNMENT as int, r as int),
    ensures
        r == aligned(v),
{
    crate::mpp_ffi::law_aligned_up_unique(v as int, MPP_ALIGNMENT as int, r as int, aligned(v));
}

impl EncFormat {
    /// The size of the pictures and their layout in hardware memory.
    pub open spec fn geometry(self) -> Geometry {
        Geometry {
            width: self.width,
            height: self.height,
            hor_stride: self.hor_stride,
            ver_stride: self.ver_stride,
        }
    }

    /// Whether this is what follows from the settings and the input's size and frame rate.
    pub open spec fn follows(self, settings: Settings, width: u32, height: u32, fps_n: i32, fps_d: i32) -> bool {
        &&& self.width == width
        &&& self.height == height
        &&& self.hor_stride == aligned(width)
        &&& self.ver_stride == aligned(height)
        &&& (self.fps_n, self.fps_d) == frame_rate(fps_n, fps_d)
        &&& self.bps == target_bps(settings, width, height, fps_n, fps_d)
        &&& self.bps_max == self.bps * 17 / 16
        &&& self.bps_min == self.bps * 15 / 16
        &&& self.gop == target_gop(settings, fps_n, fps_d)
        &&& self.frame_size == aligned(width) * aligned(height) * 3 / 2
    }

    /// Tests whether sizes and bitrates stay within 32 bits.
    pub fn fits(settings: Settings, width: u32, height: u32, fps_n: i32, fps_d: i32) -> (r: bool)
        ensures
            r == format_fits(settings, width, height, fps_n, fps_d),
    {
        if width > u32::MAX - MPP_ALIGNMENT || height > u32::MAX - MPP_ALIGNMENT {
            return false;
        }
        let hor_stride = mpp_align(width);
        let ver_stride = mpp_align(height);
        proof {
            lemma_aligned(width, hor_stride);
            lemma_aligned(height, ver_stride);
            assert(0 <= hor_stride * ver_stride <= 0xffff_ffff * 0xffff_ffff) by (nonlinear_arith)
                requires
                    0 <= hor_stride <= 0xffff_ffff,
                    0 <= ver_stride <= 0xffff_ffff,
            ;
        }
        if hor_stride as u128 * ver_stride as u128 * 3 > u32::MAX as u128 {
            return false;
        }
        if settings.bps != 0 {
            return settings.bps as u64 * 17 <= u32::MAX as u64;
        }
        let (n, d): (i32, i32) = if fps_n == 0 {
            (DEFAULT_FPS, 1)
        } else {
            (fps_n, fps_d)
        };
        let per: i32 = if d < 1 {
            1
        } else {
            d
        };
        let rate = n as u32 / per as u32;
        proof {
            assert(0 <= width * height <= 0xffff_ffff * 0xffff_ffff) by (nonlinear_arith)
                requires
                    0 <= width <= 0xffff_ffff,
                    0 <= height <= 0xffff_ffff,
            ;
            let area = (width * height) / 8;
            assert(0 <= area * rate <= 0xffff_ffff * 0xffff_ffff * 0xffff_ffff) by (nonlinear_arith)
                requires
                    0 <= area <= 0xffff_ffff * 0xffff_ffff,
                    0 <= rate <= 0xffff_ffff,
            ;
        }
        (width as u128 * height as u128) / 8 * rate as u128 * 17 <= u32::MAX as u128
    }

    /// Derives the format.
    pub fn new(settings: Settings, width: u32, height: u32, fps_n: i32, fps_d: i32) -> (format: EncFormat)
        requires
            format_fits(settings, width, height, fps_n, fps_d),
        ensures
            format.follows(settings, width, height, fps_n, fps_d),
    {
        let (n, d): (i32, i32) = if fps_n == 0 {
            (DEFAULT_FPS, 1)
        } else {
            (fps_n, fps_d)
        };
        let per: i32 = if d < 1 {
            1
        } else {
            d
        };
        let hor_stride = mpp_align(width);
        let ver_stride = mpp_align(height);
        proof {
            lemma_aligned(width, hor_stride);
            lemma_aligned(height, ver_stride);
            assert(width * height <= hor_stride * ver_stride) by (nonlinear_arith)
                requires
                    width <= hor_stride,
                    height <= ver_stride,
            ;
            assert(0 <= width * height) by (nonlinear_arith)
                requires
                    0 <= width,
                    0 <= height,
            ;
        }
        let bps = if settings.bps == 0 {
            let rate = n as u32 / per as u32;
            width * height / 8 * rate
        } else {
            settings.bps
        };
        let gop = if settings.gop < 0 {
            divide(n, per)
        } else {
            settings.gop
        };
        let bps_max = bps * 17 / 16;
        let bps_min = bps * 15 / 16;
        let frame_size = (hor_stride * ver_stride * 3 / 2) as usize;
        EncFormat {
            width,
            height,
            hor_stride,
            ver_stride,
            fps_n: n,
            fps_d: d,
            bps,
            bps_max,
            bps_min,
            gop,
            frame_size,
        }
    }

    /// The configuration that the encoder gets for this format.
    pub open spec fn config_calls(self, cfg: MppEncCfg) -> Seq<Call> {
        seq![
            Call::EncCfgSetS32 { cfg, key: "prep:width", value: self.width as i32 },
            Call::EncCfgSetS32 { cfg, key: "prep:height", value: self.height as i32 },
            Call::EncCfgSetS32 { cfg, key: "prep:hor_stride", value: self.hor_stride as i32 },
            Call::EncCfgSetS32 { cfg, key: "prep:ver_stride", value: self.ver_stride as i32 },
            Call::EncCfgSetS32 { cfg, key: "prep:format", value: MPP_FMT_YUV420SP },
            Call::EncCfgSetS32 { cfg, key: "rc:mode", value: MPP_ENC_RC_MODE_CBR },
            Call::EncCfgSetS32 { cfg, key: "rc:bps_target", value: self.bps as i32 },
            Call::EncCfgSetS32 { cfg, key: "rc:bps_max", value: self.bps_max as i32 },
            Call::EncCfgSetS32 { cfg, key: "rc:bps_min", value: self.bps_min as i32 },
            Call::EncCfgSetS32 { cfg, key: "rc:gop", value: self.gop },
            Call::EncCfgSetU32 { cfg, key: "rc:max_reenc_times", value: 1 },
            Call::EncCfgSetS32 { cfg, key: "rc:fps_in_flex", value: 0 },
            Call::EncCfgSetS32 { cfg, key: "rc:fps_in_num", value: self.fps_n },
            Call::EncCfgSetS32 { cfg, key: "rc:fps_in_denorm", value: self.fps_d },
            Call::EncCfgSetS32 { cfg, key: "rc:fps_out_flex", value: 0 },
            Call::EncCfgSetS32 { cfg, key: "rc:fps_out_num", value: self.fps_n },
            Call::EncCfgSetS32 { cfg, key: "rc:fps_out_denorm", value: self.fps_d },
            Call::EncCfgSetS32 { cfg, key: "rc:qp_init", value: 26 },
            Call::EncCfgSetS32 { cfg, key: "rc:qp_min", value: 10 },
            Call::EncCfgSetS32 { cfg, key: "rc:qp_max", value: 51 },
            Call::EncCfgSetS32 { cfg, key: "rc:qp_min_i", value: 10 },
            Call::EncCfgSetS32 { cfg, key: "rc:qp_max_i", value: 51 },
            Call::EncCfgSetS32 { cfg, key: "rc:qp_ip", value: 2 },
        ]
    }

    /// Configures the encoder for this format.
    pub fn config(&self, cfg: MppEncCfg) -> (calls: Vec<Call>)
        ensures
            calls@ == self.config_calls(cfg),
    {
        vec![
            Call::EncCfgSetS32 { cfg, key: "prep:width", value: self.width as i32 },
            Call::EncCfgSetS32 { cfg, key: "prep:height", value: self.height as i32 },
            Call::EncCfgSetS32 { cfg, key: "prep:hor_stride", value: self.hor_stride as i32 },
            Call::EncCfgSetS32 { cfg, key: "prep:ver_stride", value: self.ver_stride as i32 },
            Call::EncCfgSetS32 { cfg, key: "prep:format", value: MPP_FMT_YUV420SP },
            Call::EncCfgSetS32 { cfg, key: "rc:mode", value: MPP_ENC_RC_MODE_CBR },
            Call::EncCfgSetS32 { cfg, key: "rc:bps_target", value: self.bps as i32 },
            Call::EncCfgSetS32 { cfg, key: "rc:bps_max", value: self.bps_max as i32 },
            Call::EncCfgSetS32 { cfg, key: "rc:bps_min", value: self.bps_min as i32 },
            Call::EncCfgSetS32 { cfg, key: "rc:gop", value: self.gop },
            Call::EncCfgSetU32 { cfg, key: "rc:max_reenc_times", value: 1 },
            Call::EncCfgSetS32 { cfg, key: "rc:fps_in_flex", value: 0 },
            Call::EncCfgSetS32 { cfg, key: "rc:fps_in_num", value: self.fps_n },
            Call::EncCfgSetS32 { cfg, key: "rc:fps_in_denorm", value: self.fps_d },
            Call::EncCfgSetS32 { cfg, key: "rc:fps_out_flex", value: 0 },
            Call::EncCfgSetS32 { cfg, key: "rc:fps_out_num", value: self.fps_n },
            Call::EncCfgSetS32 { cfg, key: "rc:fps_out_denorm", value: self.fps_d },
            Call::EncCfgSetS32 { cfg, key: "rc:qp_init", value: 26 },
            Call::EncCfgSetS32 { cfg, key: "rc:qp_min", value: 10 },
            Call::EncCfgSetS32 { cfg, key: "rc:qp_max", value: 51 },
            Call::EncCfgSetS32 { cfg, key: "rc:qp_min_i", value: 10 },
            Call::EncCfgSetS32 { cfg, key: "rc:qp_max_i", value: 51 },
            Call::EncCfgSetS32 { cfg, key: "rc:qp_ip", value: 2 },
        ]
    }
}

/// The stream type that is announced for a codec.
pub open spec fn spec_codec_mime(codec: i32) -> &'static str {
    if codec == MPP_VIDEO_CodingHEVC {
        "video/x-h265"
    } else {
        "video/x-h264"
    }
}

pub fn codec_mime(codec: i32) -> (mime: &'static str)
    ensures
        mime == spec_codec_mime(codec),
{
    if codec == MPP_VIDEO_CodingHEVC {
        "video/x-h265"
    } else {
        "video/x-h264"
    }
}

/// The bitrate window of a format holds the target, a sixteenth to either side.
pub proof fn law_bitrate_window(
    format: EncFormat,
    settings: Settings,
    width: u32,
    height: u32,
    fps_n: i32,
    fps_d: i32,
)
    requires
        format.follows(settings, width, height, fps_n, fps_d),
    ensures
        format.bps_min <= format.bps <= format.bps_max,
        format.bps - format.bps_min <= format.bps / 16 + 1,
        format.bps_max - format.bps <= format.bps / 16 + 1,
{
}

/// The input buffers of a format are large enough for a padded picture, and as large as it where
/// their rows come in pairs, which alignment makes sure of.
pub proof fn law_frame_size_holds_picture(
    format: EncFormat,
    settings: Settings,
    width: u32,
    height: u32,
    fps_n: i32,
    fps_d: i32,
)
    requires
        format.follows(settings, width, height, fps_n, fps_d),
    ensures
        crate::planes::strides_hold(format.geometry()),
        format.frame_size == crate::planes::padded_size(format.geometry()),
{
    let (hs, vs) = (format.hor_stride as int, format.ver_stride as int);
    assert(vs % 2 == 0);
    assert(vs * hs + (vs / 2) * hs == hs * vs * 3 / 2) by (nonlinear_arith)
        requires
            vs % 2 == 0,
            0 <= vs,
            0 <= hs,
    ;
}

/// What a format takes from the input and the properties. Size and frame rate are those of the input, thirty
/// frames a second where it gives none. The strides are the next multiples of sixteen, and a frame has
/// three bytes for each two pixels of the padded picture. Bitrate and group size are those that are asked
/// for; 0 asks for an eighth of a bit for each pixel of each frame, a negative group for one second.
pub proof fn law_format_follows_the_input(
    format: EncFormat,
    settings: Settings,
    width: u32,
    height: u32,
    fps_n: i32,
    fps_d: i32,
)
    requires
        format.follows(settings, width, height, fps_n, fps_d),
    ensures
        format.width == width && format.height == height,
        format.hor_stride % 16 == 0 && width <= format.hor_stride < width + 16,
        format.ver_stride % 16 == 0 && height <= format.ver_stride < height + 16,
        format.frame_size == format.hor_stride * format.ver_stride * 3 / 2,
        fps_n != 0 ==> format.fps_n == fps_n && format.fps_d == fps_d,
        fps_n == 0 ==> format.fps_n == 30 && format.fps_d == 1,
        settings.bps != 0 ==> format.bps == settings.bps,
        settings.bps == 0 && format.fps_n > 0 && format.fps_d > 0 ==> format.bps == ((width * height) / 8) * (
        format.fps_n as int / format.fps_d as int),
        settings.bps == 0 && format.fps_n > 0 && format.fps_d <= 0 ==> format.bps == ((width * height) / 8)
            * format.fps_n,
        format.bps_max == format.bps * 17 / 16,
        format.bps_min == format.bps * 15 / 16,
        settings.gop >= 0 ==> format.gop == settings.gop,
        settings.gop < 0 && format.fps_n > 0 && format.fps_d > 0 ==> format.gop == format.fps_n as int
            / format.fps_d as int,
        settings.gop < 0 && format.fps_n > 0 && format.fps_d <= 0 ==> format.gop == format.fps_n,
        settings.gop < 0 && format.fps_n < 0 && format.fps_d > 0 ==> format.gop == -((-format.fps_n)
            / format.fps_d as int),
        format.geometry().width == width && format.geometry().height == height,
        format.geometry().hor_stride == format.hor_stride && format.geometry().ver_stride == format.ver_stride,
{
}

/// Every size up to 16384 by 16384 can be set up, at every bitrate that the property takes.
pub proof fn law_ordinary_formats_fit(settings: Settings, width: u32, height: u32, fps_n: i32, fps_d: i32)
    requires
        width <= 16384,
        height <= 16384,
        0 < settings.bps <= 100_000_000,
    ensures
        format_fits(settings, width, height, fps_n, fps_d),
{
    let (w, h) = (aligned(width), aligned(height));
    assert(w * h * 3 <= 16384 * 16384 * 3) by (nonlinear_arith)
        requires
            0 <= w <= 16384,
            0 <= h <= 16384,
    ;
}

/// The same where the bitrate is chosen, as long as what comes of it is not beyond reason.
pub proof fn law_chosen_bitrates_fit(settings: Settings, width: u32, height: u32, fps_n: i32, fps_d: i32)
    requires
        width <= 16384,
        height <= 16384,
        settings.bps == 0,
        0 < fps_n,
        0 < fps_d,
        ((width * height) / 8) * (fps_n as int / fps_d as int) <= 252_000_000,
    ensures
        format_fits(settings, width, height, fps_n, fps_d),
{
    let (w, h) = (aligned(width), aligned(height));
    assert(w * h * 3 <= 16384 * 16384 * 3) by (nonlinear_arith)
        requires
            0 <= w <= 16384,
            0 <= h <= 16384,
    ;
}

/// The stream types of the two codecs have their names.
pub proof fn law_codec_names(codec: i32)
    ensures
        codec == MPP_VIDEO_CodingHEVC ==> spec_codec_mime(codec)@ == "video/x-h265"@,
        codec != MPP_VIDEO_CodingHEVC ==> spec_codec_mime(codec)@ == "video/x-h264"@,
{
}

} // verus!
