//! The frame-streaming video backend.
//!
//! A producer submits raw frames to a [`VideoBackendController`], which
//! batches them into blocks and hands full blocks to a [`BlockQueue`]; a
//! worker drains the queue into an encoder sink. This module holds the
//! configuration types and the deterministic construction of the external
//! encoder invocation; the queue, controller, worker and in-memory sink live
//! in [`pipeline`].

use vstd::prelude::*;

pub mod pipeline;

verus! {

/// Number of frames batched into one block before it is handed to the queue.
pub const BLOCK_SIZE: usize = 240;

/// Byte order of one pixel inside a raw frame.
#[derive(Debug, Clone, Copy, PartialEq, Eq, Structural)]
pub enum ColorOrder {
    Bgra,
    Rgba,
}

/// The pixel-format token an encoder expects for a color order.
pub open spec fn spec_color_token(c: ColorOrder) -> Seq<char> {
    match c {
        ColorOrder::Bgra => "bgra"@,
        ColorOrder::Rgba => "rgba"@,
    }
}

impl ColorOrder {
    /// The raw-video pixel-format token named by this color order.
    pub fn pixel_format(&self) -> (r: &'static str)
        ensures
            r@ == spec_color_token(*self),
    {
        match self {
            ColorOrder::Bgra => "bgra",
            ColorOrder::Rgba => "rgba",
        }
    }
}

/// Static description of one video output: destination file, frame rate,
/// frame geometry and pixel byte order.
pub struct VideoConfig {
    pub filename: String,
    pub framerate: u32,
    pub output_width: u32,
    pub output_height: u32,
    pub color_order: ColorOrder,
}

/// Why a [`VideoConfig`] was rejected before the pipeline started.
#[derive(Debug, Clone, Copy, PartialEq, Eq, Structural)]
pub enum ConfigError {
    ZeroFramerate,
    ZeroWidth,
    ZeroHeight,
    FrameTooLarge,
}

impl VideoConfig {
    /// Bytes in one raw frame of this configuration: four bytes per pixel.
    pub open spec fn spec_frame_len(self) -> int {
        self.output_width * self.output_height * 4
    }

    /// A configuration the pipeline accepts: positive rate and geometry, and
    /// a frame small enough to be held in one in-memory buffer.
    pub open spec fn spec_valid(self) -> bool {
        &&& self.framerate >= 1
        &&& self.output_width >= 1
        &&& self.output_height >= 1
        &&& self.spec_frame_len() <= usize::MAX
    }

    /// Checks this configuration eagerly, before any worker or encoder
    /// process is started; says exactly which requirement failed.
    pub fn validate(&self) -> (r: Result<(), ConfigError>)
        ensures
            r is Ok <==> self.spec_valid(),
            self.framerate == 0 ==> r == Result::<(), ConfigError>::Err(ConfigError::ZeroFramerate),
            self.framerate >= 1 && self.output_width == 0 ==> r == Result::<(), ConfigError>::Err(
                ConfigError::ZeroWidth,
            ),
            self.framerate >= 1 && self.output_width >= 1 && self.output_height == 0 ==> r
                == Result::<(), ConfigError>::Err(ConfigError::ZeroHeight),
            self.framerate >= 1 && self.output_width >= 1 && self.output_height >= 1
                && self.spec_frame_len() > usize::MAX ==> r == Result::<(), ConfigError>::Err(
                ConfigError::FrameTooLarge,
            ),
    {
        if self.framerate == 0 {
            return Err(ConfigError::ZeroFramerate);
        }
        if self.output_width == 0 {
            return Err(ConfigError::ZeroWidth);
        }
        if self.output_height == 0 {
            return Err(ConfigError::ZeroHeight);
        }
        let w128: u128 = self.output_width as u128;
        let h128: u128 = self.output_height as u128;
        proof {
            assert(w128 * h128 * 4 <= 0xFFFF_FFFFu128 * 0xFFFF_FFFFu128 * 4) by (nonlinear_arith)
                requires
                    w128 <= 0xFFFF_FFFFu128,
                    h128 <= 0xFFFF_FFFFu128,
            ;
        }
        let wide: u128 = w128 * h128 * 4;
        if wide > (usize::MAX as u128) {
            return Err(ConfigError::FrameTooLarge);
        }
        Ok(())
    }

    /// Bytes in one raw frame; the submission interface rejects any buffer of
    /// a different length.
    pub fn frame_len(&self) -> (r: usize)
        requires
            self.spec_valid(),
        ensures
            r == self.spec_frame_len(),
    {
        (self.output_width as usize) * (self.output_height as usize) * 4
    }
}

/// The encoders the backend knows how to invoke.
#[allow(non_camel_case_types)]
#[derive(Debug, Clone, Copy, PartialEq, Eq, Structural)]
pub enum FFMPEGEncoder {
    libx264,
    libx265,
    hevc_nvenc,
    hevc_vaapi,
}

/// The name under which an encoder is selected on the command line.
pub open spec fn spec_encoder_name(e: FFMPEGEncoder) -> Seq<char> {
    match e {
        FFMPEGEncoder::libx264 => "libx264"@,
        FFMPEGEncoder::libx265 => "libx265"@,
        FFMPEGEncoder::hevc_nvenc => "hevc_nvenc"@,
        FFMPEGEncoder::hevc_vaapi => "hevc_vaapi"@,
    }
}

impl FFMPEGEncoder {
    /// The command-line name of this encoder.
    pub fn get_encoder_name(&self) -> (r: &'static str)
        ensures
            r@ == spec_encoder_name(*self),
    {
        match self {
            FFMPEGEncoder::libx264 => "libx264",
            FFMPEGEncoder::libx265 => "libx265",
            FFMPEGEncoder::hevc_nvenc => "hevc_nvenc",
            FFMPEGEncoder::hevc_vaapi => "hevc_vaapi",
        }
    }
}

/// Encoder selection for an FFMPEG-style backend.
pub struct FFMPEGConfig {
    pub ffmpeg_encoder: FFMPEGEncoder,
}

/// The decimal digit character for `d`.
pub open spec fn spec_digit(d: int) -> char {
    if d == 0 {
        '0'
    } else if d == 1 {
        '1'
    } else if d == 2 {
        '2'
    } else if d == 3 {
        '3'
    } else if d == 4 {
        '4'
    } else if d == 5 {
        '5'
    } else if d == 6 {
        '6'
    } else if d == 7 {
        '7'
    } else if d == 8 {
        '8'
    } else {
        '9'
    }
}

/// The decimal digit string of a non-negative number, most significant digit
/// first, with no leading zeros (a single `'0'` for zero).
pub open spec fn spec_dec(n: int) -> Seq<char>
    recommends
        n >= 0,
    decreases n,
{
    if n < 10 {
        seq![spec_digit(n)]
    } else {
        spec_dec(n / 10).push(spec_digit(n % 10))
    }
}

fn digit_str(d: u32) -> (r: &'static str)
    requires
        d < 10,
    ensures
        r@ == seq![spec_digit(d as int)],
{
    let r: &'static str = if d == 0 {
        "0"
    } else if d == 1 {
        "1"
    } else if d == 2 {
        "2"
    } else if d == 3 {
        "3"
    } else if d == 4 {
        "4"
    } else if d == 5 {
        "5"
    } else if d == 6 {
        "6"
    } else if d == 7 {
        "7"
    } else if d == 8 {
        "8"
    } else {
        "9"
    };
    proof {
        reveal_strlit("0");
        reveal_strlit("1");
        reveal_strlit("2");
        reveal_strlit("3");
        reveal_strlit("4");
        reveal_strlit("5");
        reveal_strlit("6");
        reveal_strlit("7");
        reveal_strlit("8");
        reveal_strlit("9");
    }
    r
}

/// Writes `n` in decimal, as the encoder command line wants frame rates and
/// frame geometry spelled.
pub fn u32_to_dec_string(n: u32) -> (s: String)
    ensures
        s@ == spec_dec(n as int),
    decreases n,
{
    if n < 10 {
        String::from_str(digit_str(n))
    } else {
        let mut s = u32_to_dec_string(n / 10);
        s.append(digit_str(n % 10));
        proof {
            assert(spec_dec((n / 10) as int).push(spec_digit((n % 10) as int)) =~= spec_dec(
                (n / 10) as int,
            ) + seq![spec_digit((n % 10) as int)]);
        }
        s
    }
}

/// The views of a list of argument strings.
pub open spec fn views_of(s: Seq<String>) -> Seq<Seq<char>> {
    s.map_values(|x: String| x@)
}

proof fn lemma_views_of_push(s: Seq<String>, x: String)
    ensures
        views_of(s.push(x)) == views_of(s).push(x@),
{
    assert(views_of(s.push(x)) =~= views_of(s).push(x@));
}

/// The device-binding flag block an encoder needs: the hardware-accelerated
/// VAAPI path binds its render device and converts through its own upload
/// filter; every other encoder needs none.
pub open spec fn spec_hwaccel_options(e: FFMPEGEncoder) -> Seq<Seq<char>> {
    if e is hevc_vaapi {
        seq!["-vaapi_device"@, "/dev/dri/renderD128"@, "-vf"@, "format=nv12,hwupload"@]
    } else {
        Seq::empty()
    }
}

/// The encoder-specific half of the quality table, keyed by (encoder,
/// high-quality flag).
pub open spec fn spec_quality_base(e: FFMPEGEncoder, high_quality: bool) -> Seq<Seq<char>> {
    match e {
        FFMPEGEncoder::hevc_vaapi => if high_quality {
            seq!["-compression_level"@, "29"@, "-qp"@, "1"@]
        } else {
            seq!["-compression_level"@, "0"@, "-qp"@, "52"@]
        },
        FFMPEGEncoder::hevc_nvenc => if high_quality {
            seq!["-preset"@, "p7"@]
        } else {
            seq!["-preset"@, "p1"@]
        },
        _ => if high_quality {
            seq!["-preset"@, "veryslow"@]
        } else {
            seq!["-preset"@, "ultrafast"@]
        },
    }
}

/// The generic output pixel-format flags. The VAAPI encoder mandates its own
/// internal format, so it gets none; every other encoder picks a chroma
/// layout from the high-quality flag.
pub open spec fn spec_pix_fmt_options(e: FFMPEGEncoder, high_quality: bool) -> Seq<Seq<char>> {
    if e is hevc_vaapi {
        Seq::empty()
    } else if high_quality {
        seq!["-pix_fmt"@, "yuv444p"@]
    } else {
        seq!["-pix_fmt"@, "yuv420p"@]
    }
}

/// The whole quality block of the output options.
pub open spec fn spec_quality_options(e: FFMPEGEncoder, high_quality: bool) -> Seq<Seq<char>> {
    spec_quality_base(e, high_quality) + spec_pix_fmt_options(e, high_quality)
}

/// Every output flag of an encoder invocation, in order: no audio, encoder
/// selection, device binding where the encoder needs it, then quality flags.
pub open spec fn spec_output_options(e: FFMPEGEncoder, high_quality: bool) -> Seq<Seq<char>> {
    seq!["-an"@, "-vcodec"@, spec_encoder_name(e)] + spec_hwaccel_options(e) + spec_quality_options(
        e,
        high_quality,
    )
}

/// Builds the output half of an encoder command line from an encoder
/// selection and a quality flag.
pub struct FFMPEGOutputOptionBuilder {
    pub high_quality: bool,
    pub encoder: FFMPEGEncoder,
}

impl FFMPEGOutputOptionBuilder {
    /// Appends the device-binding flag block, if this encoder needs one.
    pub fn specify_hwaccel_device_option(&self, args: &mut Vec<String>)
        ensures
            views_of(final(args)@) == views_of(old(args)@) + spec_hwaccel_options(self.encoder),
    {
        match self.encoder {
            FFMPEGEncoder::hevc_vaapi => {
                args.push(String::from_str("-vaapi_device"));
                args.push(String::from_str("/dev/dri/renderD128"));
                args.push(String::from_str("-vf"));
                args.push(String::from_str("format=nv12,hwupload"));
                proof {
                    assert(views_of(args@) =~= views_of(old(args)@) + spec_hwaccel_options(
                        self.encoder,
                    ));
                }
            },
            _ => {
                proof {
                    assert(views_of(args@) =~= views_of(old(args)@) + spec_hwaccel_options(
                        self.encoder,
                    ));
                }
            },
        }
    }

    /// Appends the quality flags of the (encoder, high-quality) table, then
    /// the generic output pixel format where the encoder allows one.
    pub fn specify_quality_option(&self, args: &mut Vec<String>)
        ensures
            views_of(final(args)@) == views_of(old(args)@) + spec_quality_options(
                self.encoder,
                self.high_quality,
            ),
    {
        match self.encoder {
            FFMPEGEncoder::hevc_vaapi => {
                if self.high_quality {
                    args.push(String::from_str("-compression_level"));
                    args.push(String::from_str("29"));
                    args.push(String::from_str("-qp"));
                    args.push(String::from_str("1"));
                } else {
                    args.push(String::from_str("-compression_level"));
                    args.push(String::from_str("0"));
                    args.push(String::from_str("-qp"));
                    args.push(String::from_str("52"));
                }
            },
            FFMPEGEncoder::hevc_nvenc => {
                if self.high_quality {
                    args.push(String::from_str("-preset"));
                    args.push(String::from_str("p7"));
                } else {
                    args.push(String::from_str("-preset"));
                    args.push(String::from_str("p1"));
                }
            },
            _ => {
                if self.high_quality {
                    args.push(String::from_str("-preset"));
                    args.push(String::from_str("veryslow"));
                } else {
                    args.push(String::from_str("-preset"));
                    args.push(String::from_str("ultrafast"));
                }
            },
        }
        if !matches!(self.encoder, FFMPEGEncoder::hevc_vaapi) {
            if self.high_quality {
                args.push(String::from_str("-pix_fmt"));
                args.push(String::from_str("yuv444p"));
            } else {
                args.push(String::from_str("-pix_fmt"));
                args.push(String::from_str("yuv420p"));
            }
        }
        proof {
            assert(views_of(args@) =~= views_of(old(args)@) + spec_quality_options(
                self.encoder,
                self.high_quality,
            ));
        }
    }

    /// Appends every output flag: no audio, the encoder selection, the
    /// device-binding block where needed, then the quality flags.
    pub fn build_option(&self, args: &mut Vec<String>)
        ensures
            views_of(final(args)@) == views_of(old(args)@) + spec_output_options(
                self.encoder,
                self.high_quality,
            ),
    {
        args.push(String::from_str("-an"));
        args.push(String::from_str("-vcodec"));
        args.push(String::from_str(self.encoder.get_encoder_name()));
        self.specify_hwaccel_device_option(args);
        self.specify_quality_option(args);
        proof {
            assert(views_of(args@) =~= views_of(old(args)@) + spec_output_options(
                self.encoder,
                self.high_quality,
            ));
        }
    }
}

/// The input-framing flags of an encoder invocation: raw video of the
/// configured pixel format, geometry and rate, read from standard input.
pub open spec fn spec_input_options(c: VideoConfig) -> Seq<Seq<char>> {
    seq![
        "-y"@,
        "-f"@,
        "rawvideo"@,
        "-pix_fmt"@,
        spec_color_token(c.color_order),
        "-s"@,
        spec_dec(c.output_width as int) + "x"@ + spec_dec(c.output_height as int),
        "-r"@,
        spec_dec(c.framerate as int),
        "-i"@,
        "-"@,
    ]
}

/// The whole argument list of an encoder invocation: input framing flags,
/// then output flags, then the destination filename.
pub open spec fn spec_ffmpeg_args(c: VideoConfig, e: FFMPEGEncoder, high_quality: bool) -> Seq<
    Seq<char>,
> {
    spec_input_options(c) + spec_output_options(e, high_quality) + seq![c.filename@]
}

/// Builds, deterministically and in order, the argument list with which the
/// external encoder process is spawned for this configuration.
pub fn build_ffmpeg_args(video_config: &VideoConfig, encoder: FFMPEGEncoder, high_quality: bool) -> (args: Vec<
    String,
>)
    ensures
        views_of(args@) == spec_ffmpeg_args(*video_config, encoder, high_quality),
{
    let mut args: Vec<String> = Vec::new();
    args.push(String::from_str("-y"));
    args.push(String::from_str("-f"));
    args.push(String::from_str("rawvideo"));
    args.push(String::from_str("-pix_fmt"));
    args.push(String::from_str(video_config.color_order.pixel_format()));
    args.push(String::from_str("-s"));
    let mut size = u32_to_dec_string(video_config.output_width);
    size.append("x");
    let height_str = u32_to_dec_string(video_config.output_height);
    size.append(height_str.as_str());
    args.push(size);
    args.push(String::from_str("-r"));
    args.push(u32_to_dec_string(video_config.framerate));
    args.push(String::from_str("-i"));
    args.push(String::from_str("-"));
    proof {
        assert(views_of(args@) =~= spec_input_options(*video_config));
    }
    let builder = FFMPEGOutputOptionBuilder { high_quality, encoder };
    builder.build_option(&mut args);
    args.push(video_config.filename.clone());
    proof {
        assert(views_of(args@) =~= spec_ffmpeg_args(*video_config, encoder, high_quality));
    }
    args
}

/// The quality/codec mapping is total and never empty: every encoder paired
/// with either quality flag yields output options that select the encoder; a
/// device-bound encoder always carries its device-binding flags and never the
/// generic output pixel-format flag, and every other encoder carries the
/// generic output pixel-format flag.
pub proof fn lemma_output_options_total(e: FFMPEGEncoder, high_quality: bool)
    ensures
        spec_output_options(e, high_quality).len() > 0,
        spec_output_options(e, high_quality).contains(spec_encoder_name(e)),
        e is hevc_vaapi ==> spec_output_options(e, high_quality).contains("-vaapi_device"@),
        e is hevc_vaapi ==> !spec_output_options(e, high_quality).contains("-pix_fmt"@),
        !(e is hevc_vaapi) ==> spec_output_options(e, high_quality).contains("-pix_fmt"@),
{
    reveal_strlit("-an");
    reveal_strlit("-vcodec");
    reveal_strlit("-vaapi_device");
    reveal_strlit("/dev/dri/renderD128");
    reveal_strlit("-vf");
    reveal_strlit("format=nv12,hwupload");
    reveal_strlit("-compression_level");
    reveal_strlit("29");
    reveal_strlit("0");
    reveal_strlit("1");
    reveal_strlit("52");
    reveal_strlit("-qp");
    reveal_strlit("-preset");
    reveal_strlit("p7");
    reveal_strlit("p1");
    reveal_strlit("veryslow");
    reveal_strlit("ultrafast");
    reveal_strlit("-pix_fmt");
    reveal_strlit("yuv444p");
    reveal_strlit("yuv420p");
    reveal_strlit("libx264");
    reveal_strlit("libx265");
    reveal_strlit("hevc_nvenc");
    reveal_strlit("hevc_vaapi");
    let opts = spec_output_options(e, high_quality);
    assert(opts[2] == spec_encoder_name(e));
    if e is hevc_vaapi {
        assert(opts[3] == "-vaapi_device"@);
        assert forall|i: int| 0 <= i < opts.len() implies opts[i] != "-pix_fmt"@ by {
            assert(("-pix_fmt"@).len() == 8);
        }
    } else {
        assert(opts[opts.len() - 2] == "-pix_fmt"@);
    }
}

} // verus!
