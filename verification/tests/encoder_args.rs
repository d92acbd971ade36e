use gmanim::video_backend::{
    build_ffmpeg_args, u32_to_dec_string, ColorOrder, ConfigError, FFMPEGEncoder,
    FFMPEGOutputOptionBuilder, VideoConfig,
};

#[test]
fn encoder_names() {
    assert_eq!(FFMPEGEncoder::libx264.get_encoder_name(), "libx264");
    assert_eq!(FFMPEGEncoder::libx265.get_encoder_name(), "libx265");
    assert_eq!(FFMPEGEncoder::hevc_nvenc.get_encoder_name(), "hevc_nvenc");
    assert_eq!(FFMPEGEncoder::hevc_vaapi.get_encoder_name(), "hevc_vaapi");
}

#[test]
fn pixel_format_tokens() {
    assert_eq!(ColorOrder::Bgra.pixel_format(), "bgra");
    assert_eq!(ColorOrder::Rgba.pixel_format(), "rgba");
}

#[test]
fn decimal_strings() {
    assert_eq!(u32_to_dec_string(0), "0");
    assert_eq!(u32_to_dec_string(7), "7");
    assert_eq!(u32_to_dec_string(30), "30");
    assert_eq!(u32_to_dec_string(1080), "1080");
    assert_eq!(u32_to_dec_string(1920), "1920");
    assert_eq!(u32_to_dec_string(4294967295), "4294967295");
}

#[test]
fn full_argument_list_software_h264() {
    let config = VideoConfig {
        filename: "output.mp4".to_owned(),
        framerate: 60,
        output_width: 1920,
        output_height: 1080,
        color_order: ColorOrder::Rgba,
    };
    let args = build_ffmpeg_args(&config, FFMPEGEncoder::libx264, false);
    let expected: Vec<&str> = vec![
        "-y", "-f", "rawvideo", "-pix_fmt", "rgba", "-s", "1920x1080", "-r", "60", "-i", "-",
        "-an", "-vcodec", "libx264", "-preset", "ultrafast", "-pix_fmt", "yuv420p", "output.mp4",
    ];
    assert_eq!(args, expected);
}

#[test]
fn full_argument_list_vaapi_high_quality() {
    let config = VideoConfig {
        filename: "clip.mp4".to_owned(),
        framerate: 24,
        output_width: 640,
        output_height: 480,
        color_order: ColorOrder::Bgra,
    };
    let args = build_ffmpeg_args(&config, FFMPEGEncoder::hevc_vaapi, true);
    let expected: Vec<&str> = vec![
        "-y", "-f", "rawvideo", "-pix_fmt", "bgra", "-s", "640x480", "-r", "24", "-i", "-", "-an",
        "-vcodec", "hevc_vaapi", "-vaapi_device", "/dev/dri/renderD128", "-vf",
        "format=nv12,hwupload", "-compression_level", "29", "-qp", "1", "clip.mp4",
    ];
    assert_eq!(args, expected);
}

fn output_options(encoder: FFMPEGEncoder, high_quality: bool) -> Vec<String> {
    let builder = FFMPEGOutputOptionBuilder { high_quality, encoder };
    let mut args = Vec::new();
    builder.build_option(&mut args);
    args
}

#[test]
fn quality_codec_mapping_is_total() {
    // every (codec, high-quality) pair yields a non-empty deterministic
    // option list that selects the codec
    let encoders = [
        FFMPEGEncoder::libx264,
        FFMPEGEncoder::libx265,
        FFMPEGEncoder::hevc_nvenc,
        FFMPEGEncoder::hevc_vaapi,
    ];
    for encoder in encoders {
        for high_quality in [false, true] {
            let args = output_options(encoder, high_quality);
            assert!(!args.is_empty());
            assert!(args.contains(&encoder.get_encoder_name().to_owned()));
            let again = output_options(encoder, high_quality);
            assert_eq!(args, again);
            let device_bound = matches!(encoder, FFMPEGEncoder::hevc_vaapi);
            assert_eq!(args.contains(&"-vaapi_device".to_owned()), device_bound);
            // the device-bound encoder mandates its own pixel format and
            // never takes the generic output pixel-format flag
            assert_eq!(args.contains(&"-pix_fmt".to_owned()), !device_bound);
        }
    }
}

#[test]
fn quality_presets_by_encoder() {
    assert!(output_options(FFMPEGEncoder::libx264, true).contains(&"veryslow".to_owned()));
    assert!(output_options(FFMPEGEncoder::libx264, false).contains(&"ultrafast".to_owned()));
    assert!(output_options(FFMPEGEncoder::libx264, true).contains(&"yuv444p".to_owned()));
    assert!(output_options(FFMPEGEncoder::libx264, false).contains(&"yuv420p".to_owned()));
    assert!(output_options(FFMPEGEncoder::hevc_nvenc, true).contains(&"p7".to_owned()));
    assert!(output_options(FFMPEGEncoder::hevc_nvenc, false).contains(&"p1".to_owned()));
    let vaapi_fast = output_options(FFMPEGEncoder::hevc_vaapi, false);
    assert!(vaapi_fast.contains(&"-qp".to_owned()));
    assert!(vaapi_fast.contains(&"52".to_owned()));
}

#[test]
fn config_validation_errors() {
    let good = VideoConfig {
        filename: "a.mp4".to_owned(),
        framerate: 30,
        output_width: 16,
        output_height: 9,
        color_order: ColorOrder::Rgba,
    };
    assert!(good.validate().is_ok());

    let zero_rate = VideoConfig { framerate: 0, filename: "a.mp4".to_owned(), ..good_copy(&good) };
    assert_eq!(zero_rate.validate(), Err(ConfigError::ZeroFramerate));

    let zero_width = VideoConfig { output_width: 0, ..good_copy(&good) };
    assert_eq!(zero_width.validate(), Err(ConfigError::ZeroWidth));

    let zero_height = VideoConfig { output_height: 0, ..good_copy(&good) };
    assert_eq!(zero_height.validate(), Err(ConfigError::ZeroHeight));

    let huge = VideoConfig {
        output_width: u32::MAX,
        output_height: u32::MAX,
        ..good_copy(&good)
    };
    assert_eq!(huge.validate(), Err(ConfigError::FrameTooLarge));
}

fn good_copy(c: &VideoConfig) -> VideoConfig {
    VideoConfig {
        filename: c.filename.clone(),
        framerate: c.framerate,
        output_width: c.output_width,
        output_height: c.output_height,
        color_order: c.color_order,
    }
}
