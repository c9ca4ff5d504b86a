use videoconverter::command::{check_output_path, generate_output_filename, CommandError};
use videoconverter::directory::OutputDir;
use videoconverter::interface::{
    transpose_state, validate_args, Args, CropFilter, Libx264Tune, VideoEncoder,
    VideoEncoderPreset,
};
use videoconverter::input::{deinterlace_needed, FieldOrder};
use videoconverter::tv::TVOptions;

fn tv(title: &str, season: u32, episode: u32) -> TVOptions {
    TVOptions {
        title: String::from(title),
        season,
        episode,
    }
}

#[test]
fn tv_mode_output_filename() {
    let name = generate_output_filename("ignored.avi", &Some(tv("The Show", 2, 5)));
    assert_eq!(name, "The Show - s02e05.mkv");
}

#[test]
fn tv_mode_output_filename_wide_numbers() {
    let name = generate_output_filename("x.avi", &Some(tv("Long Runner", 11, 123)));
    assert_eq!(name, "Long Runner - s11e123.mkv");
}

#[test]
fn plain_output_filename_swaps_extension() {
    assert_eq!(generate_output_filename("video.mp4", &None), "video.mkv");
    assert_eq!(generate_output_filename("a.b.avi", &None), "a.b.mkv");
}

#[test]
fn plain_output_filename_replaces_every_occurrence() {
    // the extension text is replaced wherever it occurs in the name
    assert_eq!(generate_output_filename("mp4video.mp4", &None), "mkvvideo.mkv");
}

#[test]
fn output_dir_for_tv_mode() {
    let d = OutputDir::new("/media/out", &Some(tv("The Show", 3, 1)));
    assert_eq!(d.0, "/media/out/Season 03");
}

#[test]
fn output_dir_for_plain_mode() {
    let d = OutputDir::new("/media/out", &None);
    assert_eq!(d.0, "/media/out/newfiles");
    let trailing = OutputDir::new("/media/out/", &None);
    assert_eq!(trailing.0, "/media/out/newfiles");
    let empty = OutputDir::new("", &None);
    assert_eq!(empty.0, "newfiles");
}

#[test]
fn next_episode_advances() {
    let mut t = tv("The Show", 1, 9);
    t.next_episode();
    assert_eq!(t.episode, 10);
    assert_eq!(t.season, 1);
}

#[test]
fn transpose_state_splits_the_options() {
    let (title, season, episode) = transpose_state(Some(tv("The Show", 4, 2)));
    assert_eq!(title.as_deref(), Some("The Show"));
    assert_eq!(season, Some(4));
    assert_eq!(episode, Some(2));
    let (title, season, episode) = transpose_state(None);
    assert!(title.is_none() && season.is_none() && episode.is_none());
}

#[test]
fn crop_filter_accepts_the_documented_shape() {
    assert!(CropFilter::parse("crop=100:200:0:0").is_some());
    assert!(CropFilter::parse("crop=1:2:3:4").is_some());
    assert!(CropFilter::parse("prefix crop=1:2:3:4 suffix").is_some());
    let c = CropFilter::parse("crop=100:200:0:0").unwrap();
    assert_eq!(c.0, "crop=100:200:0:0");
}

#[test]
fn crop_filter_rejects_other_strings() {
    assert!(CropFilter::parse("").is_none());
    assert!(CropFilter::parse("crop=").is_none());
    assert!(CropFilter::parse("crop=1+:2+:3+:4+").is_none());
    assert!(CropFilter::parse("crop=:2:3:4").is_none());
    assert!(CropFilter::parse("crop=a:b:c:d").is_none());
    assert!(CropFilter::parse("crop=1:2:3").is_none());
    assert!(CropFilter::parse("crop=1:2:3:").is_none());
    assert!(CropFilter::parse("100:200:0:0").is_none());
}

fn base_args() -> Args {
    Args {
        all_streams: false,
        crf: 20,
        crop: None,
        no_deinterlace: false,
        force_deinterlace: false,
        force_reencode_video: false,
        copy_video: false,
        reencode_audio: false,
        audio_language: String::from("eng"),
        subtitle_language: String::from("eng"),
        reencode_subs: false,
        encoder: VideoEncoder::Libx264,
        preset: VideoEncoderPreset::Slow,
        no_hwaccel: false,
        simulate: false,
        print_commands: false,
        tune: None,
        path: String::from("."),
        output_path: None,
        tv_mode: false,
        statefile: String::from("/tmp/videoconverter.state"),
        parallel: None,
        default_audio_language: None,
        nnedi_weights: String::from("~/.ffmpeg/nnedi3_weights"),
        overwrite: false,
    }
}

#[test]
fn nvenc_constraints_are_checked() {
    let args = base_args();
    assert!(validate_args(&args));
    let mut nvenc = base_args();
    nvenc.encoder = VideoEncoder::Nvenc;
    assert!(validate_args(&nvenc));
    nvenc.no_hwaccel = true;
    assert!(!validate_args(&nvenc));
    nvenc.no_hwaccel = false;
    nvenc.tune = Some(Libx264Tune::Film);
    assert!(!validate_args(&nvenc));
}

#[test]
fn encoder_names() {
    assert_eq!(VideoEncoder::Libx264.as_str(), "libx264");
    assert_eq!(VideoEncoder::Libx265.as_str(), "libx265");
    assert_eq!(VideoEncoder::Nvenc.as_str(), "nvenc");
    assert_eq!(VideoEncoderPreset::Veryslow.as_str(), "veryslow");
    assert_eq!(Libx264Tune::ZeroLatency.as_str(), "zerolatency");
}

#[test]
fn deinterlace_decision() {
    // forced deinterlacing always applies
    assert!(deinterlace_needed(FieldOrder::Progressive, false, true));
    // automatic deinterlacing applies only to interlaced streams
    assert!(deinterlace_needed(FieldOrder::Interlaced, false, false));
    assert!(!deinterlace_needed(FieldOrder::Progressive, false, false));
    assert!(!deinterlace_needed(FieldOrder::Unknown, false, false));
    // and not when it is disabled
    assert!(!deinterlace_needed(FieldOrder::Interlaced, true, false));
}

#[test]
fn output_collision_guard() {
    assert!(check_output_path(false, false, false).is_ok());
    assert!(matches!(
        check_output_path(true, false, false),
        Err(CommandError::FileExists)
    ));
    // overwriting is allowed when asked for
    assert!(check_output_path(true, true, false).is_ok());
    // a simulated run never refuses
    assert!(check_output_path(true, false, true).is_ok());
}
