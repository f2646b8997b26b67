use draw::film::{Config, ConfigError, Environment};

fn args(items: &[&str]) -> Vec<String> {
    items.iter().map(|s| s.to_string()).collect()
}

#[test]
fn no_frames_argument() {
    let e = Config::new(args(&["film"]), false).err().unwrap();
    assert_eq!(e, ConfigError::MissingInputPng);
    assert_eq!(e.message(), "Cannot get a input png string");
    assert_eq!(Config::new(Vec::new(), false).err(), Some(ConfigError::MissingInputPng));
}

#[test]
fn no_sound_argument() {
    let e = Config::new(args(&["film", "f%04d.png"]), true).err().unwrap();
    assert_eq!(e, ConfigError::MissingInputWav);
    assert_eq!(e.message(), "Cannot get a input wav string");
}

#[test]
fn no_output_argument() {
    let e = Config::new(args(&["film", "f%04d.png", "a.wav"]), false).err().unwrap();
    assert_eq!(e, ConfigError::MissingOutputMp4);
    assert_eq!(e.message(), "Cannot get a output mp4 string");
}

#[test]
fn high_quality_when_variable_unset() {
    let c = Config::new(args(&["film", "f%04d.png", "a.wav", "out.mp4", "extra"]), false).ok().unwrap();
    assert_eq!(c.input_png, "f%04d.png");
    assert_eq!(c.input_wav, "a.wav");
    assert_eq!(c.output_mp4, "out.mp4");
    assert_eq!(c.environment_variable, Environment::HighQuarity);
    assert_eq!(
        c.ffmpeg_args(),
        args(&[
            "-framerate", "30", "-i", "f%04d.png", "-i", "a.wav", "-vcodec", "libx264", "-pix_fmt", "yuv420p", "-crf",
            "18", "out.mp4"
        ])
    );
}

#[test]
fn twitter_when_variable_set() {
    let c = Config::new(args(&["film", "f%04d.png", "a.wav", "out.mp4"]), true).ok().unwrap();
    assert_eq!(c.environment_variable, Environment::Twitter);
    assert_eq!(
        c.ffmpeg_args(),
        args(&[
            "-framerate", "30", "-i", "f%04d.png", "-i", "a.wav", "-vcodec", "libx264", "-pix_fmt", "yuv420p", "-s",
            "1280x720", "out.mp4"
        ])
    );
}
