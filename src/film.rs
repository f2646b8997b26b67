use vstd::prelude::*;

verus! {

/// The encoder preset a film is made with.
#[derive(Clone, Copy, Debug, PartialEq, Eq, Structural)]
pub enum Environment {
    /// Full resolution at constant quality factor 18.
    HighQuarity,
    /// Scaled to 1280x720 for upload.
    Twitter,
}

/// Why a command line gave no configuration.
#[derive(Clone, Copy, Debug, PartialEq, Eq, Structural)]
pub enum ConfigError {
    MissingInputPng,
    MissingInputWav,
    MissingOutputMp4,
}

impl ConfigError {
    /// The text shown to the user for this error.
    pub fn message(&self) -> (r: &'static str)
        ensures
            r@ == error_message(*self),
    {
        match self {
            ConfigError::MissingInputPng => "Cannot get a input png string",
            ConfigError::MissingInputWav => "Cannot get a input wav string",
            ConfigError::MissingOutputMp4 => "Cannot get a output mp4 string",
        }
    }
}

pub open spec fn error_message(e: ConfigError) -> Seq<char> {
    match e {
        ConfigError::MissingInputPng => "Cannot get a input png string"@,
        ConfigError::MissingInputWav => "Cannot get a input wav string"@,
        ConfigError::MissingOutputMp4 => "Cannot get a output mp4 string"@,
    }
}

/// What a film is made from and where it goes.
pub struct Config {
    /// Input pattern of the rendered frames.
    pub input_png: String,
    /// The sound track.
    pub input_wav: String,
    pub environment_variable: Environment,
    /// The film written.
    pub output_mp4: String,
}

/// The configuration that a command line `args` (program name first)
/// describes, with the Twitter preset exactly when `quality_variable_set`.
pub open spec fn config_of(args: Seq<String>, quality_variable_set: bool) -> Result<
    (Seq<char>, Seq<char>, Environment, Seq<char>),
    ConfigError,
> {
    if args.len() < 2 {
        Err(ConfigError::MissingInputPng)
    } else if args.len() < 3 {
        Err(ConfigError::MissingInputWav)
    } else if args.len() < 4 {
        Err(ConfigError::MissingOutputMp4)
    } else {
        Ok(
            (
                args[1]@,
                args[2]@,
                if quality_variable_set {
                    Environment::Twitter
                } else {
                    Environment::HighQuarity
                },
                args[3]@,
            ),
        )
    }
}

impl Config {
    /// The parts of the configuration, as plain values.
    pub open spec fn parts(&self) -> (Seq<char>, Seq<char>, Environment, Seq<char>) {
        (self.input_png@, self.input_wav@, self.environment_variable, self.output_mp4@)
    }

    /// Reads the command line `args`: after the program name, the frames,
    /// the sound track and the output, in that order; arguments past those
    /// are ignored. `quality_variable_set` tells whether the `HIGH_QUARITY`
    /// environment variable is set, which selects the Twitter preset.
    pub fn new(args: Vec<String>, quality_variable_set: bool) -> (r: Result<Config, ConfigError>)
        ensures
            match (r, config_of(args@, quality_variable_set)) {
                (Ok(c), Ok(p)) => c.parts() == p,
                (Err(e), Err(f)) => e == f,
                _ => false,
            },
    {
        if args.len() < 2 {
            return Err(ConfigError::MissingInputPng);
        }
        if args.len() < 3 {
            return Err(ConfigError::MissingInputWav);
        }
        if args.len() < 4 {
            return Err(ConfigError::MissingOutputMp4);
        }
        let environment_variable = if quality_variable_set {
            Environment::Twitter
        } else {
            Environment::HighQuarity
        };
        Ok(
            Config {
                input_png: args[1].clone(),
                input_wav: args[2].clone(),
                environment_variable,
                output_mp4: args[3].clone(),
            },
        )
    }

    /// The arguments the encoder is run with: 30 frames a second, H.264 in
    /// yuv420p, then the preset's quality or size option, then the output.
    pub fn ffmpeg_args(&self) -> (r: Vec<String>)
        ensures
            r@.map_values(|s: String| s@) == ffmpeg_arg_views(self.parts()),
    {
        let mut r: Vec<String> = Vec::new();
        r.push("-framerate".to_owned());
        r.push("30".to_owned());
        r.push("-i".to_owned());
        r.push(self.input_png.clone());
        r.push("-i".to_owned());
        r.push(self.input_wav.clone());
        r.push("-vcodec".to_owned());
        r.push("libx264".to_owned());
        r.push("-pix_fmt".to_owned());
        r.push("yuv420p".to_owned());
        match self.environment_variable {
            Environment::HighQuarity => {
                r.push("-crf".to_owned());
                r.push("18".to_owned());
            },
            Environment::Twitter => {
                r.push("-s".to_owned());
                r.push("1280x720".to_owned());
            },
        }
        r.push(self.output_mp4.clone());
        assert(r@.map_values(|s: String| s@) =~= ffmpeg_arg_views(self.parts()));
        r
    }
}

/// The encoder's arguments for a configuration given by its parts.
pub open spec fn ffmpeg_arg_views(parts: (Seq<char>, Seq<char>, Environment, Seq<char>)) -> Seq<Seq<char>> {
    let (png, wav, environment, mp4) = parts;
    let preset = match environment {
        Environment::HighQuarity => seq!["-crf"@, "18"@],
        Environment::Twitter => seq!["-s"@, "1280x720"@],
    };
    seq!["-framerate"@, "30"@, "-i"@, png, "-i"@, wav, "-vcodec"@, "libx264"@, "-pix_fmt"@, "yuv420p"@] + preset
        + seq![mp4]
}

} // verus!
