//! The argument vectors handed to the external transcoder for rotating and
//! trimming a video and for taking a thumbnail from one.  Starting the
//! transcoder and waiting for it is the caller's part; what is decided here
//! is whether the request is valid and which arguments it stands for.

use vstd::prelude::*;
use vstd::string::*;
use crate::config::{DEFAULT_IMAGE_OUTPUT, DEFAULT_THUMBNAIL_SECOND, DEFAULT_VIDEO_OUTPUT};
use crate::decimal::{decimal, integer};
use crate::error::{SubprocessError, ValidationError};

verus! {

/// The program that is started.
pub const TRANSCODER: &'static str = "ffmpeg";

/// The direction of a quarter turn.
#[derive(Clone, Copy, Debug, PartialEq, Eq, Structural)]
pub enum Rotation {
    /// Counter-clockwise.
    Left,
    /// Clockwise.
    Right,
}

impl Rotation {
    /// The rotation that two flags ask for: exactly one of them must be set.
    pub open spec fn from_flags_spec(left: bool, right: bool) -> Result<Rotation, ValidationError> {
        if left && !right {
            Ok(Rotation::Left)
        } else if !left && right {
            Ok(Rotation::Right)
        } else {
            Err(ValidationError::ConflictingFlags)
        }
    }

    /// The code of the transcoder's transpose filter: 2 turns
    /// counter-clockwise, 1 clockwise.
    pub open spec fn transpose_code_spec(self) -> u8 {
        match self {
            Rotation::Left => 2,
            Rotation::Right => 1,
        }
    }

    #[verifier::when_used_as_spec(from_flags_spec)]
    pub fn from_flags(left: bool, right: bool) -> (rotation: Result<Rotation, ValidationError>)
        ensures
            rotation == Rotation::from_flags_spec(left, right),
    {
        if left && !right {
            Ok(Rotation::Left)
        } else if !left && right {
            Ok(Rotation::Right)
        } else {
            Err(ValidationError::ConflictingFlags)
        }
    }

    #[verifier::when_used_as_spec(transpose_code_spec)]
    pub fn transpose_code(self) -> (code: u8)
        ensures
            code == self.transpose_code_spec(),
    {
        match self {
            Rotation::Left => 2,
            Rotation::Right => 1,
        }
    }
}

/// The arguments that turn `input` and write `output`.
pub open spec fn rotation_line(input: Seq<char>, rotation: Rotation, output: Seq<char>) -> Seq<
    Seq<char>,
> {
    seq![
        "-i"@,
        input,
        "-vf"@,
        "transpose="@ + decimal(rotation.transpose_code_spec() as int),
        output,
    ]
}

/// The arguments that seek to `second` in `input` and write exactly one
/// frame to `output` as an image.
pub open spec fn thumbnail_line(input: Seq<char>, second: i64, output: Seq<char>) -> Seq<
    Seq<char>,
> {
    seq![
        "-i"@,
        input,
        "-ss"@,
        decimal(second as int),
        "-vframes"@,
        "1"@,
        "-f"@,
        "image2"@,
        output,
    ]
}

/// The arguments that copy the stream of `input` between two timestamps to
/// `output` without encoding it anew.
pub open spec fn trim_line(
    start: Seq<char>,
    end: Seq<char>,
    input: Seq<char>,
    output: Seq<char>,
) -> Seq<Seq<char>> {
    seq!["-ss"@, start, "-to"@, end, "-i"@, input, "-c"@, "copy"@, output]
}

fn push_text(line: &mut Vec<String>, text: &str)
    ensures
        final(line).deep_view() == old(line).deep_view().push(text@),
{
    line.push(String::from_str(text));
    assert(line.deep_view() =~= old(line).deep_view().push(text@));
}

/// Builds the arguments of a rotation.
pub fn rotation_args(input: &str, rotation: Rotation, output: &str) -> (line: Vec<String>)
    ensures
        line.deep_view() == rotation_line(input@, rotation, output@),
{
    let mut line: Vec<String> = Vec::new();
    assert(line.deep_view() =~= Seq::<Seq<char>>::empty());
    push_text(&mut line, "-i");
    push_text(&mut line, input);
    push_text(&mut line, "-vf");
    let code = integer(rotation.transpose_code() as i64);
    let filter = String::from_str("transpose=").concat(code.as_str());
    push_text(&mut line, filter.as_str());
    push_text(&mut line, output);
    assert(line.deep_view() =~= rotation_line(input@, rotation, output@));
    line
}

/// Builds the arguments of a thumbnail.
pub fn thumbnail_args(input: &str, second: i64, output: &str) -> (line: Vec<String>)
    ensures
        line.deep_view() == thumbnail_line(input@, second, output@),
{
    let mut line: Vec<String> = Vec::new();
    assert(line.deep_view() =~= Seq::<Seq<char>>::empty());
    push_text(&mut line, "-i");
    push_text(&mut line, input);
    push_text(&mut line, "-ss");
    let second_text = integer(second);
    push_text(&mut line, second_text.as_str());
    push_text(&mut line, "-vframes");
    push_text(&mut line, "1");
    push_text(&mut line, "-f");
    push_text(&mut line, "image2");
    push_text(&mut line, output);
    assert(line.deep_view() =~= thumbnail_line(input@, second, output@));
    line
}

/// Builds the arguments of a trim.
pub fn trim_args(start: &str, end: &str, input: &str, output: &str) -> (line: Vec<String>)
    ensures
        line.deep_view() == trim_line(start@, end@, input@, output@),
{
    let mut line: Vec<String> = Vec::new();
    assert(line.deep_view() =~= Seq::<Seq<char>>::empty());
    push_text(&mut line, "-ss");
    push_text(&mut line, start);
    push_text(&mut line, "-to");
    push_text(&mut line, end);
    push_text(&mut line, "-i");
    push_text(&mut line, input);
    push_text(&mut line, "-c");
    push_text(&mut line, "copy");
    push_text(&mut line, output);
    assert(line.deep_view() =~= trim_line(start@, end@, input@, output@));
    line
}

/// The one input file among the positional arguments, or nothing where
/// there is not exactly one.
pub open spec fn sole_input(positional: Seq<Seq<char>>) -> Option<Seq<char>> {
    if positional.len() == 1 {
        Some(positional[0])
    } else {
        None
    }
}

/// The text of an optional flag, or a default where it was not given.
pub open spec fn text_or(given: Option<Seq<char>>, default: Seq<char>) -> Seq<char> {
    match given {
        Some(text) => text,
        None => default,
    }
}

/// What a rotation request stands for.  The positional arguments are
/// checked first, then the two flags; the output is `output.mp4` where none
/// is named.
pub open spec fn rotation_plan(
    positional: Seq<Seq<char>>,
    left: bool,
    right: bool,
    output: Option<Seq<char>>,
) -> Result<Seq<Seq<char>>, ValidationError> {
    match sole_input(positional) {
        None => Err(ValidationError::ArgumentCount),
        Some(input) => match Rotation::from_flags_spec(left, right) {
            Err(e) => Err(e),
            Ok(rotation) => Ok(rotation_line(input, rotation, text_or(output, DEFAULT_VIDEO_OUTPUT@))),
        },
    }
}

/// What a thumbnail request stands for.  The frame is taken at second 1
/// where no time is given; the output is `output.jpg` where none is named.
pub open spec fn thumbnail_plan(
    positional: Seq<Seq<char>>,
    second: Option<i64>,
    output: Option<Seq<char>>,
) -> Result<Seq<Seq<char>>, ValidationError> {
    match sole_input(positional) {
        None => Err(ValidationError::ArgumentCount),
        Some(input) => Ok(
            thumbnail_line(
                input,
                match second {
                    Some(s) => s,
                    None => DEFAULT_THUMBNAIL_SECOND,
                },
                text_or(output, DEFAULT_IMAGE_OUTPUT@),
            ),
        ),
    }
}

/// What a trim request stands for.  Both timestamps are mandatory and are
/// checked before the positional arguments; the output is `output.mp4` where
/// none is named.
pub open spec fn trim_plan(
    positional: Seq<Seq<char>>,
    start: Option<Seq<char>>,
    end: Option<Seq<char>>,
    output: Option<Seq<char>>,
) -> Result<Seq<Seq<char>>, ValidationError> {
    match (start, end) {
        (Some(start), Some(end)) => match sole_input(positional) {
            None => Err(ValidationError::ArgumentCount),
            Some(input) => Ok(trim_line(start, end, input, text_or(output, DEFAULT_VIDEO_OUTPUT@))),
        },
        _ => Err(ValidationError::MissingFlag),
    }
}

/// Whether an answer carries the arguments, or the error, of a plan.
pub open spec fn carries(
    answer: Result<Vec<String>, ValidationError>,
    plan: Result<Seq<Seq<char>>, ValidationError>,
) -> bool {
    match plan {
        Ok(line) => answer is Ok && answer->Ok_0.deep_view() == line,
        Err(e) => answer == Err::<Vec<String>, ValidationError>(e),
    }
}

/// The deep view of an optional text.
pub open spec fn given(text: Option<String>) -> Option<Seq<char>> {
    match text {
        Some(t) => Some(t@),
        None => None,
    }
}

fn input_of(positional: &Vec<String>) -> (input: Option<&str>)
    ensures
        match sole_input(positional.deep_view()) {
            Some(text) => input is Some && input->Some_0@ == text,
            None => input is None,
        },
{
    if positional.len() == 1 {
        Some(positional[0].as_str())
    } else {
        None
    }
}

/// Validates a rotation request and builds its arguments.
pub fn rotation(positional: &Vec<String>, left: bool, right: bool, output: Option<String>) -> (answer:
    Result<Vec<String>, ValidationError>)
    ensures
        carries(answer, rotation_plan(positional.deep_view(), left, right, given(output))),
{
    let input = match input_of(positional) {
        Some(input) => input,
        None => { return Err(ValidationError::ArgumentCount); },
    };
    let rotation = match Rotation::from_flags(left, right) {
        Ok(rotation) => rotation,
        Err(e) => { return Err(e); },
    };
    match output {
        Some(name) => Ok(rotation_args(input, rotation, name.as_str())),
        None => Ok(rotation_args(input, rotation, DEFAULT_VIDEO_OUTPUT)),
    }
}

/// Validates a thumbnail request and builds its arguments.
pub fn thumbnail(positional: &Vec<String>, second: Option<i64>, output: Option<String>) -> (answer:
    Result<Vec<String>, ValidationError>)
    ensures
        carries(answer, thumbnail_plan(positional.deep_view(), second, given(output))),
{
    let input = match input_of(positional) {
        Some(input) => input,
        None => { return Err(ValidationError::ArgumentCount); },
    };
    let second = match second {
        Some(s) => s,
        None => DEFAULT_THUMBNAIL_SECOND,
    };
    match output {
        Some(name) => Ok(thumbnail_args(input, second, name.as_str())),
        None => Ok(thumbnail_args(input, second, DEFAULT_IMAGE_OUTPUT)),
    }
}

/// Validates a trim request and builds its arguments.
pub fn trim(
    positional: &Vec<String>,
    start: Option<String>,
    end: Option<String>,
    output: Option<String>,
) -> (answer: Result<Vec<String>, ValidationError>)
    ensures
        carries(
            answer,
            trim_plan(positional.deep_view(), given(start), given(end), given(output)),
        ),
{
    let (start, end) = match (start, end) {
        (Some(start), Some(end)) => (start, end),
        _ => { return Err(ValidationError::MissingFlag); },
    };
    let input = match input_of(positional) {
        Some(input) => input,
        None => { return Err(ValidationError::ArgumentCount); },
    };
    match output {
        Some(name) => Ok(trim_args(start.as_str(), end.as_str(), input, name.as_str())),
        None => Ok(trim_args(start.as_str(), end.as_str(), input, DEFAULT_VIDEO_OUTPUT)),
    }
}

/// How a run of the transcoder ended, as far as the caller could see: it did
/// not start, or it started and ended with an exit status, or it started and
/// ended without one.
#[derive(Clone, Copy, Debug, PartialEq, Eq, Structural)]
pub enum Exit {
    NotStarted,
    Status(i32),
    Abnormal,
}

/// Judges a run of the transcoder: only an exit status of zero is success.
pub fn outcome(exit: Exit) -> (judged: Result<(), SubprocessError>)
    ensures
        judged == match exit {
            Exit::NotStarted => Err::<(), SubprocessError>(SubprocessError::NotStarted),
            Exit::Status(status) => if status == 0 {
                Ok::<(), SubprocessError>(())
            } else {
                Err::<(), SubprocessError>(SubprocessError::Failed)
            },
            Exit::Abnormal => Err::<(), SubprocessError>(SubprocessError::Failed),
        },
{
    match exit {
        Exit::NotStarted => Err(SubprocessError::NotStarted),
        Exit::Status(status) => {
            if status == 0 {
                Ok(())
            } else {
                Err(SubprocessError::Failed)
            }
        },
        Exit::Abnormal => Err(SubprocessError::Failed),
    }
}

} // verus!
