//! The conversion task: what one worker decides for one discovered file.
//!
//! A task decodes its source, normalizes unset metadata, encodes the result
//! next to the source with a `.wav` suffix, and reports a failure as one
//! line. Everything but the codec calls themselves is decided here.
use vstd::prelude::*;
use vstd::string::StringExecFns;

use crate::discovery::FileRecord;

verus! {

/// The sample format tag of a decoded buffer, fixed-point (S) or float (F).
#[derive(Clone, Copy, PartialEq, Eq, Structural, Debug)]
pub enum FormatTag {
    F32,
    F64,
    S8,
    S16,
    S24,
    S32,
}

/// The metadata the task reads and writes on a decoded audio buffer. A
/// `bits_per_sample` of zero means the decoder could not determine the
/// format, and a `sample_rate` of zero means it could not determine the
/// rate; neither is a zero-valued audio property.
#[derive(Clone, Copy, PartialEq, Eq, Structural, Debug)]
pub struct AudioMeta {
    pub sample_rate: u32,
    pub bits_per_sample: u32,
    pub format: FormatTag,
}

/// One codec failure, tagged with the detail the codec supplied.
#[derive(Clone, Debug)]
pub enum ConvertError {
    FileCorrupt,
    FileInaccessible(String),
    NumChannels(String),
    NumFrames(String),
    SampleValueOutOfRange(String),
    WrongFormat(String),
}

/// Metadata with the unset sentinels replaced by the conventional defaults:
/// an unset format becomes 16-bit signed integer PCM and an unset rate
/// becomes 44100 Hz. Determined metadata passes through unchanged.
pub open spec fn normalized(m: AudioMeta) -> AudioMeta {
    AudioMeta {
        sample_rate: if m.sample_rate == 0 {
            44100
        } else {
            m.sample_rate
        },
        bits_per_sample: if m.bits_per_sample == 0 {
            16
        } else {
            m.bits_per_sample
        },
        format: if m.bits_per_sample == 0 {
            FormatTag::S16
        } else {
            m.format
        },
    }
}

/// Replaces the unset sentinels of decoded metadata by the defaults.
pub fn normalize(m: AudioMeta) -> (r: AudioMeta)
    ensures
        r == normalized(m),
{
    let mut out = m;
    if out.bits_per_sample == 0 {
        out.bits_per_sample = 16;
        out.format = FormatTag::S16;
    }
    if out.sample_rate == 0 {
        out.sample_rate = 44100;
    }
    out
}

/// Where the converted file goes: into the source's directory, under the
/// source's stem, with the fixed `.wav` suffix.
pub open spec fn wav_path(dir: Seq<char>, stem: Seq<char>) -> Seq<char> {
    dir + "/"@ + stem + ".wav"@
}

/// Builds the output path for a source in `dir` with the given `stem`.
pub fn output_path(dir: &str, stem: &str) -> (r: String)
    ensures
        r@ == wav_path(dir@, stem@),
{
    let mut p = dir.to_owned();
    p.append("/");
    p.append(stem);
    p.append(".wav");
    proof {
        assert(p@ =~= wav_path(dir@, stem@));
    }
    p
}

/// The human-readable description of one failure.
pub open spec fn error_text(e: ConvertError) -> Seq<char> {
    match e {
        ConvertError::FileCorrupt => "The file was corrupt."@,
        ConvertError::FileInaccessible(m) => "The file was inaccessible ("@ + m@ + ")."@,
        ConvertError::NumChannels(m) => "The number of channels was wrong ("@ + m@ + ")."@,
        ConvertError::NumFrames(m) => "The number of frames was wrong ("@ + m@ + ")."@,
        ConvertError::SampleValueOutOfRange(m) => "A sampel value was out of range ("@ + m@
            + ")."@,
        ConvertError::WrongFormat(m) => "The format was wrong ("@ + m@ + ")."@,
    }
}

/// The one report line a failed step emits: the path it concerns, then the
/// failure's description.
pub open spec fn report_line_text(path: Seq<char>, e: ConvertError) -> Seq<char> {
    "Error writing file "@ + path + ": "@ + error_text(e)
}

/// Renders the report line for a failure at `path`.
pub fn report_line(path: &str, err: &ConvertError) -> (r: String)
    ensures
        r@ == report_line_text(path@, *err),
{
    let mut line = "Error writing file ".to_owned();
    line.append(path);
    line.append(": ");
    match err {
        ConvertError::FileCorrupt => {
            line.append("The file was corrupt.");
        },
        ConvertError::FileInaccessible(m) => {
            line.append("The file was inaccessible (");
            line.append(m.as_str());
            line.append(").");
        },
        ConvertError::NumChannels(m) => {
            line.append("The number of channels was wrong (");
            line.append(m.as_str());
            line.append(").");
        },
        ConvertError::NumFrames(m) => {
            line.append("The number of frames was wrong (");
            line.append(m.as_str());
            line.append(").");
        },
        ConvertError::SampleValueOutOfRange(m) => {
            line.append("A sampel value was out of range (");
            line.append(m.as_str());
            line.append(").");
        },
        ConvertError::WrongFormat(m) => {
            line.append("The format was wrong (");
            line.append(m.as_str());
            line.append(").");
        },
    }
    proof {
        assert(line@ =~= report_line_text(path@, *err));
    }
    line
}

/// One planned unit of work: the file to decode and the path its conversion
/// is written to.
#[derive(Clone, Debug)]
pub struct ConversionTask {
    pub source: String,
    pub output: String,
}

/// A task is the one for a record when it reads the record's path and
/// writes alongside it under the record's stem.
pub open spec fn task_for(t: ConversionTask, r: FileRecord) -> bool {
    t.source@ == r.path@ && t.output@ == wav_path(r.directory@, r.stem@)
}

/// Builds the task for one record.
pub fn task_for_record(r: &FileRecord) -> (t: ConversionTask)
    ensures
        task_for(t, *r),
{
    ConversionTask { source: r.path.clone(), output: output_path(r.directory.as_str(), r.stem.as_str()) }
}

/// What a task does once its source has been decoded: on success, encode
/// the normalized buffer to the task's output path; on failure, report the
/// failure against the source path and stop.
pub enum TaskAction {
    Encode { path: String, meta: AudioMeta },
    Report { line: String },
}

/// Decides the task's next step from the decode result.
pub fn on_decode(task: &ConversionTask, decoded: Result<AudioMeta, ConvertError>) -> (a: TaskAction)
    ensures
        (match decoded {
            Ok(m) => match a {
                TaskAction::Encode { path, meta } => path@ == task.output@ && meta == normalized(m),
                TaskAction::Report { .. } => false,
            },
            Err(e) => match a {
                TaskAction::Report { line } => line@ == report_line_text(task.source@, e),
                TaskAction::Encode { .. } => false,
            },
        }),
{
    match decoded {
        Ok(m) => TaskAction::Encode { path: task.output.clone(), meta: normalize(m) },
        Err(e) => TaskAction::Report { line: report_line(task.source.as_str(), &e) },
    }
}

/// Decides the task's last step from the encode result: a failure is
/// reported against the output path, success is silent.
pub fn on_encode(task: &ConversionTask, encoded: Result<(), ConvertError>) -> (r: Option<String>)
    ensures
        (match encoded {
            Ok(_) => r is None,
            Err(e) => r is Some && r->0@ == report_line_text(task.output@, e),
        }),
{
    match encoded {
        Ok(_) => None,
        Err(e) => Some(report_line(task.output.as_str(), &e)),
    }
}

} // verus!
