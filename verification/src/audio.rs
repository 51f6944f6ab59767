//! Which WAV files can be transcribed: mono, at the dictation sample rate, with
//! integer samples of 1 to 32 bits or 32-bit float samples.
use vstd::prelude::*;
use vstd::string::StringExecFns;
use crate::strings::decimal;
use crate::strings::push_decimal;

verus! {

/// How the samples of a WAV file are stored.
#[derive(Clone, Copy, Debug, PartialEq, Eq, Structural)]
pub enum WavSampleFormat {
    Int,
    Float,
}

/// The header of a WAV file: what the checks read of it.
#[derive(Clone, Copy, Debug, PartialEq, Eq, Structural)]
pub struct WavFormat {
    pub channels: u16,
    pub sample_rate: u32,
    pub bits_per_sample: u16,
    pub sample_format: WavSampleFormat,
}

/// How to read the samples of an accepted file.
#[derive(Clone, Copy, Debug, PartialEq, Eq, Structural)]
pub enum SampleDecoding {
    /// Signed integers of this many bits, scaled to `[-1, 1]`.
    Int { bits_per_sample: u16 },
    /// 32-bit floats, kept as they are.
    Float,
}

/// The sample rate that transcription expects, in hertz.
pub const EXPECTED_SAMPLE_RATE_HZ: u32 = 16_000;

/// The verdict on a WAV header read from `path`: mono first, then the sample rate,
/// then the sample width; each refusal names the file and what was found.
pub open spec fn spec_check_wav_format(path: Seq<char>, format: WavFormat) -> Result<
    SampleDecoding,
    Seq<char>,
> {
    if format.channels != 1 {
        Err(
            "audio file "@ + path + " has "@ + decimal(format.channels as nat)
                + " channels; expected mono"@,
        )
    } else if format.sample_rate != EXPECTED_SAMPLE_RATE_HZ {
        Err(
            "audio file "@ + path + " has "@ + decimal(format.sample_rate as nat)
                + " Hz sample rate; expected "@ + decimal(EXPECTED_SAMPLE_RATE_HZ as nat)
                + " Hz"@,
        )
    } else {
        match format.sample_format {
            WavSampleFormat::Int => if format.bits_per_sample == 0 || format.bits_per_sample > 32 {
                Err(
                    "audio file "@ + path + " has unsupported "@ + decimal(
                        format.bits_per_sample as nat,
                    ) + "-bit integer samples"@,
                )
            } else {
                Ok(SampleDecoding::Int { bits_per_sample: format.bits_per_sample })
            },
            WavSampleFormat::Float => if format.bits_per_sample != 32 {
                Err(
                    "audio file "@ + path + " has unsupported "@ + decimal(
                        format.bits_per_sample as nat,
                    ) + "-bit float samples"@,
                )
            } else {
                Ok(SampleDecoding::Float)
            },
        }
    }
}

fn refusal(path: &str, before: &str, n: u64, after: &str) -> (r: String)
    ensures
        r@ == "audio file "@ + path@ + before@ + decimal(n as nat) + after@,
{
    let mut out = String::from_str("audio file ");
    out.append(path);
    out.append(before);
    push_decimal(&mut out, n);
    out.append(after);
    out
}

/// Checks a WAV header read from the file shown as `path`.
pub fn check_wav_format(path: &str, format: WavFormat) -> (r: Result<SampleDecoding, String>)
    ensures
        match spec_check_wav_format(path@, format) {
            Ok(d) => r == Ok::<SampleDecoding, String>(d),
            Err(m) => r matches Err(e) && e@ == m,
        },
{
    if format.channels != 1 {
        return Err(refusal(path, " has ", format.channels as u64, " channels; expected mono"));
    }
    if format.sample_rate != EXPECTED_SAMPLE_RATE_HZ {
        let mut out = refusal(path, " has ", format.sample_rate as u64, " Hz sample rate; expected ");
        push_decimal(&mut out, EXPECTED_SAMPLE_RATE_HZ as u64);
        out.append(" Hz");
        return Err(out);
    }
    match format.sample_format {
        WavSampleFormat::Int => {
            if format.bits_per_sample == 0 || format.bits_per_sample > 32 {
                Err(
                    refusal(
                        path,
                        " has unsupported ",
                        format.bits_per_sample as u64,
                        "-bit integer samples",
                    ),
                )
            } else {
                Ok(SampleDecoding::Int { bits_per_sample: format.bits_per_sample })
            }
        },
        WavSampleFormat::Float => {
            if format.bits_per_sample != 32 {
                Err(
                    refusal(
                        path,
                        " has unsupported ",
                        format.bits_per_sample as u64,
                        "-bit float samples",
                    ),
                )
            } else {
                Ok(SampleDecoding::Float)
            }
        },
    }
}

/// The error for a file without samples.
pub fn no_samples_error(path: &str) -> (r: String)
    ensures
        r@ == "audio file "@ + path@ + " had no samples"@,
{
    let mut out = String::from_str("audio file ");
    out.append(path);
    out.append(" had no samples");
    out
}

} // verus!
