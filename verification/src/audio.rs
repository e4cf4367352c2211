//! Audio payload encoding for remote transcription: captured mono samples,
//! already quantized to 16-bit PCM, become an in-memory WAV container and
//! then a base64 data URI.
use vstd::prelude::*;

verus! {

/// Sample rate the recognition engine expects, in Hz.
pub const SAMPLE_RATE: u32 = 16000;

/// The most samples one WAV container can carry: its 32-bit size fields
/// count the two data bytes per sample plus 36 bytes of header.
pub const MAX_WAV_SAMPLES: usize = 2147483629;

/// Names the WAV container `hound` builds for a mono 16-bit PCM stream at
/// `SAMPLE_RATE`.
pub uninterp spec fn wav_bytes_of(samples: Seq<i16>) -> Seq<u8>;

/// Relies on `hound::WavWriter`: writes the samples as a single-channel
/// 16-bit PCM WAV file into an in-memory buffer; the bytes depend on the
/// samples alone. With the sample count bounded so the container's 32-bit
/// size fields cannot overflow, writing into the in-memory buffer cannot
/// fail.
#[verifier::external_body]
pub fn encode_audio_to_wav_bytes(samples: &Vec<i16>) -> (r: Vec<u8>)
    requires
        samples@.len() <= MAX_WAV_SAMPLES,
    ensures
        r@ == wav_bytes_of(samples@),
{
    let mut cursor = std::io::Cursor::new(Vec::new());
    let fmt = hound::SampleFormat::Int;
    let spec =
        hound::WavSpec { channels: 1, sample_rate: SAMPLE_RATE, bits_per_sample: 16, sample_format: fmt };
    let mut writer = hound::WavWriter::new(&mut cursor, spec).expect("in-memory WAV writer");
    for sample in samples {
        writer.write_sample(*sample).expect("in-memory WAV write");
    }
    writer.finalize().expect("in-memory WAV finalize");
    cursor.into_inner()
}

/// Names the base64 text of a byte sequence.
pub uninterp spec fn base64_of(b: Seq<u8>) -> Seq<char>;

/// Relies on `base64::engine::general_purpose::STANDARD.encode`: the padded
/// standard-alphabet encoding, a function of the input bytes alone.
#[verifier::external_body]
fn base64_encode(b: &Vec<u8>) -> (r: String)
    ensures
        r@ == base64_of(b@),
{
    base64::Engine::encode(&base64::engine::general_purpose::STANDARD, b)
}

/// The data URI carrying the WAV container for `samples`.
pub open spec fn spec_wav_data_uri(samples: Seq<i16>) -> Seq<char> {
    "data:audio/wav;base64,"@ + base64_of(wav_bytes_of(samples))
}

/// Encodes the samples as a WAV container and embeds it in a base64 data
/// URI.
pub fn encode_audio_to_wav_base64(samples: &Vec<i16>) -> (r: String)
    requires
        samples@.len() <= MAX_WAV_SAMPLES,
    ensures
        r@ == spec_wav_data_uri(samples@),
{
    let bytes = encode_audio_to_wav_bytes(samples);
    let encoded = base64_encode(&bytes);
    let mut uri = String::from_str("data:audio/wav;base64,");
    uri.append(encoded.as_str());
    uri
}

} // verus!
