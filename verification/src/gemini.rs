//! Remote speech recognition, compute side: packing an utterance into a
//! WAV container, base64-encoding it, framing the request body, and
//! extracting the transcript from the decoded response.
//!
//! The HTTP exchange itself happens outside the library; everything that
//! determines the bytes sent and the text kept is verified here.

use vstd::prelude::*;

use base64::Engine as _;

use crate::text::{trim_of, trimmed};

verus! {

/// The two little-endian bytes of a 16-bit value.
pub open spec fn le_u16(x: u16) -> Seq<u8> {
    seq![(x & 0xff) as u8, (x >> 8) as u8]
}

/// The four little-endian bytes of a 32-bit value.
pub open spec fn le_u32(x: u32) -> Seq<u8> {
    seq![
        (x & 0xff) as u8,
        ((x >> 8) & 0xff) as u8,
        ((x >> 16) & 0xff) as u8,
        ((x >> 24) & 0xff) as u8,
    ]
}

/// The two little-endian bytes of one PCM sample.
pub open spec fn le_i16(s: i16) -> Seq<u8> {
    le_u16(s as u16)
}

/// The PCM data chunk: every sample in order, each as two little-endian
/// bytes.
pub open spec fn pcm_bytes(samples: Seq<i16>) -> Seq<u8>
    decreases samples.len(),
{
    if samples.len() == 0 {
        Seq::<u8>::empty()
    } else {
        pcm_bytes(samples.drop_last()) + le_i16(samples.last())
    }
}

/// The 44-byte header of a mono, 16 kHz, 16-bit PCM WAV file holding
/// `n_samples` samples.
pub open spec fn wav_header(n_samples: nat) -> Seq<u8> {
    seq![0x52u8, 0x49u8, 0x46u8, 0x46u8]  // "RIFF"
     + le_u32((36 + 2 * n_samples) as u32) + seq![0x57u8, 0x41u8, 0x56u8, 0x45u8]  // "WAVE"
     + seq![0x66u8, 0x6du8, 0x74u8, 0x20u8]  // "fmt "
     + le_u32(16)  // PCM format chunk length
     + le_u16(1)  // PCM, uncompressed
     + le_u16(1)  // mono
     + le_u32(16000)  // sample rate
     + le_u32(32000)  // byte rate
     + le_u16(2)  // block align
     + le_u16(16)  // bits per sample
     + seq![0x64u8, 0x61u8, 0x74u8, 0x61u8]  // "data"
     + le_u32((2 * n_samples) as u32)
}

/// The complete WAV file for an utterance.
pub open spec fn wav_bytes(samples: Seq<i16>) -> Seq<u8> {
    wav_header(samples.len()) + pcm_bytes(samples)
}

/// Utterances long enough to overflow the 32-bit WAV size fields cannot be
/// encoded.
pub open spec fn wav_encodable(samples: Seq<i16>) -> bool {
    36 + 2 * samples.len() <= 0xffff_ffff
}

fn push_le_u16(out: &mut Vec<u8>, x: u16)
    ensures
        final(out)@ == old(out)@ + le_u16(x),
{
    let low = x & 0xff;
    let high = x >> 8;
    assert(low <= 0xff && high <= 0xff) by (bit_vector)
        requires
            low == x & 0xff && high == x >> 8,
    ;
    out.push(low as u8);
    out.push(high as u8);
    assert(out@ =~= old(out)@ + le_u16(x));
}

fn push_le_u32(out: &mut Vec<u8>, x: u32)
    ensures
        final(out)@ == old(out)@ + le_u32(x),
{
    let b0 = x & 0xff;
    let b1 = (x >> 8) & 0xff;
    let b2 = (x >> 16) & 0xff;
    let b3 = (x >> 24) & 0xff;
    assert(b0 <= 0xff && b1 <= 0xff && b2 <= 0xff && b3 <= 0xff) by (bit_vector)
        requires
            b0 == x & 0xff && b1 == (x >> 8) & 0xff && b2 == (x >> 16) & 0xff && b3 == (x >> 24)
                & 0xff,
    ;
    out.push(b0 as u8);
    out.push(b1 as u8);
    out.push(b2 as u8);
    out.push(b3 as u8);
    assert(out@ =~= old(out)@ + le_u32(x));
}

/// Packs an utterance into a WAV container: the standard 44-byte header
/// for mono 16 kHz 16-bit PCM, followed by the samples in little-endian
/// byte order.
pub fn pcm_to_wav(samples: &Vec<i16>) -> (r: Vec<u8>)
    requires
        wav_encodable(samples@),
    ensures
        r@ == wav_bytes(samples@),
        r@.len() == 44 + 2 * samples@.len(),
{
    let n: usize = samples.len();
    let data_len: u32 = (n as u32) * 2;
    let mut out: Vec<u8> = Vec::new();
    out.push(0x52);
    out.push(0x49);
    out.push(0x46);
    out.push(0x46);
    push_le_u32(&mut out, 36 + data_len);
    out.push(0x57);
    out.push(0x41);
    out.push(0x56);
    out.push(0x45);
    out.push(0x66);
    out.push(0x6d);
    out.push(0x74);
    out.push(0x20);
    push_le_u32(&mut out, 16);
    push_le_u16(&mut out, 1);
    push_le_u16(&mut out, 1);
    push_le_u32(&mut out, 16000);
    push_le_u32(&mut out, 32000);
    push_le_u16(&mut out, 2);
    push_le_u16(&mut out, 16);
    out.push(0x64);
    out.push(0x61);
    out.push(0x74);
    out.push(0x61);
    push_le_u32(&mut out, data_len);
    assert(out@ =~= wav_header(samples@.len() as nat));

    let mut i: usize = 0;
    while i < n
        invariant
            i <= n,
            n == samples@.len(),
            out@ == wav_header(samples@.len() as nat) + pcm_bytes(samples@.subrange(0, i as int)),
        decreases n - i,
    {
        let s = samples[i];
        let u = #[verifier::truncate] (s as u16);
        push_le_u16(&mut out, u);
        proof {
            let prefix = samples@.subrange(0, i as int);
            let extended = samples@.subrange(0, i + 1);
            assert(extended.drop_last() =~= prefix);
            assert(extended.last() == samples@[i as int]);
            assert(out@ =~= wav_header(samples@.len() as nat) + pcm_bytes(extended));
        }
        i = i + 1;
    }
    assert(samples@.subrange(0, n as int) =~= samples@);
    proof {
        lemma_pcm_bytes_len(samples@);
    }
    out
}

/// Each sample contributes exactly two bytes to the data chunk.
pub proof fn lemma_pcm_bytes_len(samples: Seq<i16>)
    ensures
        pcm_bytes(samples).len() == 2 * samples.len(),
    decreases samples.len(),
{
    if samples.len() > 0 {
        lemma_pcm_bytes_len(samples.drop_last());
    }
}

/// The base64 text of a byte string, as the standard alphabet with padding
/// encodes it.  The result depends on the bytes alone.
pub uninterp spec fn base64_of(bytes: Seq<u8>) -> Seq<char>;

/// Relies on `base64::engine::general_purpose::STANDARD.encode`: standard
/// alphabet, padded, so the output is four characters for every started
/// group of three input bytes.  The length bound keeps the encoder's size
/// computation from overflowing.
#[verifier::external_body]
fn base64_encode(bytes: &Vec<u8>) -> (r: String)
    requires
        bytes@.len() <= 0x1000_0000,
    ensures
        r@ == base64_of(bytes@),
        r@.len() == 4 * ((bytes@.len() + 2) / 3),
{
    base64::engine::general_purpose::STANDARD.encode(bytes)
}

/// Encodes an utterance as base64 WAV, the inline audio payload of the
/// remote recognition request.
pub fn convert_audio_to_base64(samples: &Vec<i16>) -> (r: String)
    requires
        samples@.len() <= 0x100_0000,
    ensures
        r@ == base64_of(wav_bytes(samples@)),
{
    let wav = pcm_to_wav(samples);
    base64_encode(&wav)
}

/// The instruction sent along with the audio.
pub open spec fn transcription_prompt() -> Seq<char> {
    "Распознай речь из этого аудио и верни только текст без дополнительных пояснений."@
}

/// Frames the request body around the encoded audio: one text part holding
/// the instruction, one inline-data part holding the WAV payload tagged
/// with its MIME type.  Both surrounding pieces are fixed, so the body is
/// exactly prefix + audio + suffix.
pub fn build_request_body(audio_base64: &str) -> (r: String)
    ensures
        r@ == "{\"contents\":[{\"parts\":[{\"text\":\""@ + transcription_prompt()
            + "\"},{\"inline_data\":{\"mime_type\":\"audio/wav\",\"data\":\""@ + audio_base64@
            + "\"}}]}]}"@,
{
    let mut body = String::from_str("{\"contents\":[{\"parts\":[{\"text\":\"");
    body.append("Распознай речь из этого аудио и верни только текст без дополнительных пояснений.");
    body.append("\"},{\"inline_data\":{\"mime_type\":\"audio/wav\",\"data\":\"");
    body.append(audio_base64);
    body.append("\"}}]}]}");
    body
}

/// One answer part of the remote recognizer's response.
#[derive(Debug, Clone)]
pub struct ResponsePart {
    pub text: String,
}

/// The content of one response candidate.
#[derive(Debug, Clone)]
pub struct ResponseContent {
    pub parts: Vec<ResponsePart>,
}

/// One candidate answer of the remote recognizer.
#[derive(Debug, Clone)]
pub struct Candidate {
    pub content: ResponseContent,
}

/// The decoded response of the remote recognizer.
#[derive(Debug, Clone)]
pub struct GeminiResponse {
    pub candidates: Vec<Candidate>,
}

/// The transcript of a response: the trimmed text of the first part of the
/// first candidate.  A response without any candidate or part carries the
/// empty transcript, which is not an error.
pub fn transcript_of_response(response: &GeminiResponse) -> (r: String)
    ensures
        if response.candidates@.len() > 0 && response.candidates@[0].content.parts@.len() > 0 {
            r@ == trim_of(response.candidates@[0].content.parts@[0].text@)
        } else {
            r@ == Seq::<char>::empty()
        },
{
    if response.candidates.len() > 0 {
        let content = &response.candidates[0].content;
        if content.parts.len() > 0 {
            let t = trimmed(content.parts[0].text.as_str());
            return String::from_str(t);
        }
    }
    String::new()
}

} // verus!
