//! A recording as a WAV file: 16 kHz, mono, 16 bits per sample.

use vstd::prelude::*;

use super::types::{invalid_configuration, TranscriptionError};

verus! {

/// The `n`-th byte of `x`, counted from the least significant one.
pub open spec fn byte_of(x: nat, n: nat) -> u8
    decreases n,
{
    if n == 0 {
        (x % 256) as u8
    } else {
        byte_of(x / 256, (n - 1) as nat)
    }
}

/// `x` as two bytes, least significant first.
pub open spec fn le16(x: nat) -> Seq<u8> {
    seq![byte_of(x, 0), byte_of(x, 1)]
}

/// `x` as four bytes, least significant first.
pub open spec fn le32(x: nat) -> Seq<u8> {
    seq![byte_of(x, 0), byte_of(x, 1), byte_of(x, 2), byte_of(x, 3)]
}

/// A sample as two bytes in two's complement.
pub open spec fn sample_bytes(sample: i16) -> Seq<u8> {
    le16(
        if sample < 0 {
            (sample + 0x1_0000) as nat
        } else {
            sample as nat
        },
    )
}

/// The samples one after the other.
pub open spec fn data_bytes(samples: Seq<i16>) -> Seq<u8>
    decreases samples.len(),
{
    if samples.len() == 0 {
        Seq::empty()
    } else {
        data_bytes(samples.drop_last()) + sample_bytes(samples.last())
    }
}

/// The format of every recording: how many channels, how many samples of each
/// per second, and how many bits per sample.
pub const WAV_CHANNELS: u16 = 1;

pub const WAV_SAMPLE_RATE: u32 = 16000;

pub const WAV_BITS_PER_SAMPLE: u16 = 16;

/// The header in front of `n` samples: a RIFF file with a PCM format chunk
/// (one channel, 16000 samples and 32000 bytes per second, 2 bytes and 16 bits
/// per sample) and the head of the data chunk.
pub open spec fn wav_header(n: nat) -> Seq<u8> {
    let riff = seq![0x52u8, 0x49u8, 0x46u8, 0x46u8];
    let wave_fmt = seq![0x57u8, 0x41u8, 0x56u8, 0x45u8, 0x66u8, 0x6Du8, 0x74u8, 0x20u8];
    let data = seq![0x64u8, 0x61u8, 0x74u8, 0x61u8];
    riff + le32(36 + 2 * n) + wave_fmt + le32(16) + le16(1) + le16(WAV_CHANNELS as nat) + le32(
        WAV_SAMPLE_RATE as nat,
    ) + le32(32000) + le16(2) + le16(WAV_BITS_PER_SAMPLE as nat) + data + le32(2 * n)
}

/// The WAV file of the samples.
pub open spec fn wav_file(samples: Seq<i16>) -> Seq<u8> {
    wav_header(samples.len()) + data_bytes(samples)
}

/// The sizes in the header have room for `n` samples.
pub open spec fn fits_wav(n: nat) -> bool {
    36 + 2 * n <= u32::MAX
}

/// Each sample stands at its place behind the 44 bytes of the header, so the
/// samples can be read back.
pub proof fn samples_stand_behind_the_header(samples: Seq<i16>, i: int)
    requires
        0 <= i < samples.len(),
    ensures
        wav_header(samples.len()).len() == 44,
        wav_file(samples).len() == 44 + 2 * samples.len(),
        wav_file(samples).subrange(44 + 2 * i, 46 + 2 * i) == sample_bytes(samples[i]),
    decreases samples.len(),
{
    lemma_data_length(samples);
    let rest = samples.drop_last();
    lemma_data_length(rest);
    let data = data_bytes(samples);
    let file = wav_file(samples);
    if i < rest.len() {
        samples_stand_behind_the_header(rest, i);
        let before = wav_file(rest);
        assert(before.subrange(44 + 2 * i, 46 + 2 * i) =~= data_bytes(rest).subrange(
            2 * i,
            2 * i + 2,
        ));
        assert(file.subrange(44 + 2 * i, 46 + 2 * i) =~= data_bytes(rest).subrange(
            2 * i,
            2 * i + 2,
        ));
    } else {
        assert(file.subrange(44 + 2 * i, 46 + 2 * i) =~= sample_bytes(samples.last()));
    }
}

/// A WAV file has 44 bytes of header and two bytes per sample.
pub proof fn lemma_file_length(samples: Seq<i16>)
    ensures
        wav_file(samples).len() == 44 + 2 * samples.len(),
{
    lemma_data_length(samples);
}

proof fn lemma_data_length(samples: Seq<i16>)
    ensures
        data_bytes(samples).len() == 2 * samples.len(),
    decreases samples.len(),
{
    if samples.len() > 0 {
        lemma_data_length(samples.drop_last());
    }
}

/// The error of the `hound` crate.
#[verifier::external_type_specification]
#[verifier::external_body]
pub struct ExHoundError(hound::Error);

/// A `hound::WavWriter` over a byte buffer.
#[verifier::external_body]
pub struct WavSink<'a> {
    writer: hound::WavWriter<std::io::Cursor<&'a mut Vec<u8>>>,
}

/// The samples written so far.
pub uninterp spec fn written_samples(sink: WavSink<'_>) -> Seq<i16>;

/// What the buffer holds once the sink is gone.
pub uninterp spec fn target_bytes(sink: WavSink<'_>) -> Seq<u8>;

/// A sink over an empty buffer.
///
/// Calls `hound::WavWriter::new` for integer samples of the given format, which
/// must be that of every recording: the claims here and of [`finish_sink`] are
/// about no other. Trusted: the call succeeds, as the crate supports this format
/// and fails otherwise only with an error of the writer, here a cursor over a
/// vector that grows as needed; no sample is written yet, and the sink writes
/// into `buffer`.
#[verifier::external_body]
fn open_sink(
    buffer: &mut Vec<u8>,
    channels: u16,
    sample_rate: u32,
    bits_per_sample: u16,
) -> (r: Result<WavSink<'_>, hound::Error>)
    requires
        old(buffer)@.len() == 0,
        channels == WAV_CHANNELS,
        sample_rate == WAV_SAMPLE_RATE,
        bits_per_sample == WAV_BITS_PER_SAMPLE,
    ensures
        r is Ok,
        r matches Ok(sink) ==> written_samples(sink) == Seq::<i16>::empty() && target_bytes(sink)
            == final(buffer)@,
{
    let spec = hound::WavSpec {
        channels,
        sample_rate,
        bits_per_sample,
        sample_format: hound::SampleFormat::Int,
    };
    let writer = hound::WavWriter::new(std::io::Cursor::new(buffer), spec)?;
    Ok(WavSink { writer })
}

/// Writes one sample.
///
/// Calls `hound::WavWriter::write_sample`. Trusted: the call succeeds, as a
/// 16-bit sample fits the format and the buffer grows, and the sample comes after
/// those written before. The crate counts the bytes in 32 bits, so the file must
/// have room for the sample.
#[verifier::external_body]
fn write_sample(sink: &mut WavSink<'_>, sample: i16) -> (r: Result<(), hound::Error>)
    requires
        fits_wav(written_samples(*old(sink)).len() + 1),
    ensures
        r is Ok,
        target_bytes(*final(sink)) == target_bytes(*old(sink)),
        written_samples(*final(sink)) == written_samples(*old(sink)).push(sample),
{
    sink.writer.write_sample(sample)
}

/// Completes the file.
///
/// Calls `hound::WavWriter::finalize`. Trusted: the call succeeds, as with one
/// channel no sample is left unfinished and the buffer can be sought and written,
/// and the buffer then holds the WAV file of the samples written.
#[verifier::external_body]
fn finish_sink(sink: WavSink<'_>) -> (r: Result<(), hound::Error>)
    requires
        fits_wav(written_samples(sink).len()),
    ensures
        r is Ok,
        r is Ok ==> target_bytes(sink) == wav_file(written_samples(sink)),
{
    sink.writer.finalize()
}

/// The WAV file of a recording.
pub fn encode_wav(samples: &[i16]) -> (r: Result<Vec<u8>, TranscriptionError>)
    requires
        fits_wav(samples@.len()),
    ensures
        r is Ok,
        r->Ok_0@ == wav_file(samples@),
{
    let mut buffer: Vec<u8> = Vec::new();
    let finished: Result<(), TranscriptionError> = write_samples(&mut buffer, samples);
    match finished {
        Ok(_) => Ok(buffer),
        Err(error) => Err(error),
    }
}

fn write_samples(buffer: &mut Vec<u8>, samples: &[i16]) -> (r: Result<(), TranscriptionError>)
    requires
        old(buffer)@.len() == 0,
        fits_wav(samples@.len()),
    ensures
        r is Ok,
        final(buffer)@ == wav_file(samples@),
{
    let mut sink: WavSink<'_> = match open_sink(
        buffer,
        WAV_CHANNELS,
        WAV_SAMPLE_RATE,
        WAV_BITS_PER_SAMPLE,
    ) {
        Ok(sink) => sink,
        Err(_) => {
            return Err(invalid_configuration("wav header"));
        },
    };
    let ghost target = target_bytes(sink);
    let mut i: usize = 0;
    proof {
        assert(samples@.take(0) == Seq::<i16>::empty());
    }
    while i < samples.len()
        invariant
            i <= samples@.len(),
            fits_wav(samples@.len()),
            target_bytes(sink) == target,
            written_samples(sink) == samples@.take(i as int),
        decreases samples@.len() - i,
    {
        match write_sample(&mut sink, samples[i]) {
            Ok(_) => {},
            Err(_) => {
                return Err(invalid_configuration("wav sample"));
            },
        }
        proof {
            assert(samples@.take(i as int).push(samples@[i as int]) == samples@.take(i + 1));
        }
        i += 1;
    }
    proof {
        assert(samples@.take(i as int) == samples@);
    }
    match finish_sink(sink) {
        Ok(_) => Ok(()),
        Err(_) => Err(invalid_configuration("wav finalize")),
    }
}

/// The bytes of a number make it up again, least significant first.
pub proof fn bytes_make_up_their_number(x: nat)
    ensures
        x < 0x1_0000 ==> le16(x)[0] + 256 * le16(x)[1] == x,
        x < 0x1_0000_0000 ==> le32(x)[0] + 256 * le32(x)[1] + 0x1_0000 * le32(x)[2] + 0x100_0000
            * le32(x)[3] == x,
        le16(x).len() == 2,
        le32(x).len() == 4,
{
    reveal_with_fuel(byte_of, 4);
    assert(byte_of(x, 0) == x % 256);
    assert(byte_of(x, 1) == x / 256 % 256);
    assert(byte_of(x, 2) == x / 256 / 256 % 256);
    assert(byte_of(x, 3) == x / 256 / 256 / 256 % 256);
}

/// The two bytes of a sample make it up again, the upper half of their range
/// standing for the negative ones.
pub proof fn a_sample_reads_back(sample: i16)
    ensures
        ({
            let bytes = sample_bytes(sample);
            let n = bytes[0] + 256 * bytes[1];
            &&& bytes.len() == 2
            &&& n < 0x8000 ==> sample == n
            &&& n >= 0x8000 ==> sample == n - 0x1_0000
        }),
{
    let n: nat = if sample < 0 {
        (sample + 0x1_0000) as nat
    } else {
        sample as nat
    };
    bytes_make_up_their_number(n);
}

/// The header says what follows it: a RIFF file of the right size, with one
/// channel, 16000 samples per second of 16 bits each, and the size of the data.
pub proof fn the_header_says_what_follows(n: nat)
    requires
        fits_wav(n),
    ensures
        ({
            let header = wav_header(n);
            &&& header.len() == 44
            &&& header.subrange(0, 4) == seq![0x52u8, 0x49u8, 0x46u8, 0x46u8]
            &&& header.subrange(8, 12) == seq![0x57u8, 0x41u8, 0x56u8, 0x45u8]
            &&& header.subrange(36, 40) == seq![0x64u8, 0x61u8, 0x74u8, 0x61u8]
            &&& header[4] + 256 * header[5] + 0x1_0000 * header[6] + 0x100_0000 * header[7] == 36
                + 2 * n
            &&& header[22] + 256 * header[23] == 1
            &&& header[24] + 256 * header[25] + 0x1_0000 * header[26] + 0x100_0000 * header[27]
                == 16000
            &&& header[28] + 256 * header[29] + 0x1_0000 * header[30] + 0x100_0000 * header[31]
                == 16000 * 2
            &&& header[34] + 256 * header[35] == 16
            &&& header[40] + 256 * header[41] + 0x1_0000 * header[42] + 0x100_0000 * header[43]
                == 2 * n
        }),
{
    let header = wav_header(n);
    bytes_make_up_their_number(36 + 2 * n);
    bytes_make_up_their_number(2 * n);
    bytes_make_up_their_number(16000);
    bytes_make_up_their_number(32000);
    bytes_make_up_their_number(1);
    bytes_make_up_their_number(16);
    assert(header.subrange(0, 4) == seq![0x52u8, 0x49u8, 0x46u8, 0x46u8]);
    assert(header.subrange(8, 12) == seq![0x57u8, 0x41u8, 0x56u8, 0x45u8]);
    assert(header.subrange(36, 40) == seq![0x64u8, 0x61u8, 0x74u8, 0x61u8]);
    assert(header.subrange(4, 8) == le32(36 + 2 * n));
    assert(header.subrange(22, 24) == le16(1));
    assert(header.subrange(24, 28) == le32(16000));
    assert(header.subrange(28, 32) == le32(32000));
    assert(header.subrange(34, 36) == le16(16));
    assert(header.subrange(40, 44) == le32(2 * n));
    assert forall|at: int, i: int| 0 <= at && at + 4 <= 44 && 0 <= i < 4 implies header[at + i]
        == #[trigger] header.subrange(at, at + 4)[i] by {}
    assert forall|at: int, i: int| 0 <= at && at + 2 <= 44 && 0 <= i < 2 implies header[at + i]
        == #[trigger] header.subrange(at, at + 2)[i] by {}
}

} // verus!
