//! Playback preparation: decoding the bytes of a waveform file into 16-bit
//! PCM samples and handing them out frame by frame to an audio sink.

use vstd::prelude::*;

verus! {

/// What hound decodes the bytes of a waveform file to: the interleaved
/// 16-bit samples, or nothing when the bytes are not a decodable file of
/// such samples. Decoding reads the bytes alone, so the result is a
/// function of them.
pub uninterp spec fn wav_samples_of(bytes: Seq<u8>) -> Option<Seq<i16>>;

/// Relies on hound's `WavReader` over an in-memory reader: the header and
/// the sample stream are decoded from the given bytes and nothing else.
#[verifier::external_body]
fn decode_wav_samples(bytes: &Vec<u8>) -> (r: Option<Vec<i16>>)
    ensures
        r is Some <==> wav_samples_of(bytes@) is Some,
        r is Some ==> r->0@ == wav_samples_of(bytes@)->0,
{
    match hound::WavReader::new(std::io::Cursor::new(bytes.as_slice())) {
        Ok(mut reader) => reader.samples::<i16>().collect::<Result<Vec<i16>, _>>().ok(),
        Err(_) => None,
    }
}

/// The mathematical state of a [`PcmSource`].
pub ghost struct PcmSourceV {
    /// Whether the samples are interleaved stereo.
    pub stereo: bool,
    /// All samples, in order.
    pub samples: Seq<i16>,
    /// How many samples have been handed out so far.
    pub pos: int,
}

/// A pool of interleaved PCM samples that hands itself out in fixed-size
/// frames.
pub struct PcmSource {
    stereo: bool,
    samples: Vec<i16>,
    pos: usize,
}

impl View for PcmSource {
    type V = PcmSourceV;

    closed spec fn view(&self) -> PcmSourceV {
        PcmSourceV { stereo: self.stereo, samples: self.samples@, pos: self.pos as int }
    }
}

impl PcmSource {
    /// The read position never passes the end of the samples.
    pub open spec fn wf(&self) -> bool {
        0 <= self@.pos <= self@.samples.len()
    }

    pub fn is_stereo(&self) -> (r: bool)
        ensures
            r == self@.stereo,
    {
        self.stereo
    }

    /// Fills the buffer with the next samples. When enough remain, the whole
    /// buffer is written and its length returned; when they run out first,
    /// the remaining samples are written to the buffer's front, the rest of
    /// the buffer is left as it was, and nothing is returned.
    pub fn read_frame(&mut self, buffer: &mut Vec<i16>) -> (r: Option<usize>)
        requires
            old(self).wf(),
        ensures
            final(self).wf(),
            final(self)@.stereo == old(self)@.stereo,
            final(self)@.samples == old(self)@.samples,
            final(buffer)@.len() == old(buffer)@.len(),
            r is Some <==> old(self)@.pos + old(buffer)@.len() <= old(self)@.samples.len(),
            r is Some ==> r->0 == old(buffer)@.len() && final(self)@.pos == old(self)@.pos + old(
                buffer,
            )@.len() && final(buffer)@ == old(self)@.samples.subrange(
                old(self)@.pos,
                old(self)@.pos + old(buffer)@.len(),
            ),
            r is None ==> final(self)@.pos == old(self)@.samples.len() && (forall|k: int|
                0 <= k < old(self)@.samples.len() - old(self)@.pos ==> final(buffer)@[k] == old(
                    self,
                )@.samples[old(self)@.pos + k]) && (forall|k: int|
                old(self)@.samples.len() - old(self)@.pos <= k < final(buffer)@.len()
                    ==> final(buffer)@[k] == old(buffer)@[k]),
    {
        let n = buffer.len();
        let mut i: usize = 0;
        while i < n
            invariant
                old(self).wf(),
                self.wf(),
                n == buffer@.len() == old(buffer)@.len(),
                i <= n,
                self@.stereo == old(self)@.stereo,
                self@.samples == old(self)@.samples,
                self@.pos == old(self)@.pos + i,
                forall|k: int| 0 <= k < i ==> buffer@[k] == old(self)@.samples[old(self)@.pos + k],
                forall|k: int| i <= k < n ==> buffer@[k] == old(buffer)@[k],
            decreases n - i,
        {
            if self.pos >= self.samples.len() {
                return None;
            }
            buffer[i] = self.samples[self.pos];
            self.pos = self.pos + 1;
            i = i + 1;
        }
        proof {
            assert(buffer@ =~= old(self)@.samples.subrange(
                old(self)@.pos,
                old(self)@.pos + old(buffer)@.len(),
            ));
        }
        Some(n)
    }
}

/// Builds a sample source positioned at the first sample.
pub fn create_pcm_source(stereo: bool, read: Vec<i16>) -> (s: PcmSource)
    ensures
        s.wf(),
        s@ == (PcmSourceV { stereo, samples: read@, pos: 0 }),
{
    PcmSource { stereo, samples: read, pos: 0 }
}

/// The waveform file for a sound name: the name followed by ".wav".
pub fn sound_file_name(name: &str) -> (r: String)
    ensures
        r@ == name@ + ".wav"@,
{
    String::from_str(name).concat(".wav")
}

/// Turns the bytes of a sound file, when the file was found and decodes,
/// into a playable stereo source positioned at the start.
pub fn prepare_sound(file_bytes: Option<Vec<u8>>) -> (r: Option<PcmSource>)
    ensures
        r is Some <==> file_bytes is Some && wav_samples_of(file_bytes->0@) is Some,
        r is Some ==> r->0.wf() && r->0@ == (PcmSourceV {
            stereo: true,
            samples: wav_samples_of(file_bytes->0@)->0,
            pos: 0,
        }),
{
    match file_bytes {
        Option::Some(bytes) => match decode_wav_samples(&bytes) {
            Option::Some(samples) => Option::Some(create_pcm_source(true, samples)),
            Option::None => Option::None,
        },
        Option::None => Option::None,
    }
}

} // verus!
