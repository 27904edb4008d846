//! The capture side: what the microphone delivered since the recording
//! began, and the rules for starting and stopping.

use vstd::prelude::*;
use crate::levels::{four_band_levels, levels_of, CAPTURE_BOOST};
use crate::pcm::{encode_s16le, encode_samples, encode_wav, wav_container, MAX_WAV_RATE, MAX_WAV_SAMPLES};

verus! {

/// Why a capture operation was refused.
#[derive(Debug, PartialEq)]
pub enum CaptureError {
    /// No usable input device; the text is the device layer's.
    Device(String),
    /// A recording is already running.
    AlreadyRecording,
    /// No recording is running.
    NotRecording,
    /// The recording ended without a single sample.
    EmptyCapture,
    /// The recording is too long for a container.
    Encode,
}

impl CaptureError {
    /// The text shown for the error.
    pub fn message(&self) -> (text: String)
        ensures
            text@ == match self {
                CaptureError::Device(m) => m@,
                CaptureError::AlreadyRecording => "Already recording"@,
                CaptureError::NotRecording => "Not recording"@,
                CaptureError::EmptyCapture => "No audio captured"@,
                CaptureError::Encode => "Could not encode the recording"@,
            },
    {
        match self {
            CaptureError::Device(m) => m.clone(),
            CaptureError::AlreadyRecording => "Already recording".to_owned(),
            CaptureError::NotRecording => "Not recording".to_owned(),
            CaptureError::EmptyCapture => "No audio captured".to_owned(),
            CaptureError::Encode => "Could not encode the recording".to_owned(),
        }
    }
}

/// The recorder: mono 16-bit samples at one fixed rate.
pub struct GroqRecorder {
    sample_rate: u32,
    recording: bool,
    streaming: bool,
    audio_buffer: Vec<i16>,
}

impl GroqRecorder {
    /// The rate fixed when the recorder was made.
    pub closed spec fn rate(&self) -> u32 {
        self.sample_rate
    }

    /// Whether a recording is running.
    pub closed spec fn recording(&self) -> bool {
        self.recording
    }

    /// Whether frames are also handed to a streaming sink.
    pub closed spec fn streaming(&self) -> bool {
        self.streaming
    }

    /// The samples captured since the recording began.
    pub closed spec fn samples(&self) -> Seq<i16> {
        self.audio_buffer@
    }

    /// The rate is one a container can state.
    pub closed spec fn well_formed(&self) -> bool {
        0 < self.sample_rate <= MAX_WAV_RATE
    }

    /// A recorder at `sample_rate`; `None` for a rate no container can state
    /// (zero, or above `MAX_WAV_RATE`).
    pub fn new(sample_rate: u32) -> (made: Option<GroqRecorder>)
        ensures
            made is Some <==> 0 < sample_rate <= MAX_WAV_RATE,
            made matches Some(r) ==> r.well_formed() && r.rate() == sample_rate && !r.recording()
                && !r.streaming() && r.samples() == Seq::<i16>::empty(),
    {
        if sample_rate == 0 || sample_rate > MAX_WAV_RATE {
            None
        } else {
            Some(GroqRecorder { sample_rate, recording: false, streaming: false, audio_buffer: Vec::new() })
        }
    }

    /// The rate fixed when the recorder was made.
    pub fn sample_rate(&self) -> (rate: u32)
        ensures
            rate == self.rate(),
    {
        self.sample_rate
    }

    /// Whether a recording is running.
    pub fn is_recording(&self) -> (recording: bool)
        ensures
            recording == self.recording(),
    {
        self.recording
    }

    /// The four-band levels of what the microphone delivered last, each
    /// between 0 and 1000; all zero while no recording runs.
    pub fn get_audio_levels(&self) -> (levels: [u16; 4])
        ensures
            levels@ == if self.recording() {
                levels_of(self.samples(), CAPTURE_BOOST as nat)
            } else {
                seq![0u16, 0u16, 0u16, 0u16]
            },
            forall|i: int| 0 <= i < 4 ==> levels@[i] <= 1000,
    {
        if !self.recording {
            let levels = [0u16, 0u16, 0u16, 0u16];
            assert(levels@ =~= seq![0u16, 0u16, 0u16, 0u16]);
            return levels;
        }
        four_band_levels(self.audio_buffer.as_slice(), CAPTURE_BOOST)
    }

    /// Installs or removes the streaming sink.
    pub fn set_streaming_callback(&mut self, installed: bool)
        ensures
            final(self).streaming() == installed,
            final(self).rate() == old(self).rate(),
            final(self).recording() == old(self).recording(),
            final(self).samples() == old(self).samples(),
            final(self).well_formed() == old(self).well_formed(),
    {
        self.streaming = installed;
    }

    /// Begins a recording. `device` is how opening the input stream went.
    /// A running recording refuses and changes nothing; otherwise earlier
    /// audio is dropped, and the recording runs exactly when the stream
    /// opened.
    pub fn start_recording(&mut self, device: Result<(), String>) -> (started: Result<(), CaptureError>)
        ensures
            final(self).rate() == old(self).rate(),
            final(self).streaming() == old(self).streaming(),
            final(self).well_formed() == old(self).well_formed(),
            old(self).recording() ==> started == Err::<(), CaptureError>(CaptureError::AlreadyRecording)
                && final(self).recording() && final(self).samples() == old(self).samples(),
            !old(self).recording() ==> final(self).samples() == Seq::<i16>::empty() && match device {
                Ok(_) => started is Ok && final(self).recording(),
                Err(m) => started == Err::<(), CaptureError>(CaptureError::Device(m))
                    && !final(self).recording(),
            },
    {
        if self.recording {
            return Err(CaptureError::AlreadyRecording);
        }
        self.audio_buffer.clear();
        match device {
            Ok(_) => {
                self.recording = true;
                Ok(())
            },
            Err(m) => Err(CaptureError::Device(m)),
        }
    }

    /// One frame from the input callback. While a recording runs the frame
    /// is kept; where a sink is installed the frame's bytes are handed back
    /// for it, the same samples that were kept.
    pub fn capture_frame(&mut self, frame: &[i16]) -> (for_sink: Option<Vec<u8>>)
        ensures
            final(self).rate() == old(self).rate(),
            final(self).streaming() == old(self).streaming(),
            final(self).recording() == old(self).recording(),
            final(self).well_formed() == old(self).well_formed(),
            final(self).samples() == if old(self).recording() {
                old(self).samples() + frame@
            } else {
                old(self).samples()
            },
            match for_sink {
                Some(bytes) => old(self).recording() && old(self).streaming() && bytes@ == encode_s16le(
                    frame@,
                ),
                None => !(old(self).recording() && old(self).streaming()),
            },
    {
        if !self.recording {
            return None;
        }
        let ghost before = self.audio_buffer@;
        let mut i: usize = 0;
        while i < frame.len()
            invariant
                i <= frame@.len(),
                self.audio_buffer@ == before + frame@.take(i as int),
                self.sample_rate == old(self).sample_rate,
                self.streaming == old(self).streaming,
                self.recording == old(self).recording,
            decreases frame.len() - i,
        {
            self.audio_buffer.push(frame[i]);
            i += 1;
            assert(self.audio_buffer@ =~= before + frame@.take(i as int));
        }
        assert(frame@.take(frame@.len() as int) =~= frame@);
        if self.streaming {
            Some(encode_samples(frame))
        } else {
            None
        }
    }

    /// Ends the recording and wraps what was captured in its container.
    /// Refused with `NotRecording` exactly when none runs, with
    /// `EmptyCapture` exactly when one runs without a sample, and with
    /// `Encode` exactly when one runs with more than `MAX_WAV_SAMPLES`
    /// samples. Every other recording gives its container.
    pub fn stop_recording(&mut self) -> (stopped: Result<Vec<u8>, CaptureError>)
        requires
            old(self).well_formed(),
        ensures
            final(self).well_formed(),
            final(self).rate() == old(self).rate(),
            final(self).streaming() == old(self).streaming(),
            final(self).samples() == old(self).samples(),
            !final(self).recording(),
            if !old(self).recording() {
                stopped == Err::<Vec<u8>, CaptureError>(CaptureError::NotRecording)
            } else if old(self).samples().len() == 0 {
                stopped == Err::<Vec<u8>, CaptureError>(CaptureError::EmptyCapture)
            } else if old(self).samples().len() > MAX_WAV_SAMPLES {
                stopped == Err::<Vec<u8>, CaptureError>(CaptureError::Encode)
            } else {
                stopped matches Ok(bytes) && bytes@ == wav_container(old(self).rate(), old(self).samples())
            },
    {
        if !self.recording {
            return Err(CaptureError::NotRecording);
        }
        self.recording = false;
        if self.audio_buffer.len() == 0 {
            return Err(CaptureError::EmptyCapture);
        }
        if self.audio_buffer.len() > MAX_WAV_SAMPLES {
            return Err(CaptureError::Encode);
        }
        finish_capture(encode_wav(self.sample_rate, self.audio_buffer.as_slice()))
    }
}

/// A recorder without a microphone, for machines that have none: it
/// "records" one second of silence.
pub struct MockGroqRecorder {
    recording: bool,
}

impl MockGroqRecorder {
    /// Whether the mock records.
    pub closed spec fn recording(&self) -> bool {
        self.recording
    }

    /// A mock that does not record.
    pub fn new() -> (mock: MockGroqRecorder)
        ensures
            !mock.recording(),
    {
        MockGroqRecorder { recording: false }
    }

    /// Begins to "record".
    pub fn start_recording(&mut self)
        ensures
            final(self).recording(),
    {
        self.recording = true;
    }

    /// Whether the mock records.
    pub fn is_recording(&self) -> (recording: bool)
        ensures
            recording == self.recording(),
    {
        self.recording
    }

    /// Stops, and returns one second of silence at 16 kHz in its container.
    pub fn stop_recording(&mut self) -> (stopped: Result<Vec<u8>, CaptureError>)
        ensures
            !final(self).recording(),
            stopped matches Ok(bytes) && bytes@ == wav_container(16000, Seq::new(16000, |i: int| 0i16)),
    {
        self.recording = false;
        let mut silence: Vec<i16> = Vec::new();
        let mut i: usize = 0;
        while i < 16000
            invariant
                i <= 16000,
                silence@.len() == i,
                forall|k: int| 0 <= k < i ==> silence@[k] == 0i16,
            decreases 16000 - i,
        {
            silence.push(0);
            i += 1;
        }
        assert(silence@ =~= Seq::new(16000, |i: int| 0i16));
        finish_capture(encode_wav(16000, silence.as_slice()))
    }

    /// The level to show: half of `chance` while recording, nothing
    /// otherwise. `chance` is a random reading in thousandths.
    pub fn get_audio_level(&self, chance: u16) -> (level: u16)
        ensures
            level == if self.recording() {
                chance / 2
            } else {
                0
            },
    {
        if self.recording {
            chance / 2
        } else {
            0
        }
    }
}

/// What a stop returns once the writer has answered: the container, or
/// `Encode` where there is none.
pub fn finish_capture(written: Option<Vec<u8>>) -> (stopped: Result<Vec<u8>, CaptureError>)
    ensures
        match written {
            Some(bytes) => stopped == Ok::<Vec<u8>, CaptureError>(bytes),
            None => stopped == Err::<Vec<u8>, CaptureError>(CaptureError::Encode),
        },
{
    match written {
        Some(bytes) => Ok(bytes),
        None => Err(CaptureError::Encode),
    }
}

} // verus!
