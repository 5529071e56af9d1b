//! The decisions of the capture loop.
//!
//! The loop itself polls a capture source, sleeps and samples the keyboard;
//! it hands each outcome to a `CaptureLoop`, which keeps the rolling window
//! of frames and says what to do next. A triggered snapshot is a copy that
//! shares nothing with the window, so an encoder can work on it while
//! capture goes on.

use vstd::prelude::*;
use crate::circular_buffer::{keep_latest, BufferError, CircularBuffer};
use crate::frame::{frame_values, ClipFrame};
use crate::hotkey::{classify_keys, Action, Chord, HotkeyDetector, KeyCode};

verus! {

/// The pause between two polls of a capture source that has no frame yet.
#[derive(Debug, Clone, Copy, PartialEq, Eq, Structural)]
pub struct RateGate {
    interval: u32,
}

impl RateGate {
    /// The pause in nanoseconds.
    pub closed spec fn spec_interval(&self) -> nat {
        self.interval as nat
    }

    /// Paces polling for a rate in frames per second: the pause is one second
    /// divided by the rate, in whole nanoseconds. A rate of zero has none.
    pub fn new(fps: u32) -> (gate: Option<RateGate>)
        ensures
            gate.is_some() <==> fps > 0,
            gate matches Some(g) ==> g.spec_interval() == 1_000_000_000nat / (fps as nat),
    {
        if fps == 0 {
            None
        } else {
            Some(RateGate { interval: 1_000_000_000u32 / fps })
        }
    }

    /// The pause in nanoseconds.
    pub fn interval_nanos(&self) -> (nanos: u32)
        ensures
            nanos == self.spec_interval(),
    {
        self.interval
    }
}

/// Whether a capture session is still running.
#[derive(Debug, Clone, Copy, PartialEq, Eq, Structural)]
pub enum LoopState {
    /// Frames are being captured.
    Capturing,
    /// The capture source failed for good; the session is over.
    Terminated,
}

/// What one poll of the capture source gave.
#[derive(Debug)]
pub enum Poll {
    /// A frame, with the nanoseconds since the frame before it.
    Frame { pixels: Vec<u8>, elapsed: u64 },
    /// No frame yet; expected between frames.
    NotReady,
    /// Any other failure of the source.
    Failed,
}

/// What the loop does after a poll.
#[derive(Debug, Clone, Copy, PartialEq, Eq, Structural)]
pub enum PollOutcome {
    /// The frame is in the window; the delay timer starts again.
    Stored,
    /// Sleep for this many nanoseconds, then poll again.
    Wait(u32),
    /// Leave the loop.
    Stop,
}

/// A snapshot on its way to an encoder. It owns its frames.
#[derive(Debug)]
pub struct EncodeTask {
    /// The frames of the window, oldest first.
    pub frames: Vec<ClipFrame>,
    /// Width and height of every frame, in pixels.
    pub dimensions: (usize, usize),
    /// Which of the configured chords asked for it.
    pub chord: usize,
}

/// The window's capacity for a rate and a duration in seconds, where it is
/// at least one and fits the machine.
pub open spec fn window_capacity(fps: u32, duration: usize) -> Option<usize> {
    if 0 < fps * duration <= usize::MAX {
        Some((fps * duration) as usize)
    } else {
        None
    }
}

/// The state of one capture session.
pub struct CaptureLoop {
    frames: CircularBuffer<ClipFrame>,
    detector: HotkeyDetector,
    gate: RateGate,
    dimensions: (usize, usize),
    state: LoopState,
}

impl CaptureLoop {
    /// The representation invariant.
    pub closed spec fn wf(&self) -> bool {
        self.frames.wf()
    }

    /// The frames in the window, oldest first.
    pub closed spec fn frames(&self) -> Seq<ClipFrame> {
        self.frames@
    }

    /// The number of frames that the window keeps.
    pub closed spec fn capacity(&self) -> nat {
        self.frames.spec_capacity()
    }

    /// The chords that trigger a snapshot.
    pub closed spec fn chords(&self) -> Seq<Chord> {
        self.detector.chords()
    }

    /// The keys that were down at the last sample.
    pub closed spec fn previous_keys(&self) -> Set<KeyCode> {
        self.detector.previous()
    }

    /// The pause between polls that give no frame, in nanoseconds.
    pub closed spec fn wait_nanos(&self) -> nat {
        self.gate.spec_interval()
    }

    /// Width and height of the frames.
    pub closed spec fn dimensions(&self) -> (usize, usize) {
        self.dimensions
    }

    /// Whether the session is running.
    pub closed spec fn state(&self) -> LoopState {
        self.state
    }

    /// A session that keeps `duration` seconds of frames at `fps` frames
    /// per second. A window of no frames, or of more than the machine can
    /// count, is an invalid capacity.
    pub fn new(fps: u32, duration: usize, dimensions: (usize, usize), chords: Vec<Chord>) -> (made:
        Result<CaptureLoop, BufferError>)
        ensures
            made is Ok <==> window_capacity(fps, duration).is_some(),
            made matches Err(e) ==> e == BufferError::InvalidCapacity,
            made matches Ok(session) ==> {
                &&& session.wf()
                &&& session.state() == LoopState::Capturing
                &&& session.frames() == Seq::<ClipFrame>::empty()
                &&& session.capacity() == fps * duration
                &&& window_capacity(fps, duration) == Some(session.capacity() as usize)
                &&& session.chords() == chords@
                &&& session.previous_keys() == Set::<KeyCode>::empty()
                &&& session.wait_nanos() == 1_000_000_000nat / (fps as nat)
                &&& session.dimensions() == dimensions
            },
    {
        let gate = match RateGate::new(fps) {
            Some(gate) => gate,
            None => {
                assert(fps * duration == 0) by (nonlinear_arith)
                    requires
                        fps == 0,
                ;
                return Err(BufferError::InvalidCapacity);
            },
        };
        let capacity: usize = match duration.checked_mul(fps as usize) {
            Some(capacity) => capacity,
            None => {
                assert(fps * duration == duration * (fps as usize)) by (nonlinear_arith);
                return Err(BufferError::InvalidCapacity);
            },
        };
        assert(fps * duration == duration * (fps as usize)) by (nonlinear_arith);
        match CircularBuffer::new(capacity) {
            Ok(frames) => Ok(
                CaptureLoop {
                    frames,
                    detector: HotkeyDetector::new(chords),
                    gate,
                    dimensions,
                    state: LoopState::Capturing,
                },
            ),
            Err(e) => Err(e),
        }
    }

    /// Whether the session is running.
    pub fn is_capturing(&self) -> (running: bool)
        ensures
            running == (self.state() == LoopState::Capturing),
    {
        match self.state {
            LoopState::Capturing => true,
            LoopState::Terminated => false,
        }
    }

    /// The window has room for at least one frame and never holds more
    /// than it has room for.
    pub proof fn lemma_window_bounds(&self)
        requires
            self.wf(),
        ensures
            self.capacity() > 0,
            self.frames().len() <= self.capacity(),
    {
        crate::circular_buffer::lemma_buffer_bounds(&self.frames);
    }

    /// The number of frames in the window.
    pub fn len(&self) -> (count: usize)
        requires
            self.wf(),
        ensures
            count == self.frames().len(),
            count <= self.capacity(),
    {
        self.frames.len()
    }

    /// A copy of the window, oldest frame first. The window stays as it is.
    pub fn snapshot(&self) -> (frames: Vec<ClipFrame>)
        requires
            self.wf(),
        ensures
            frame_values(frames@) == frame_values(self.frames()),
    {
        let frames = self.frames.clone_buffer();
        assert(frame_values(frames@) =~= frame_values(self.frames@));
        frames
    }

    /// Takes in what a poll of the capture source gave. A frame goes into
    /// the window; no frame yet means a pause of one gate interval; any
    /// other failure ends the session. Once the session is over nothing
    /// changes any more.
    pub fn on_poll(&mut self, poll: Poll) -> (outcome: PollOutcome)
        requires
            old(self).wf(),
        ensures
            final(self).wf(),
            final(self).capacity() == old(self).capacity(),
            final(self).chords() == old(self).chords(),
            final(self).previous_keys() == old(self).previous_keys(),
            final(self).wait_nanos() == old(self).wait_nanos(),
            final(self).dimensions() == old(self).dimensions(),
            old(self).state() == LoopState::Terminated ==> outcome == PollOutcome::Stop
                && final(self).state() == LoopState::Terminated && final(self).frames() == old(
                self,
            ).frames(),
            old(self).state() == LoopState::Capturing ==> match poll {
                Poll::Frame { pixels, elapsed } => {
                    &&& outcome == PollOutcome::Stored
                    &&& final(self).state() == LoopState::Capturing
                    &&& final(self).frames() == keep_latest(
                        old(self).frames().push(ClipFrame { frame: pixels, delay: elapsed }),
                        old(self).capacity(),
                    )
                },
                Poll::NotReady => {
                    &&& outcome == PollOutcome::Wait(old(self).wait_nanos() as u32)
                    &&& final(self).state() == LoopState::Capturing
                    &&& final(self).frames() == old(self).frames()
                },
                Poll::Failed => {
                    &&& outcome == PollOutcome::Stop
                    &&& final(self).state() == LoopState::Terminated
                    &&& final(self).frames() == old(self).frames()
                },
            },
    {
        if !self.is_capturing() {
            return PollOutcome::Stop;
        }
        match poll {
            Poll::Frame { pixels, elapsed } => {
                self.frames.add(ClipFrame { frame: pixels, delay: elapsed });
                PollOutcome::Stored
            },
            Poll::NotReady => PollOutcome::Wait(self.gate.interval_nanos()),
            Poll::Failed => {
                self.state = LoopState::Terminated;
                PollOutcome::Stop
            },
        }
    }

    /// Takes in a sample of the keys that are down. On the change into a
    /// configured chord it gives a snapshot of the window for an encoder;
    /// the window itself stays as it is. The sample is remembered for the
    /// next call whatever came of it. Once the session is over no snapshot
    /// is given.
    pub fn on_keys(&mut self, keys: Vec<KeyCode>) -> (task: Option<EncodeTask>)
        requires
            old(self).wf(),
        ensures
            final(self).wf(),
            final(self).capacity() == old(self).capacity(),
            final(self).chords() == old(self).chords(),
            final(self).wait_nanos() == old(self).wait_nanos(),
            final(self).dimensions() == old(self).dimensions(),
            final(self).state() == old(self).state(),
            final(self).frames() == old(self).frames(),
            final(self).previous_keys() == keys@.to_set(),
            task.is_some() <==> old(self).state() == LoopState::Capturing && classify_keys(
                old(self).chords(),
                keys@.to_set(),
                old(self).previous_keys(),
            ) == Action::Trigger,
            task matches Some(t) ==> {
                &&& frame_values(t.frames@) == frame_values(old(self).frames())
                &&& t.dimensions == old(self).dimensions()
                &&& t.chord < old(self).chords().len()
                &&& old(self).chords()[t.chord as int]@ == keys@.to_set()
                &&& forall|k: int|
                    0 <= k < t.chord ==> (#[trigger] old(self).chords()[k])@ != keys@.to_set()
            },
    {
        let found = self.detector.matching_chord(&keys);
        let action = self.detector.observe(keys);
        if !self.is_capturing() {
            return None;
        }
        match (action, found) {
            (Action::Trigger, Some(chord)) => {
                let frames = self.snapshot();
                Some(EncodeTask { frames, dimensions: self.dimensions, chord })
            },
            _ => None,
        }
    }
}

} // verus!
