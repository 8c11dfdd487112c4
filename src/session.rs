//! A live transcription session: the decisions of the loop that moves
//! captured audio into the engine and runs processing cycles. The caller
//! owns the timer, the capture device and the thread the model runs on.
use vstd::prelude::*;
use crate::resample::{resample, resampled};
use crate::text::string_of;
use crate::transcriber::{
    fed, processed, speech_cycle, speech_state, applied, transcript, EngineState, InferenceError, LiveTranscriber,
    ProcessCycleResult, SAMPLE_RATE, STEP_SAMPLES,
};

verus! {

/// What one tick of a session did.
#[derive(Debug, Clone, Copy, PartialEq, Eq, Structural)]
pub enum TickOutcome {
    /// The session was stopped: nothing was read.
    Stopped,
    /// New audio, if any, was taken; no processing cycle was due.
    Waiting,
    /// A processing cycle ran with this result.
    Processed(ProcessCycleResult),
    /// A processing cycle failed; the error text says why.
    Failed,
}

/// The abstract state of a [`LiveSession`].
pub struct SessionState {
    pub engine: EngineState,
    /// Captured samples already taken into the engine.
    pub consumed: nat,
    pub running: bool,
    /// The transcript as last shown.
    pub shown: Seq<char>,
    /// The last error, if any.
    pub error: Option<Seq<char>>,
}

/// Drives a [`LiveTranscriber`] from a growing capture buffer.
pub struct LiveSession {
    transcriber: LiveTranscriber,
    consumed: usize,
    running: bool,
    shown: String,
    error: Option<String>,
}

impl View for LiveSession {
    type V = SessionState;

    closed spec fn view(&self) -> SessionState {
        SessionState {
            engine: self.transcriber@,
            consumed: self.consumed as nat,
            running: self.running,
            shown: self.shown@,
            error: match self.error {
                Some(e) => Some(e@),
                None => None,
            },
        }
    }
}

/// Prefix of the error text of a failed cycle.
pub open spec fn error_prefix() -> Seq<char> {
    "Transcription error: "@
}

/// The state after new audio `fresh` (at `rate`) was taken up to `upto`
/// captured samples, before any processing.
pub open spec fn taken(v: SessionState, fresh: Seq<i16>, rate: nat, upto: nat) -> SessionState {
    SessionState {
        engine: fed(v.engine, resampled(fresh, rate, SAMPLE_RATE as nat)),
        consumed: upto,
        ..v
    }
}

/// Whether a processing cycle is due in engine state `e`.
pub open spec fn due(e: EngineState) -> bool {
    e.calibrated && e.pending >= STEP_SAMPLES
}

/// A tick from `t` (audio taken) to `w` with outcome `r` took the model's
/// answer `out`: its segments are applied and the transcript shown, or its
/// error message is shown as the error text.
pub open spec fn session_took(
    t: SessionState,
    w: SessionState,
    r: TickOutcome,
    out: Result<Vec<String>, String>,
) -> bool {
    match out {
        Ok(segs) => r is Processed && (w.engine, r->Processed_0) == applied(
            speech_state(t.engine),
            segs@.map_values(|x: String| x@),
        ) && w.shown == transcript(w.engine),
        Err(m) => r == TickOutcome::Failed && w.engine == speech_state(t.engine) && w.error
            == Some(error_prefix() + m@),
    }
}

impl LiveSession {
    pub closed spec fn wf(&self) -> bool {
        self.transcriber.wf()
    }

    /// A running session around `transcriber`, which nothing was fed yet.
    pub fn new(transcriber: LiveTranscriber) -> (r: Self)
        requires
            transcriber.wf(),
        ensures
            r.wf(),
            r@ == (SessionState {
                engine: transcriber@,
                consumed: 0,
                running: true,
                shown: seq![],
                error: None,
            }),
    {
        LiveSession { transcriber, consumed: 0, running: true, shown: String::new(), error: None }
    }

    /// Stops the session; later ticks read nothing.
    pub fn stop(&mut self)
        ensures
            final(self)@ == (SessionState { running: false, ..old(self)@ }),
            final(self).wf() == old(self).wf(),
    {
        self.running = false;
    }

    /// Whether the session is running.
    pub fn is_running(&self) -> (r: bool)
        ensures
            r == self@.running,
    {
        self.running
    }

    /// The transcript as last shown.
    pub fn transcript(&self) -> (r: &str)
        ensures
            r@ == self@.shown,
    {
        self.shown.as_str()
    }

    /// The last error, if any.
    pub fn error(&self) -> (r: Option<&str>)
        ensures
            (match r {
                Some(e) => self@.error == Some(e@),
                None => self@.error is None,
            }),
    {
        match &self.error {
            Some(e) => Some(e.as_str()),
            None => None,
        }
    }

    /// The engine, to read its calibration state.
    pub fn transcriber(&self) -> (r: &LiveTranscriber)
        ensures
            r@ == self@.engine,
            self.wf() ==> r.wf(),
    {
        &self.transcriber
    }

    /// One tick of the session. `captured` is all audio captured so far at
    /// `sample_rate`. The samples not yet taken are converted to the
    /// engine's rate and added; when a processing cycle is then due it runs
    /// with `transcribe`, and the shown transcript, or the error text, is
    /// updated.
    pub fn tick<F>(&mut self, captured: &[i16], sample_rate: u32, transcribe: F) -> (r: TickOutcome)
        where
            F: FnOnce(&[i16]) -> Result<Vec<String>, String>,
        requires
            old(self).wf(),
            sample_rate > 0,
            forall|s: &[i16]| transcribe.requires((s,)),
            captured@.len() * (SAMPLE_RATE as nat) / (sample_rate as nat) <= usize::MAX,
            old(self)@.engine.buffer.len() + captured@.len() * (SAMPLE_RATE as nat) / (
            sample_rate as nat) <= usize::MAX,
        ensures
            final(self).wf(),
            !old(self)@.running ==> r == TickOutcome::Stopped && final(self)@ == old(self)@,
            old(self)@.running && captured@.len() <= old(self)@.consumed ==> r
                == TickOutcome::Waiting && final(self)@ == old(self)@,
            old(self)@.running && captured@.len() > old(self)@.consumed ==> ({
                let t = taken(
                    old(self)@,
                    captured@.subrange(old(self)@.consumed as int, captured@.len() as int),
                    sample_rate as nat,
                    captured@.len(),
                );
                if !due(t.engine) {
                    r == TickOutcome::Waiting && final(self)@ == t
                } else {
                    exists|res: Result<ProcessCycleResult, InferenceError>|
                        #![trigger processed(t.engine, final(self)@.engine, res)]
                        processed(t.engine, final(self)@.engine, res) && final(self)@.consumed
                            == t.consumed && final(self)@.running && match res {
                            Ok(c) => r == TickOutcome::Processed(c) && final(self)@.shown
                                == transcript(final(self)@.engine) && final(self)@.error
                                == t.error,
                            Err(e) => r == TickOutcome::Failed && final(self)@.shown == t.shown
                                && final(self)@.error == Some(error_prefix() + e.message@),
                        }
                }
            }),
            old(self)@.running && captured@.len() > old(self)@.consumed ==> ({
                let t = taken(
                    old(self)@,
                    captured@.subrange(old(self)@.consumed as int, captured@.len() as int),
                    sample_rate as nat,
                    captured@.len(),
                );
                due(t.engine) && speech_cycle(t.engine) ==> exists|
                    s: &[i16],
                    out: Result<Vec<String>, String>,
                |
                    #![trigger transcribe.ensures((s,), out)]
                    s@ == t.engine.buffer && transcribe.ensures((s,), out) && session_took(
                        t,
                        final(self)@,
                        r,
                        out,
                    )
            }),
    {
        if !self.running {
            return TickOutcome::Stopped;
        }
        let n = captured.len();
        if n <= self.consumed {
            return TickOutcome::Waiting;
        }
        let mut fresh: Vec<i16> = Vec::new();
        let mut i: usize = self.consumed;
        while i < n
            invariant
                old(self)@.consumed <= i <= n,
                n == captured@.len(),
                self@ == old(self)@,
                fresh@ == captured@.subrange(old(self)@.consumed as int, i as int),
            decreases n - i,
        {
            fresh.push(captured[i]);
            i = i + 1;
        }
        proof {
            let m = (n - self.consumed) as int;
            let rate = sample_rate as int;
            assert(m * 16000 / rate <= (n as int) * 16000 / rate) by (nonlinear_arith)
                requires
                    rate > 0,
                    0 <= m <= n,
            ;
        }
        let pcm = resample(fresh.as_slice(), sample_rate, SAMPLE_RATE);
        proof {
            assert(pcm@.len() <= (n as int) * 16000 / (sample_rate as int));
        }
        self.transcriber.add_samples(pcm.as_slice());
        self.consumed = n;
        if !self.transcriber.ready_to_process() {
            return TickOutcome::Waiting;
        }
        let ghost before = self@;
        let result = self.transcriber.process(transcribe);
        match result {
            Ok(c) => {
                self.shown = self.transcriber.get_transcript();
                assert(processed(before.engine, self@.engine, result));
                proof {
                    if speech_cycle(before.engine) {
                        let (s, out) = choose|s: &[i16], out: Result<Vec<String>, String>|
                            s@ == before.engine.buffer && transcribe.ensures((s,), out)
                                && crate::transcriber::took_answer(
                                before.engine,
                                self@.engine,
                                result,
                                out,
                            );
                        assert(session_took(before, self@, TickOutcome::Processed(c), out));
                    }
                }
                TickOutcome::Processed(c)
            },
            Err(e) => {
                let ghost msg = e.message@;
                let mut text = string_of("Transcription error: ");
                text.append(e.message.as_str());
                self.error = Some(text);
                assert(processed(before.engine, self@.engine, result));
                proof {
                    if speech_cycle(before.engine) {
                        let (s, out) = choose|s: &[i16], out: Result<Vec<String>, String>|
                            s@ == before.engine.buffer && transcribe.ensures((s,), out)
                                && crate::transcriber::took_answer(
                                before.engine,
                                self@.engine,
                                result,
                                out,
                            );
                        assert(session_took(before, self@, TickOutcome::Failed, out));
                    }
                }
                TickOutcome::Failed
            },
        }
    }
}

} // verus!
