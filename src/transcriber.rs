//! The live transcription engine: calibrates a voice-activity threshold on
//! ambient noise, accumulates 16 kHz audio, decides when to run the speech
//! model, filters its output and commits text on silence.
use vstd::prelude::*;
use crate::hallucination::{hallucinated, is_hallucination, lower_of};
use crate::text::{chars_of, is_white_space, trim, trim_bounds, white_space};
use crate::vad::{below_energy, energy_of, lemma_sum_squares_bounds, sum_squares, MAX_SQUARE};

verus! {

/// Sample rate the speech model expects.
pub const SAMPLE_RATE: u32 = 16000;

/// New samples needed before another processing cycle (500 ms).
pub const STEP_SAMPLES: usize = 8000;

/// Buffer length that forces a commit (30 s).
pub const MAX_BUFFER_SAMPLES: usize = 480000;

/// Contiguous quiet audio needed to calibrate (3 s).
pub const CALIBRATION_SAMPLES: usize = 48000;

/// Size of the chunks judged quiet or loud during calibration (100 ms).
pub const CALIBRATION_CHUNK_SAMPLES: usize = 1600;

/// RMS level below which a chunk counts as quiet before calibration
/// (about 0.04 of full scale).
pub const PRE_CALIBRATION_QUIET_LEVEL: u64 = 1311;

/// Lowest RMS level the speech threshold may have (about 0.02 of full scale).
pub const MIN_VAD_LEVEL: u64 = 655;

/// Factor between the ambient RMS level and the speech threshold.
pub const VAD_MULTIPLIER: u64 = 3;

/// Consecutive silent cycles after which tentative text is committed.
pub const SILENCE_COMMIT_THRESHOLD: usize = 3;

/// Lowest mean-square energy of the speech threshold.
pub const MIN_VAD_ENERGY: u64 = MIN_VAD_LEVEL * MIN_VAD_LEVEL;

/// Mean-square energy below which a calibration chunk is quiet.
pub const PRE_CALIBRATION_QUIET_ENERGY: u64 = PRE_CALIBRATION_QUIET_LEVEL
    * PRE_CALIBRATION_QUIET_LEVEL;

/// What one processing cycle did.
#[derive(Debug, Clone, Copy, PartialEq, Eq, Structural)]
pub enum ProcessCycleResult {
    /// Nothing visible changed.
    NoChange,
    /// The tentative text was replaced.
    Updated,
    /// Tentative text was committed and the audio buffer emptied.
    Committed,
}

/// The speech model failed during a processing cycle.
#[derive(Debug, Clone)]
pub struct InferenceError {
    pub message: String,
}

/// The abstract state of a [`LiveTranscriber`].
pub struct EngineState {
    /// Audio accumulated for the current segment.
    pub buffer: Seq<i16>,
    /// Samples added since the last processing cycle.
    pub pending: nat,
    /// Finalised text.
    pub committed: Seq<char>,
    /// Text of the current segment, which may still change.
    pub tentative: Seq<char>,
    /// Consecutive silent processing cycles.
    pub silent_cycles: nat,
    /// Speech threshold, as a mean-square energy.
    pub threshold: nat,
    /// Whether calibration has completed.
    pub calibrated: bool,
    /// Contiguous quiet audio collected towards calibration.
    pub calibration: Seq<i16>,
}

/// State of a freshly constructed or cleared engine.
pub open spec fn initial_state() -> EngineState {
    EngineState {
        buffer: seq![],
        pending: 0,
        committed: seq![],
        tentative: seq![],
        silent_cycles: 0,
        threshold: MIN_VAD_ENERGY as nat,
        calibrated: false,
        calibration: seq![],
    }
}

/// Committed and tentative text, separated by a blank line when both are
/// present.
pub open spec fn joined(committed: Seq<char>, tentative: Seq<char>) -> Seq<char> {
    if committed.len() == 0 {
        tentative
    } else if tentative.len() == 0 {
        committed
    } else {
        committed + "\n\n"@ + tentative
    }
}

/// The transcript that `get_transcript` returns.
pub open spec fn transcript(v: EngineState) -> Seq<char> {
    joined(v.committed, v.tentative)
}

/// Speech threshold derived from quiet calibration audio: the multiplier
/// times its RMS level, but no lower than the minimum, all squared.
pub open spec fn threshold_from(cal: Seq<i16>) -> nat {
    let scaled = VAD_MULTIPLIER * VAD_MULTIPLIER * sum_squares(cal) / (cal.len() as int);
    if scaled > MIN_VAD_ENERGY {
        scaled as nat
    } else {
        MIN_VAD_ENERGY as nat
    }
}

/// `s` appended to the audio buffer.
pub open spec fn with_audio(v: EngineState, s: Seq<i16>) -> EngineState {
    EngineState { buffer: v.buffer + s, pending: v.pending + s.len(), ..v }
}

/// Calibration completed on `cal`.
pub open spec fn calibrated_on(v: EngineState, cal: Seq<i16>) -> EngineState {
    EngineState { calibrated: true, threshold: threshold_from(cal), calibration: seq![], ..v }
}

/// Feeding `s` to an engine that is still calibrating: `s` is cut into
/// chunks; a quiet chunk extends the calibration audio, a loud one discards
/// it. Once the quiet audio reaches the calibration length, the threshold is
/// set on exactly that much audio, and every later sample, from the middle
/// of the chunk on, goes to the buffer.
pub open spec fn calibrate(v: EngineState, s: Seq<i16>) -> EngineState
    decreases s.len(),
{
    if s.len() == 0 {
        v
    } else {
        let n = if s.len() > CALIBRATION_CHUNK_SAMPLES {
            CALIBRATION_CHUNK_SAMPLES as int
        } else {
            s.len() as int
        };
        let chunk = s.take(n);
        let rest = s.skip(n);
        if below_energy(chunk, PRE_CALIBRATION_QUIET_ENERGY as int) {
            let cal = v.calibration + chunk;
            if cal.len() >= CALIBRATION_SAMPLES {
                let k = CALIBRATION_SAMPLES - v.calibration.len();
                with_audio(
                    calibrated_on(v, v.calibration + chunk.take(k)),
                    chunk.skip(k) + rest,
                )
            } else {
                calibrate(EngineState { calibration: cal, ..v }, rest)
            }
        } else {
            calibrate(EngineState { calibration: seq![], ..v }, rest)
        }
    }
}

/// The effect of `add_samples(s)`.
pub open spec fn fed(v: EngineState, s: Seq<i16>) -> EngineState {
    if v.calibrated {
        with_audio(v, s)
    } else {
        calibrate(v, s)
    }
}

/// Calibration progress in thousandths.
pub open spec fn progress_permille(v: EngineState) -> nat {
    if v.calibrated {
        1000
    } else {
        (v.calibration.len() * 1000 / (CALIBRATION_SAMPLES as nat)) as nat
    }
}

/// The most recent step of audio, or the whole buffer when shorter.
pub open spec fn vad_window(b: Seq<i16>) -> Seq<i16> {
    if b.len() > STEP_SAMPLES {
        b.subrange(b.len() - STEP_SAMPLES, b.len() as int)
    } else {
        b
    }
}

/// Whether the recent audio is below the speech threshold.
pub open spec fn is_silent(v: EngineState) -> bool {
    below_energy(vad_window(v.buffer), v.threshold as int)
}

/// Tentative text moved into the committed text, with the audio buffer and
/// silence count reset.
pub open spec fn committed_state(v: EngineState) -> EngineState {
    EngineState {
        committed: transcript(v),
        tentative: seq![],
        buffer: seq![],
        silent_cycles: 0,
        ..v
    }
}

/// A processing cycle on a buffer at the hard cap: commit and clear,
/// whatever the audio holds.
pub open spec fn forced_commit(v: EngineState) -> EngineState {
    committed_state(EngineState { pending: 0, ..v })
}

/// A processing cycle on silent audio.
pub open spec fn silence_step(v: EngineState) -> (EngineState, ProcessCycleResult) {
    let count = if v.silent_cycles < SILENCE_COMMIT_THRESHOLD {
        v.silent_cycles + 1
    } else {
        SILENCE_COMMIT_THRESHOLD as nat
    };
    let w = EngineState { pending: 0, silent_cycles: count, ..v };
    if w.silent_cycles >= SILENCE_COMMIT_THRESHOLD && v.tentative.len() > 0 {
        (committed_state(w), ProcessCycleResult::Committed)
    } else {
        (w, ProcessCycleResult::NoChange)
    }
}

/// The state in which a processing cycle on speech calls the model.
pub open spec fn speech_state(v: EngineState) -> EngineState {
    EngineState { pending: 0, silent_cycles: 0, ..v }
}

/// Whether a segment's text is kept: it is not blank and not a
/// hallucination.
pub open spec fn kept(t: Seq<char>) -> bool {
    trim(t).len() > 0 && !hallucinated(trim(lower_of(t)))
}

/// Whether a segment starting with `c` follows the text before it without a
/// space: `c` is whitespace or ASCII punctuation.
pub open spec fn joins_tight(c: char) -> bool {
    let u = c as u32;
    white_space(c) || (0x21 <= u <= 0x2f) || (0x3a <= u <= 0x40) || (0x5b <= u <= 0x60) || (0x7b
        <= u <= 0x7e)
}

/// The kept texts among the first `n` segments, each joined to the text
/// before it by a space unless it starts with whitespace or punctuation.
pub open spec fn joined_segments(segs: Seq<Seq<char>>, n: int) -> Seq<char>
    decreases n,
{
    if n <= 0 {
        seq![]
    } else {
        let acc = joined_segments(segs, n - 1);
        let t = segs[n - 1];
        if kept(t) {
            if acc.len() > 0 && !(t.len() > 0 && joins_tight(t[0])) {
                acc + " "@ + t
            } else {
                acc + t
            }
        } else {
            acc
        }
    }
}

/// The text that a list of segments yields.
pub open spec fn candidate(segs: Seq<Seq<char>>) -> Seq<char> {
    trim(joined_segments(segs, segs.len() as int))
}

/// Taking the model's segments: a non-empty candidate different from the
/// tentative text replaces it.
pub open spec fn applied(v: EngineState, segs: Seq<Seq<char>>) -> (
    EngineState,
    ProcessCycleResult,
) {
    let c = candidate(segs);
    if c.len() > 0 && c != v.tentative {
        (EngineState { tentative: c, ..v }, ProcessCycleResult::Updated)
    } else {
        (v, ProcessCycleResult::NoChange)
    }
}

/// What one processing cycle does, from state `v` to state `w` with result
/// `r`: an empty buffer changes nothing; a buffer at the hard cap is
/// committed; silence steps towards a commit; speech runs the model on the
/// whole buffer, and either fails with the audio kept, or takes some list
/// of segments.
pub open spec fn processed(
    v: EngineState,
    w: EngineState,
    r: Result<ProcessCycleResult, InferenceError>,
) -> bool {
    if v.buffer.len() == 0 {
        r == Ok::<ProcessCycleResult, InferenceError>(ProcessCycleResult::NoChange) && w == v
    } else if v.buffer.len() >= MAX_BUFFER_SAMPLES {
        r == Ok::<ProcessCycleResult, InferenceError>(ProcessCycleResult::Committed) && w
            == forced_commit(v)
    } else if is_silent(v) {
        r == Ok::<ProcessCycleResult, InferenceError>(silence_step(v).1) && w == silence_step(v).0
    } else {
        match r {
            Ok(res) => exists|segs: Seq<Seq<char>>| applied(speech_state(v), segs) == (w, res),
            Err(_) => w == speech_state(v),
        }
    }
}

/// Whether a processing cycle from `v` runs the speech model.
pub open spec fn speech_cycle(v: EngineState) -> bool {
    0 < v.buffer.len() < MAX_BUFFER_SAMPLES && !is_silent(v)
}

/// A speech cycle from `v` to `w` with result `r` took the model's answer
/// `out`: its segments are applied, or its error message is returned.
pub open spec fn took_answer(
    v: EngineState,
    w: EngineState,
    r: Result<ProcessCycleResult, InferenceError>,
    out: Result<Vec<String>, String>,
) -> bool {
    match out {
        Ok(segs) => r is Ok && (w, r->Ok_0) == applied(
            speech_state(v),
            segs@.map_values(|t: String| t@),
        ),
        Err(m) => r is Err && r->Err_0.message@ == m@ && w == speech_state(v),
    }
}

/// Well-formedness of an abstract engine state.
pub open spec fn state_wf(v: EngineState) -> bool {
    &&& v.pending <= v.buffer.len()
    &&& v.silent_cycles <= SILENCE_COMMIT_THRESHOLD
    &&& v.calibrated ==> v.threshold >= MIN_VAD_ENERGY && v.calibration.len() == 0
    &&& !v.calibrated ==> v.buffer.len() == 0 && v.calibration.len() < CALIBRATION_SAMPLES
}

/// Live transcriber for real-time streaming transcription.
///
/// All audio of the current segment is transcribed again on each cycle, so
/// no speech is lost at a window edge and the tentative text corrects itself
/// as context grows.
pub struct LiveTranscriber {
    buffer: Vec<i16>,
    samples_since_last_process: usize,
    committed_text: String,
    current_text: String,
    silence_count: usize,
    vad_threshold: u64,
    calibrated: bool,
    calibration_samples: Vec<i16>,
}

impl View for LiveTranscriber {
    type V = EngineState;

    closed spec fn view(&self) -> EngineState {
        EngineState {
            buffer: self.buffer@,
            pending: self.samples_since_last_process as nat,
            committed: self.committed_text@,
            tentative: self.current_text@,
            silent_cycles: self.silence_count as nat,
            threshold: self.vad_threshold as nat,
            calibrated: self.calibrated,
            calibration: self.calibration_samples@,
        }
    }
}

/// Whether a segment's text is kept.
fn segment_kept(t: &str) -> (r: bool)
    ensures
        r == kept(t@),
{
    let cs = chars_of(t);
    let (a, b) = trim_bounds(&cs);
    a < b && !is_hallucination(t)
}

/// `s` trimmed of whitespace, as a new string.
fn trimmed(s: &str) -> (r: String)
    ensures
        r@ == trim(s@),
{
    let cs = chars_of(s);
    let (a, b) = trim_bounds(&cs);
    let mut r = String::new();
    r.append(s.substring_char(a, b));
    r
}

/// Whether `t` starts with whitespace or punctuation.
fn starts_tight(t: &str) -> (r: bool)
    ensures
        r == (t@.len() > 0 && joins_tight(t@[0])),
{
    if t.unicode_len() == 0 {
        return false;
    }
    let c = t.get_char(0);
    let u = c as u32;
    is_white_space(c) || (0x21 <= u && u <= 0x2f) || (0x3a <= u && u <= 0x40) || (0x5b <= u && u
        <= 0x60) || (0x7b <= u && u <= 0x7e)
}

/// Appends `src[lo..hi]` to `dst`.
fn push_range(dst: &mut Vec<i16>, src: &[i16], lo: usize, hi: usize)
    requires
        lo <= hi <= src@.len(),
    ensures
        final(dst)@ == old(dst)@ + src@.subrange(lo as int, hi as int),
{
    let mut i: usize = lo;
    while i < hi
        invariant
            lo <= i <= hi <= src@.len(),
            dst@ == old(dst)@ + src@.subrange(lo as int, i as int),
        decreases hi - i,
    {
        dst.push(src[i]);
        i = i + 1;
        assert(dst@ =~= old(dst)@ + src@.subrange(lo as int, i as int));
    }
}

impl LiveTranscriber {
    /// Well-formedness: see [`state_wf`].
    pub open spec fn wf(&self) -> bool {
        state_wf(self@)
    }

    /// A fresh engine, waiting for calibration.
    pub fn new() -> (r: Self)
        ensures
            r.wf(),
            r@ == initial_state(),
    {
        LiveTranscriber {
            buffer: Vec::new(),
            samples_since_last_process: 0,
            committed_text: String::new(),
            current_text: String::new(),
            silence_count: 0,
            vad_threshold: MIN_VAD_ENERGY,
            calibrated: false,
            calibration_samples: Vec::new(),
        }
    }

    /// A fresh engine that skips calibration and uses `threshold` (a
    /// mean-square energy, raised to the minimum if below it).
    pub fn with_threshold(threshold: u64) -> (r: Self)
        ensures
            r.wf(),
            r@ == (EngineState {
                calibrated: true,
                threshold: if threshold > MIN_VAD_ENERGY {
                    threshold as nat
                } else {
                    MIN_VAD_ENERGY as nat
                },
                ..initial_state()
            }),
    {
        LiveTranscriber {
            buffer: Vec::new(),
            samples_since_last_process: 0,
            committed_text: String::new(),
            current_text: String::new(),
            silence_count: 0,
            vad_threshold: if threshold > MIN_VAD_ENERGY {
                threshold
            } else {
                MIN_VAD_ENERGY
            },
            calibrated: true,
            calibration_samples: Vec::new(),
        }
    }

    /// Whether calibration has completed.
    pub fn is_calibrated(&self) -> (r: bool)
        ensures
            r == self@.calibrated,
    {
        self.calibrated
    }

    /// Calibration progress in thousandths: 1000 once calibrated.
    pub fn calibration_progress(&self) -> (r: u32)
        requires
            self.wf(),
        ensures
            r == progress_permille(self@),
            r <= 1000,
            !self@.calibrated ==> r < 1000,
    {
        if self.calibrated {
            1000
        } else {
            let n = self.calibration_samples.len() as u64;
            assert(n * 1000 / 48000 < 1000) by (nonlinear_arith)
                requires
                    n < 48000,
            ;
            (n * 1000 / CALIBRATION_SAMPLES as u64) as u32
        }
    }

    /// The speech threshold, as a mean-square energy.
    pub fn vad_threshold(&self) -> (r: u64)
        ensures
            r == self@.threshold,
    {
        self.vad_threshold
    }

    /// Whether a processing cycle is due: calibrated, with at least a step
    /// of new audio.
    pub fn ready_to_process(&self) -> (r: bool)
        ensures
            r == (self@.calibrated && self@.pending >= STEP_SAMPLES),
    {
        self.calibrated && self.samples_since_last_process >= STEP_SAMPLES
    }

    /// Whether the buffer has reached the hard cap.
    pub fn should_force_commit(&self) -> (r: bool)
        ensures
            r == (self@.buffer.len() >= MAX_BUFFER_SAMPLES),
    {
        self.buffer.len() >= MAX_BUFFER_SAMPLES
    }

    /// Number of samples in the current segment's buffer.
    pub fn buffer_len(&self) -> (r: usize)
        ensures
            r == self@.buffer.len(),
    {
        self.buffer.len()
    }

    /// The committed text followed by the tentative text.
    pub fn get_transcript(&self) -> (r: String)
        ensures
            r@ == transcript(self@),
    {
        if self.committed_text.as_str().unicode_len() == 0 {
            self.current_text.clone()
        } else if self.current_text.as_str().unicode_len() == 0 {
            self.committed_text.clone()
        } else {
            let mut r = self.committed_text.clone();
            r.append("\n\n");
            r.append(self.current_text.as_str());
            proof {
                reveal_strlit("\n\n");
            }
            r
        }
    }

    /// The committed text alone.
    pub fn get_confirmed(&self) -> (r: &str)
        ensures
            r@ == self@.committed,
    {
        self.committed_text.as_str()
    }

    /// The tentative text alone.
    pub fn get_tentative(&self) -> (r: &str)
        ensures
            r@ == self@.tentative,
    {
        self.current_text.as_str()
    }

    /// Resets everything, calibration included, to the state of a fresh
    /// engine.
    pub fn clear(&mut self)
        ensures
            final(self).wf(),
            final(self)@ == initial_state(),
    {
        self.buffer = Vec::new();
        self.samples_since_last_process = 0;
        self.committed_text = String::new();
        self.current_text = String::new();
        self.silence_count = 0;
        self.calibrated = false;
        self.calibration_samples = Vec::new();
        self.vad_threshold = MIN_VAD_ENERGY;
    }

    /// Sets the speech threshold from the collected quiet audio.
    fn complete_calibration(&mut self)
        requires
            old(self).calibration_samples@.len() <= CALIBRATION_SAMPLES
                + CALIBRATION_CHUNK_SAMPLES,
            old(self)@.calibration.len() >= CALIBRATION_SAMPLES,
        ensures
            final(self)@ == calibrated_on(old(self)@, old(self)@.calibration),
            final(self).calibration_samples@.len() == 0,
    {
        let n = self.calibration_samples.len();
        let e = energy_of(self.calibration_samples.as_slice(), 0, n);
        proof {
            assert(self.calibration_samples@.subrange(0, n as int) =~= self.calibration_samples@);
            lemma_sum_squares_bounds(self.calibration_samples@);
            assert(9 * e <= 9 * MAX_SQUARE * 49600) by (nonlinear_arith)
                requires
                    e <= MAX_SQUARE * n,
                    n <= 49600,
            ;
        }
        let scaled = VAD_MULTIPLIER * VAD_MULTIPLIER * e / n as u64;
        self.vad_threshold = if scaled > MIN_VAD_ENERGY {
            scaled
        } else {
            MIN_VAD_ENERGY
        };
        self.calibrated = true;
        self.calibration_samples.clear();
    }

    /// Adds audio at the model's sample rate. Before calibration it feeds
    /// the calibrator, chunk by chunk, and reaches the buffer only from the
    /// point where calibration completes.
    pub fn add_samples(&mut self, samples: &[i16])
        requires
            old(self).wf(),
            old(self)@.buffer.len() + samples@.len() <= usize::MAX,
        ensures
            final(self).wf(),
            final(self)@ == fed(old(self)@, samples@),
    {
        let n = samples.len();
        if !self.calibrated {
            let mut offset: usize = 0;
            assert(samples@.skip(0) =~= samples@);
            while offset < n
                invariant
                    n == samples@.len(),
                    offset <= n,
                    self.wf(),
                    !old(self)@.calibrated,
                    !self@.calibrated,
                    self@.buffer == old(self)@.buffer,
                    self@.committed == old(self)@.committed,
                    self@.tentative == old(self)@.tentative,
                    self@.buffer.len() + samples@.len() <= usize::MAX,
                    calibrate(old(self)@, samples@) == calibrate(
                        self@,
                        samples@.skip(offset as int),
                    ),
                decreases n - offset,
            {
                let end: usize = if n - offset > CALIBRATION_CHUNK_SAMPLES {
                    offset + CALIBRATION_CHUNK_SAMPLES
                } else {
                    n
                };
                let ghost v = self@;
                let ghost s = samples@.skip(offset as int);
                let ghost m = end - offset;
                proof {
                    assert(s.take(m as int) =~= samples@.subrange(offset as int, end as int));
                    assert(s.skip(m as int) =~= samples@.skip(end as int));
                }
                let e = energy_of(samples, offset, end);
                if e < PRE_CALIBRATION_QUIET_ENERGY * ((end - offset) as u64) {
                    let have = self.calibration_samples.len();
                    if have + (end - offset) >= CALIBRATION_SAMPLES {
                        let k = CALIBRATION_SAMPLES - have;
                        push_range(&mut self.calibration_samples, samples, offset, offset + k);
                        self.complete_calibration();
                        push_range(&mut self.buffer, samples, offset + k, n);
                        self.samples_since_last_process = n - (offset + k);
                        proof {
                            let chunk = samples@.subrange(offset as int, end as int);
                            let rest = samples@.skip(end as int);
                            let after = chunk.skip(k as int) + rest;
                            assert(chunk.take(k as int) =~= samples@.subrange(
                                offset as int,
                                offset + k,
                            ));
                            assert(after =~= samples@.skip(offset + k));
                            assert(v.buffer.len() == 0);
                            assert(v.pending == 0);
                            assert(calibrate(v, s) == with_audio(
                                calibrated_on(v, v.calibration + chunk.take(k as int)),
                                after,
                            ));
                            assert(self@.buffer =~= v.buffer + after);
                        }
                        return;
                    }
                    push_range(&mut self.calibration_samples, samples, offset, end);
                } else {
                    self.calibration_samples.clear();
                }
                offset = end;
            }
            return;
        }
        push_range(&mut self.buffer, samples, 0, n);
        self.samples_since_last_process = self.samples_since_last_process + n;
        assert(samples@.subrange(0, n as int) =~= samples@);
    }

    /// Takes the text segments that the speech model returned for the
    /// buffer: the kept ones, joined and trimmed, replace the tentative text
    /// when they are non-empty and differ from it.
    pub fn apply_transcription(&mut self, segments: &Vec<String>) -> (r: ProcessCycleResult)
        requires
            old(self).wf(),
        ensures
            final(self).wf(),
            (final(self)@, r) == applied(old(self)@, segments@.map_values(|t: String| t@)),
    {
        let ghost segs = segments@.map_values(|t: String| t@);
        let mut full = String::new();
        let mut i: usize = 0;
        while i < segments.len()
            invariant
                i <= segments@.len(),
                segs == segments@.map_values(|t: String| t@),
                full@ == joined_segments(segs, i as int),
            decreases segments@.len() - i,
        {
            let t: &String = &segments[i];
            assert(segs[i as int] == t@);
            if segment_kept(t.as_str()) {
                if full.as_str().unicode_len() > 0 && !starts_tight(t.as_str()) {
                    full.append(" ");
                    proof {
                        reveal_strlit(" ");
                    }
                }
                full.append(t.as_str());
            }
            i = i + 1;
        }
        let c = trimmed(full.as_str());
        if c.as_str().unicode_len() > 0 && !(c == self.current_text) {
            self.current_text = c;
            ProcessCycleResult::Updated
        } else {
            ProcessCycleResult::NoChange
        }
    }

    /// One processing cycle. An empty buffer changes nothing. A buffer at
    /// the hard cap is committed and cleared. Otherwise the most recent step
    /// of audio decides: silence counts towards committing the tentative
    /// text; speech runs `transcribe` on the whole buffer and takes its
    /// segments as [`apply_transcription`](Self::apply_transcription) does.
    /// A failure of `transcribe` is returned and leaves the audio in place.
    pub fn process<F>(&mut self, transcribe: F) -> (r: Result<ProcessCycleResult, InferenceError>)
        where
            F: FnOnce(&[i16]) -> Result<Vec<String>, String>,
        requires
            old(self).wf(),
            forall|s: &[i16]| transcribe.requires((s,)),
        ensures
            final(self).wf(),
            processed(old(self)@, final(self)@, r),
            speech_cycle(old(self)@) ==> exists|s: &[i16], out: Result<Vec<String>, String>|
                #![trigger transcribe.ensures((s,), out)]
                s@ == old(self)@.buffer && transcribe.ensures((s,), out) && took_answer(
                    old(self)@,
                    final(self)@,
                    r,
                    out,
                ),
    {
        let len = self.buffer.len();
        if len == 0 {
            return Ok(ProcessCycleResult::NoChange);
        }
        self.samples_since_last_process = 0;
        if len >= MAX_BUFFER_SAMPLES {
            self.committed_text = self.get_transcript();
            self.current_text = String::new();
            self.buffer = Vec::new();
            self.silence_count = 0;
            return Ok(ProcessCycleResult::Committed);
        }
        let lo: usize = if len > STEP_SAMPLES {
            len - STEP_SAMPLES
        } else {
            0
        };
        let e = energy_of(self.buffer.as_slice(), lo, len);
        proof {
            if len <= STEP_SAMPLES {
                assert(self.buffer@.subrange(0, len as int) =~= self.buffer@);
            }
        }
        let window = (len - lo) as u128;
        assert((self.vad_threshold as u128) * window <= (u64::MAX as u128) * 8000)
            by (nonlinear_arith)
            requires
                window <= 8000,
                self.vad_threshold <= u64::MAX,
        ;
        let is_silence = (e as u128) < (self.vad_threshold as u128) * window;
        if is_silence {
            if self.silence_count < SILENCE_COMMIT_THRESHOLD {
                self.silence_count = self.silence_count + 1;
            }
            if self.silence_count >= SILENCE_COMMIT_THRESHOLD && self.current_text.as_str().unicode_len() > 0 {
                self.commit_segment();
                return Ok(ProcessCycleResult::Committed);
            }
            return Ok(ProcessCycleResult::NoChange);
        }
        self.silence_count = 0;
        let input = self.buffer.as_slice();
        let out = transcribe(input);
        match out {
            Err(message) => {
                let r = Err(InferenceError { message });
                assert(took_answer(old(self)@, self@, r, out));
                r
            },
            Ok(segments) => {
                let ghost before = self@;
                assert(before == speech_state(old(self)@));
                let res = self.apply_transcription(&segments);
                let ghost sv = segments@.map_values(|t: String| t@);
                assert(applied(speech_state(old(self)@), sv) == (self@, res));
                assert(took_answer(old(self)@, self@, Ok(res), out));
                Ok(res)
            },
        }
    }

    /// Moves the tentative text into the committed text and starts a new
    /// segment; does nothing without tentative text.
    fn commit_segment(&mut self)
        requires
            old(self).wf(),
            old(self)@.pending == 0,
        ensures
            final(self).wf(),
            final(self)@ == (if old(self)@.tentative.len() > 0 {
                committed_state(old(self)@)
            } else {
                old(self)@
            }),
    {
        if self.current_text.as_str().unicode_len() > 0 {
            self.committed_text = self.get_transcript();
            self.current_text = String::new();
            self.buffer = Vec::new();
            self.silence_count = 0;
        }
    }
}

} // verus!

verus! {

/// Length of the first chunk that `add_samples` cuts from `s`.
pub open spec fn chunk_len(s: Seq<i16>) -> int {
    if s.len() > CALIBRATION_CHUNK_SAMPLES {
        CALIBRATION_CHUNK_SAMPLES as int
    } else {
        s.len() as int
    }
}

/// Whether every chunk that `add_samples` cuts from `s` has an RMS level
/// below the quiet level.
pub open spec fn chunks_quiet(s: Seq<i16>) -> bool
    decreases s.len(),
{
    if s.len() == 0 {
        true
    } else {
        below_energy(s.take(chunk_len(s)), PRE_CALIBRATION_QUIET_ENERGY as int) && chunks_quiet(
            s.skip(chunk_len(s)),
        )
    }
}

/// Audio whose every chunk is quiet, fed to an engine that is calibrating,
/// extends the calibration audio while the total stays below the
/// calibration length, and completes calibration once it reaches it.
pub proof fn lemma_quiet_audio_calibrates(v: EngineState, s: Seq<i16>)
    requires
        !v.calibrated,
        v.calibration.len() < CALIBRATION_SAMPLES,
        chunks_quiet(s),
    ensures
        v.calibration.len() + s.len() < CALIBRATION_SAMPLES ==> fed(v, s) == (EngineState {
            calibration: v.calibration + s,
            ..v
        }),
        v.calibration.len() + s.len() >= CALIBRATION_SAMPLES ==> fed(v, s).calibrated
            && progress_permille(fed(v, s)) == 1000,
    decreases s.len(),
{
    if s.len() == 0 {
        assert(v.calibration + s =~= v.calibration);
    } else {
        let n = chunk_len(s);
        let chunk = s.take(n);
        let rest = s.skip(n);
        let cal = v.calibration + chunk;
        if cal.len() < CALIBRATION_SAMPLES {
            let w = EngineState { calibration: cal, ..v };
            lemma_quiet_audio_calibrates(w, rest);
            assert(cal + rest =~= v.calibration + s);
        }
    }
}

/// Calibration that has not completed changes only the calibration audio.
pub proof fn lemma_calibrate_frame(v: EngineState, a: Seq<i16>)
    requires
        !calibrate(v, a).calibrated,
    ensures
        calibrate(v, a) == (EngineState { calibration: calibrate(v, a).calibration, ..v }),
    decreases a.len(),
{
    if a.len() > 0 {
        let n = chunk_len(a);
        let chunk = a.take(n);
        let rest = a.skip(n);
        if below_energy(chunk, PRE_CALIBRATION_QUIET_ENERGY as int) {
            let cal = v.calibration + chunk;
            if cal.len() < CALIBRATION_SAMPLES {
                lemma_calibrate_frame(EngineState { calibration: cal, ..v }, rest);
            }
        } else {
            lemma_calibrate_frame(EngineState { calibration: seq![], ..v }, rest);
        }
    }
}

/// Feeding whole chunks `a` that do not complete calibration, then `b`, in
/// one call, calibrates as feeding `a` and then `b` does.
pub proof fn lemma_calibrate_concat(v: EngineState, a: Seq<i16>, b: Seq<i16>)
    requires
        a.len() % (CALIBRATION_CHUNK_SAMPLES as nat) == 0,
        !calibrate(v, a).calibrated,
    ensures
        calibrate(v, a + b) == calibrate(calibrate(v, a), b),
    decreases a.len(),
{
    if a.len() == 0 {
        assert(a + b =~= b);
    } else {
        let n = CALIBRATION_CHUNK_SAMPLES as int;
        assert(a.len() >= n);
        let s = a + b;
        assert(chunk_len(s) == n);
        assert(chunk_len(a) == n);
        assert(s.take(n) =~= a.take(n));
        assert(s.skip(n) =~= a.skip(n) + b);
        let chunk = a.take(n);
        if below_energy(chunk, PRE_CALIBRATION_QUIET_ENERGY as int) {
            let cal = v.calibration + chunk;
            if cal.len() < CALIBRATION_SAMPLES {
                lemma_calibrate_concat(EngineState { calibration: cal, ..v }, a.skip(n), b);
            }
        } else {
            lemma_calibrate_concat(EngineState { calibration: seq![], ..v }, a.skip(n), b);
        }
    }
}

/// Feeding, in one call to a calibrating engine, whole chunks `a` that do
/// not complete calibration, then one loud chunk `c`, then audio `q` whose
/// chunks are all quiet and shorter than the calibration length in total:
/// all quiet audio before `c` is discarded, and only `q` counts towards
/// calibration.
pub proof fn lemma_loud_chunk_restarts(v: EngineState, a: Seq<i16>, c: Seq<i16>, q: Seq<i16>)
    requires
        !v.calibrated,
        a.len() % (CALIBRATION_CHUNK_SAMPLES as nat) == 0,
        !calibrate(v, a).calibrated,
        c.len() == CALIBRATION_CHUNK_SAMPLES || (0 < c.len() <= CALIBRATION_CHUNK_SAMPLES
            && q.len() == 0),
        !below_energy(c, PRE_CALIBRATION_QUIET_ENERGY as int),
        chunks_quiet(q),
        q.len() < CALIBRATION_SAMPLES,
    ensures
        fed(v, a + c + q) == (EngineState { calibration: q, ..v }),
        progress_permille(fed(v, a + c + q)) == q.len() * 1000 / (CALIBRATION_SAMPLES as nat),
{
    lemma_calibrate_concat(v, a, c + q);
    assert(a + c + q =~= a + (c + q));
    lemma_calibrate_frame(v, a);
    let w = calibrate(v, a);
    let cq = c + q;
    assert(chunk_len(cq) == c.len());
    assert(cq.take(c.len() as int) =~= c);
    assert(cq.skip(c.len() as int) =~= q);
    let z = EngineState { calibration: seq![], ..v };
    assert(calibrate(w, cq) == calibrate(EngineState { calibration: seq![], ..w }, q));
    assert(EngineState { calibration: seq![], ..w } == z);
    lemma_quiet_audio_calibrates(z, q);
    assert(z.calibration + q =~= q);
}

/// Once calibrated, with tentative text and no silent cycle counted, three
/// rounds of a step of silent audio each followed by a processing cycle
/// commit the tentative text on the third: the transcript is unchanged, the
/// tentative text and the buffer are empty.
pub proof fn lemma_silence_commits(
    v: EngineState,
    a1: Seq<i16>,
    a2: Seq<i16>,
    a3: Seq<i16>,
)
    requires
        state_wf(v),
        v.calibrated,
        v.silent_cycles == 0,
        v.tentative.len() > 0,
        v.buffer.len() + 3 * STEP_SAMPLES < MAX_BUFFER_SAMPLES,
        a1.len() == STEP_SAMPLES,
        a2.len() == STEP_SAMPLES,
        a3.len() == STEP_SAMPLES,
        below_energy(a1, v.threshold as int),
        below_energy(a2, v.threshold as int),
        below_energy(a3, v.threshold as int),
    ensures
        ({
            let u1 = fed(v, a1);
            let (v1, r1) = silence_step(u1);
            let u2 = fed(v1, a2);
            let (v2, r2) = silence_step(u2);
            let u3 = fed(v2, a3);
            let (v3, r3) = silence_step(u3);
            &&& 0 < u1.buffer.len() < MAX_BUFFER_SAMPLES && is_silent(u1)
            &&& 0 < u2.buffer.len() < MAX_BUFFER_SAMPLES && is_silent(u2)
            &&& 0 < u3.buffer.len() < MAX_BUFFER_SAMPLES && is_silent(u3)
            &&& r1 == ProcessCycleResult::NoChange
            &&& r2 == ProcessCycleResult::NoChange
            &&& r3 == ProcessCycleResult::Committed
            &&& transcript(v3) == transcript(v)
            &&& v3.committed == transcript(v)
            &&& v3.tentative.len() == 0
            &&& v3.buffer.len() == 0
        }),
{
    let u1 = fed(v, a1);
    assert(vad_window(u1.buffer) =~= a1);
    let (v1, r1) = silence_step(u1);
    let u2 = fed(v1, a2);
    assert(vad_window(u2.buffer) =~= a2);
    let (v2, r2) = silence_step(u2);
    let u3 = fed(v2, a3);
    assert(vad_window(u3.buffer) =~= a3);
}

/// A cleared engine is a fresh one: no transcript, not calibrated, no
/// calibration progress.
pub proof fn lemma_cleared_is_fresh()
    ensures
        transcript(initial_state()).len() == 0,
        !initial_state().calibrated,
        progress_permille(initial_state()) == 0,
        state_wf(initial_state()),
{
}

} // verus!
