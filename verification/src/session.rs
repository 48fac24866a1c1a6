//! The session state machine.
//!
//! Exactly one session exists for the life of the process. It cycles
//! `Idle -> Recording -> Processing -> Idle`, driven by toggle events from
//! the trigger source; every transition is serialized through one control
//! path. The contracts here pin each transition down, and the lemmas at the
//! bottom state the single-flight and phase-cycle laws over the same spec
//! functions the contracts use.

use vstd::prelude::*;

use crate::buffer::SampleBuffer;

verus! {

/// Where the session stands. `Processing` covers the whole pipeline run
/// (encode, upload, inject) until the guaranteed-release cleanup.
#[derive(Clone, Copy, Debug, PartialEq, Eq, Structural)]
pub enum Phase {
    Idle,
    Recording,
    Processing,
}

/// What the orchestrator must do with one toggle event.
#[derive(Clone, Copy, Debug, PartialEq, Eq, Structural)]
pub enum ToggleAction {
    /// Acquire a device, open a capture stream, then call `begin_recording`.
    StartCapture,
    /// Stop the stream, call `begin_processing`, run the pipeline, then
    /// call `finish_run`.
    StopAndProcess,
    /// The event arrived while a pipeline run was in flight: drop it.
    Ignore,
}

/// The mathematical value of a session: its phase, the metadata captured at
/// `Recording` start, the buffered samples while they are still owned by the
/// session, and whether the capture callback may still append.
pub ghost struct SessionView {
    pub phase: Phase,
    pub started_at: Option<u64>,
    pub sample_rate: Option<u32>,
    pub channel_count: Option<u16>,
    pub samples: Option<Seq<i16>>,
    pub capture_active: bool,
}

impl SessionView {
    /// The session invariant: the capture flag and the buffer exist exactly
    /// while `Recording`, and the metadata exists exactly while the session
    /// is live (not `Idle`).
    pub open spec fn wf(self) -> bool {
        &&& self.capture_active <==> self.phase == Phase::Recording
        &&& self.samples is Some <==> self.phase == Phase::Recording
        &&& self.started_at is Some <==> self.phase != Phase::Idle
        &&& self.sample_rate is Some <==> self.phase != Phase::Idle
        &&& self.channel_count is Some <==> self.phase != Phase::Idle
    }
}

/// The one state a session is ever created in, and the state the
/// guaranteed-release cleanup restores: `Idle` with everything cleared.
pub open spec fn initial_view() -> SessionView {
    SessionView {
        phase: Phase::Idle,
        started_at: None,
        sample_rate: None,
        channel_count: None,
        samples: None,
        capture_active: false,
    }
}

/// What one toggle event means in each phase.
pub open spec fn spec_toggle_action(phase: Phase) -> ToggleAction {
    match phase {
        Phase::Idle => ToggleAction::StartCapture,
        Phase::Recording => ToggleAction::StopAndProcess,
        Phase::Processing => ToggleAction::Ignore,
    }
}

/// Entering `Recording`: the device's parameters are recorded, an empty
/// buffer is allocated, and the capture callback is let loose.
pub open spec fn spec_begin_recording(now_ms: u64, sample_rate: u32, channel_count: u16) -> SessionView {
    SessionView {
        phase: Phase::Recording,
        started_at: Some(now_ms),
        sample_rate: Some(sample_rate),
        channel_count: Some(channel_count),
        samples: Some(Seq::<i16>::empty()),
        capture_active: true,
    }
}

/// Entering `Processing`: capture is off, the buffer has been moved out to
/// the pipeline, the metadata stays until the cleanup.
pub open spec fn spec_begin_processing(v: SessionView) -> SessionView {
    SessionView { phase: Phase::Processing, samples: None, capture_active: false, ..v }
}

/// The guaranteed-release cleanup, whatever state the pipeline run left
/// behind and whatever its outcome was: everything is cleared.
pub open spec fn spec_finish(v: SessionView) -> SessionView {
    initial_view()
}

/// The parameters the device hands over when a toggle starts a recording.
pub ghost struct StepInput {
    pub now_ms: u64,
    pub sample_rate: u32,
    pub channel_count: u16,
}

/// One toggle event, handled to completion by a compliant orchestrator:
/// from `Idle` it starts recording with the device's parameters, from
/// `Recording` it moves to `Processing`, and while `Processing` it does
/// nothing at all.
pub open spec fn spec_step(v: SessionView, input: StepInput) -> SessionView {
    match v.phase {
        Phase::Idle => spec_begin_recording(input.now_ms, input.sample_rate, input.channel_count),
        Phase::Recording => spec_begin_processing(v),
        Phase::Processing => v,
    }
}

/// A burst of toggle events, handled one after the other in arrival order.
pub open spec fn spec_steps(v: SessionView, inputs: Seq<StepInput>) -> SessionView
    decreases inputs.len(),
{
    if inputs.len() == 0 {
        v
    } else {
        spec_steps(spec_step(v, inputs[0]), inputs.drop_first())
    }
}

/// How many pipeline runs a burst of toggle events launches: one for each
/// event handled while the session was `Recording`.
pub open spec fn pipeline_starts(v: SessionView, inputs: Seq<StepInput>) -> nat
    decreases inputs.len(),
{
    if inputs.len() == 0 {
        0
    } else {
        (if v.phase == Phase::Recording { 1nat } else { 0nat }) + pipeline_starts(
            spec_step(v, inputs[0]),
            inputs.drop_first(),
        )
    }
}

/// The live session record. The capture stream itself is owned outside this
/// crate; `capture_active` stands for it, and the invariant ties it to the
/// phase exactly as the stream's ownership is tied to `Recording`.
pub struct Session {
    phase: Phase,
    started_at: Option<u64>,
    sample_rate: Option<u32>,
    channel_count: Option<u16>,
    buffer: Option<SampleBuffer>,
    capture_active: bool,
}

impl View for Session {
    type V = SessionView;

    closed spec fn view(&self) -> SessionView {
        SessionView {
            phase: self.phase,
            started_at: self.started_at,
            sample_rate: self.sample_rate,
            channel_count: self.channel_count,
            samples: match self.buffer {
                Some(b) => Some(b@),
                None => None,
            },
            capture_active: self.capture_active,
        }
    }
}

/// Everything the pipeline needs from a stopped recording: the samples and
/// the metadata captured when the session started.
pub struct ProcessingInput {
    pub samples: Vec<i16>,
    pub sample_rate: u32,
    pub channel_count: u16,
}

impl Session {
    /// The single session, created once at process start, in `Idle`.
    pub fn new() -> (s: Session)
        ensures
            s@ == initial_view(),
            s@.wf(),
    {
        Session {
            phase: Phase::Idle,
            started_at: None,
            sample_rate: None,
            channel_count: None,
            buffer: None,
            capture_active: false,
        }
    }

    /// The current phase.
    pub fn phase(&self) -> (p: Phase)
        ensures
            p == self@.phase,
    {
        self.phase
    }

    /// Whether the capture callback may still append; the caller mirrors
    /// this into the lock-free flag the audio thread reads.
    pub fn capture_active(&self) -> (b: bool)
        ensures
            b == self@.capture_active,
    {
        self.capture_active
    }

    /// When the current session entered `Recording`, if it is live.
    pub fn started_at(&self) -> (t: Option<u64>)
        ensures
            t == self@.started_at,
    {
        self.started_at
    }

    /// The device's sample rate, captured at `Recording` start.
    pub fn sample_rate(&self) -> (r: Option<u32>)
        ensures
            r == self@.sample_rate,
    {
        self.sample_rate
    }

    /// The device's channel count, captured at `Recording` start.
    pub fn channel_count(&self) -> (c: Option<u16>)
        ensures
            c == self@.channel_count,
    {
        self.channel_count
    }

    /// How many samples the session's buffer holds; zero once the buffer
    /// has been handed to the pipeline or cleared.
    pub fn buffered_len(&self) -> (n: usize)
        ensures
            self@.samples matches Some(s) ==> n == s.len(),
            self@.samples is None ==> n == 0,
    {
        match &self.buffer {
            Some(b) => b.len(),
            None => 0,
        }
    }

    /// Decide what one toggle event means right now. The decision alone:
    /// the state does not move until the matching transition is called, and
    /// while `Processing` it never moves at all — the single-flight rule.
    pub fn toggle_action(&self) -> (a: ToggleAction)
        ensures
            a == spec_toggle_action(self@.phase),
    {
        match self.phase {
            Phase::Idle => ToggleAction::StartCapture,
            Phase::Recording => ToggleAction::StopAndProcess,
            Phase::Processing => ToggleAction::Ignore,
        }
    }

    /// Enter `Recording` once a device and stream are in hand. On a device
    /// or stream failure the caller simply never calls this, and the
    /// session stays `Idle` untouched.
    pub fn begin_recording(&mut self, now_ms: u64, sample_rate: u32, channel_count: u16)
        requires
            old(self)@.wf(),
            old(self)@.phase == Phase::Idle,
        ensures
            final(self)@ == spec_begin_recording(now_ms, sample_rate, channel_count),
            final(self)@.wf(),
    {
        self.phase = Phase::Recording;
        self.started_at = Some(now_ms);
        self.sample_rate = Some(sample_rate);
        self.channel_count = Some(channel_count);
        self.buffer = Some(SampleBuffer::new());
        self.capture_active = true;
    }

    /// Append one frame delivered by the capture callback. Only the buffer
    /// moves, and only forward.
    pub fn append_samples(&mut self, frame: &[i16])
        requires
            old(self)@.wf(),
            old(self)@.phase == Phase::Recording,
        ensures
            final(self)@ == (SessionView {
                samples: Some(old(self)@.samples.unwrap() + frame@),
                ..old(self)@
            }),
            final(self)@.wf(),
    {
        match &mut self.buffer {
            Some(b) => b.append_frame(frame),
            None => (),
        }
    }

    /// Stop of capture has returned: enter `Processing`, hand the samples
    /// and metadata to the pipeline, keep the rest for the cleanup.
    pub fn begin_processing(&mut self) -> (input: ProcessingInput)
        requires
            old(self)@.wf(),
            old(self)@.phase == Phase::Recording,
        ensures
            final(self)@ == spec_begin_processing(old(self)@),
            final(self)@.wf(),
            input.samples@ == old(self)@.samples.unwrap(),
            Some(input.sample_rate) == old(self)@.sample_rate,
            Some(input.channel_count) == old(self)@.channel_count,
    {
        self.phase = Phase::Processing;
        self.capture_active = false;
        let buffer = self.buffer.take();
        let samples = match buffer {
            Some(b) => b.into_samples(),
            None => Vec::new(),
        };
        let sample_rate = match self.sample_rate {
            Some(r) => r,
            None => 0,
        };
        let channel_count = match self.channel_count {
            Some(c) => c,
            None => 0,
        };
        ProcessingInput { samples, sample_rate, channel_count }
    }

    /// The guaranteed-release cleanup: whatever the pipeline run did, the
    /// session returns to `Idle` with everything cleared. The outcome is
    /// passed through untouched so the caller can report it after the
    /// release, exactly as it came.
    pub fn finish_run<T>(&mut self, outcome: T) -> (r: T)
        requires
            old(self)@.wf(),
            old(self)@.phase == Phase::Processing,
        ensures
            final(self)@ == spec_finish(old(self)@),
            final(self)@ == initial_view(),
            final(self)@.wf(),
            r == outcome,
    {
        self.phase = Phase::Idle;
        self.started_at = None;
        self.sample_rate = None;
        self.channel_count = None;
        self.buffer = None;
        self.capture_active = false;
        outcome
    }
}

/// Single-flight: however many toggle events arrive while a pipeline run is
/// in flight, the session never leaves `Processing`, nothing in it changes,
/// and no second pipeline run starts.
pub proof fn lemma_single_flight(v: SessionView, inputs: Seq<StepInput>)
    requires
        v.phase == Phase::Processing,
    ensures
        spec_steps(v, inputs) == v,
        pipeline_starts(v, inputs) == 0,
    decreases inputs.len(),
{
    if inputs.len() > 0 {
        assert(spec_step(v, inputs[0]) == v);
        lemma_single_flight(v, inputs.drop_first());
    }
}

/// State restoration: from any session state at all — so from any point a
/// pipeline failure can leave the session at — the cleanup yields exactly
/// the initial state: phase `Idle`, buffer and every metadata field
/// cleared, capture off, and the invariant holding again.
pub proof fn lemma_state_restoration(v: SessionView)
    ensures
        spec_finish(v) == initial_view(),
        spec_finish(v).phase == Phase::Idle,
        spec_finish(v).started_at is None,
        spec_finish(v).sample_rate is None,
        spec_finish(v).channel_count is None,
        spec_finish(v).samples is None,
        !spec_finish(v).capture_active,
        spec_finish(v).wf(),
{
}

/// Invariant preservation: a well-formed session stays well-formed under
/// every toggle transition, whatever the device hands over.
pub proof fn lemma_wf_preserved(v: SessionView, input: StepInput)
    requires
        v.wf(),
    ensures
        spec_step(v, input).wf(),
{
}

/// The phase cycle: under one-at-a-time toggle delivery the phases run
/// `Idle -> Recording -> Processing`, and the cleanup closes the cycle back
/// to the initial `Idle` state — no phase skipped, none repeated.
pub proof fn lemma_phase_cycle(first: StepInput, second: StepInput)
    ensures
        spec_step(initial_view(), first).phase == Phase::Recording,
        spec_step(initial_view(), first).wf(),
        spec_step(spec_step(initial_view(), first), second).phase == Phase::Processing,
        spec_step(spec_step(initial_view(), first), second).wf(),
        spec_step(initial_view(), first) != initial_view(),
        spec_step(spec_step(initial_view(), first), second) != spec_step(initial_view(), first),
{
}

} // verus!
