use vstd::prelude::*;

verus! {

/// The signal that pauses or resumes the play process.
#[derive(Debug, Clone, Copy, PartialEq, Eq, Structural)]
pub enum Signal {
    /// Suspend the play process.
    Stop,
    /// Let a suspended play process continue.
    Cont,
}

impl Signal {
    /// The signal's name as the `kill -s` tool spells it.
    pub fn name(&self) -> (r: &'static str)
        ensures
            *self == Signal::Stop ==> r@ == "STOP"@,
            *self == Signal::Cont ==> r@ == "CONT"@,
    {
        match self {
            Signal::Stop => "STOP",
            Signal::Cont => "CONT",
        }
    }
}

/// What the session keeps of a live fetch/play pipeline: the play process's
/// identifier, which signals are sent to, and whether it is paused. The
/// process handles themselves stay with whoever spawned them.
#[derive(Debug, Clone, Copy, PartialEq, Eq, Structural)]
pub struct PipelineHandle {
    pub pid: u32,
    pub paused: bool,
}

impl PipelineHandle {
    /// A freshly started pipeline, playing.
    pub fn new(pid: u32) -> (r: PipelineHandle)
        ensures
            r == (PipelineHandle { pid, paused: false }),
    {
        PipelineHandle { pid, paused: false }
    }

    /// The signal that toggles the pause state: resume when paused, suspend
    /// otherwise.
    pub open spec fn toggle_signal(self) -> Signal {
        if self.paused {
            Signal::Cont
        } else {
            Signal::Stop
        }
    }

    /// The handle once the toggle signal was sent: the flag flips only when
    /// the signal was delivered; a failed delivery leaves it as it was.
    pub open spec fn after_signal(self, delivered: bool) -> PipelineHandle {
        if delivered {
            PipelineHandle { paused: !self.paused, ..self }
        } else {
            self
        }
    }

    pub fn pause_signal(&self) -> (r: Signal)
        ensures
            r == self.toggle_signal(),
    {
        if self.paused {
            Signal::Cont
        } else {
            Signal::Stop
        }
    }

    /// Records the outcome of sending `self.pause_signal()`.
    pub fn record_signal(&mut self, delivered: bool)
        ensures
            *final(self) == old(self).after_signal(delivered),
    {
        if delivered {
            self.paused = !self.paused;
        }
    }
}

/// Pausing and then resuming, both delivered, gives back the pipeline as it
/// was; when the resume is not delivered the pipeline stays paused. The
/// second signal of such a pair is always the resume.
pub proof fn lemma_pause_resume(h: PipelineHandle)
    requires
        !h.paused,
    ensures
        h.toggle_signal() == Signal::Stop,
        h.after_signal(true).toggle_signal() == Signal::Cont,
        h.after_signal(true).after_signal(true) == h,
        h.after_signal(true).after_signal(false).paused,
{
}

} // verus!
