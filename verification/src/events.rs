//! The progress channel's event model: ordered progress lines closed
//! by exactly one completion event. The transcript type makes the
//! ordering an invariant: nothing can be emitted after completion, and
//! completion can be emitted only once.

use vstd::prelude::*;

verus! {

/// One event of a job's event stream.
pub enum JobEvent {
    /// One ordered log line.
    Progress { line: String },
    /// The terminal signal: success or failure with a message.
    Completion { success: bool, error: Option<String> },
}

/// The ordered record of everything a job has emitted.
pub struct Transcript {
    events: Vec<JobEvent>,
    done: bool,
}

impl Transcript {
    /// The events emitted so far, in emission order.
    pub closed spec fn events_view(&self) -> Seq<JobEvent> {
        self.events@
    }

    /// Whether the completion event has been emitted.
    pub closed spec fn completed(&self) -> bool {
        self.done
    }

    /// Every event but a final completion is a progress line, and the
    /// completion, once emitted, is last.
    pub open spec fn wf(&self) -> bool {
        &&& (self.completed() ==> self.events_view().len() > 0 && (self.events_view().last()
            matches JobEvent::Completion { .. }))
        &&& forall|i: int|
            0 <= i < self.events_view().len() && !(self.completed() && i == self.events_view().len()
                - 1) ==> (#[trigger] self.events_view()[i] matches JobEvent::Progress { .. })
    }

    /// An empty, open transcript.
    pub fn new() -> (t: Transcript)
        ensures
            t.wf(),
            !t.completed(),
            t.events_view() == Seq::<JobEvent>::empty(),
    {
        Transcript { events: Vec::new(), done: false }
    }

    /// Emits one progress line.
    pub fn log(&mut self, line: String)
        requires
            old(self).wf(),
            !old(self).completed(),
        ensures
            final(self).wf(),
            !final(self).completed(),
            final(self).events_view() == old(self).events_view().push(
                JobEvent::Progress { line },
            ),
    {
        self.events.push(JobEvent::Progress { line });
    }

    /// Emits the one terminal completion event.
    pub fn complete(&mut self, success: bool, error: Option<String>)
        requires
            old(self).wf(),
            !old(self).completed(),
        ensures
            final(self).wf(),
            final(self).completed(),
            final(self).events_view() == old(self).events_view().push(
                JobEvent::Completion { success, error },
            ),
    {
        self.events.push(JobEvent::Completion { success, error });
        self.done = true;
    }

    /// Read access to the emitted events.
    pub fn events(&self) -> (r: &Vec<JobEvent>)
        ensures
            r@ == self.events_view(),
    {
        &self.events
    }
}

/// A completed transcript holds exactly one completion event, in the
/// last position, after every progress event.
pub proof fn lemma_completion_exactly_once_and_last(t: &Transcript)
    requires
        t.wf(),
        t.completed(),
    ensures
        t.events_view().len() > 0,
        forall|i: int|
            0 <= i < t.events_view().len() ==> ((#[trigger] t.events_view()[i] matches
            JobEvent::Completion { .. }) <==> i == t.events_view().len() - 1),
{
}

} // verus!
