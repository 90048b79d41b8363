//! The decision logic shared by the pointer and keyboard operations.
//!
//! An operation is planned as a sequence of steps. A platform backend asks
//! the session for its pending step, performs it, and reports the outcome;
//! the session decides whether to go on, and with what result it ends.

use vstd::prelude::*;
use crate::{AutomationResult, Point};
use crate::symbols::ButtonKind;
use crate::text::{decimal, decimal_text, push_text};

verus! {

/// Pause, in milliseconds, between the events of one key or button press.
pub const EVENT_SPACING_MS: u64 = 10;

/// A synthetic input event.
#[derive(Clone, Copy, Debug, PartialEq, Eq, Structural)]
pub enum InputEvent {
    KeyDown(u16),
    KeyUp(u16),
    ButtonDown(ButtonKind),
    ButtonUp(ButtonKind),
}

/// One thing that the platform backend is asked to do.
#[derive(Clone, Copy, Debug, PartialEq, Eq, Structural)]
pub enum Step {
    /// Put the cursor at an absolute position.
    MoveCursor { x: i32, y: i32 },
    /// Read the cursor position.
    ReadCursor,
    /// Read the primary display's width and height.
    ReadScreenSize,
    /// Inject an event. An event the platform refuses ends the operation.
    Send { event: InputEvent },
    /// Block for a number of milliseconds.
    Pause { ms: u64 },
}

/// What the platform backend reports after performing a step.
#[derive(Clone, Copy, Debug, PartialEq, Eq, Structural)]
pub enum Outcome {
    /// The step was carried out.
    Accepted,
    /// The platform refused it, with its error code.
    Rejected(u32),
    /// A reading step was carried out and gave this point.
    Reading(Point),
}

/// The mathematical state of a session.
pub struct SessionView {
    pub steps: Seq<Step>,
    pub pos: int,
    pub failure: Option<Seq<char>>,
    pub reading: Option<Point>,
    pub summary: Seq<char>,
    pub stamp_position: bool,
}

pub open spec fn failure_prefix(step: Step) -> Seq<char> {
    match step {
        Step::MoveCursor { .. } => "Failed to move cursor: "@,
        Step::ReadCursor => "Failed to get cursor position: "@,
        Step::ReadScreenSize => "Failed to get screen size: "@,
        Step::Send { event, .. } => match event {
            InputEvent::KeyDown(_) => "Failed to send key down: "@,
            InputEvent::KeyUp(_) => "Failed to send key up: "@,
            InputEvent::ButtonDown(_) => "Failed to send mouse down: "@,
            InputEvent::ButtonUp(_) => "Failed to send mouse up: "@,
        },
        Step::Pause { .. } => "Failed to pause: "@,
    }
}

/// The message of an operation that ends at a step the platform refused.
pub open spec fn failure_message(step: Step, code: u32) -> Seq<char> {
    failure_prefix(step) + decimal(code as int)
}

/// The message of a session that ran through without failure.
pub open spec fn success_message(v: SessionView) -> Seq<char> {
    if v.stamp_position && v.reading is Some {
        let p = v.reading->0;
        v.summary + " at ("@ + decimal(p.x as int) + ", "@ + decimal(p.y as int) + ")"@
    } else {
        v.summary
    }
}

pub open spec fn no_reading_message() -> Seq<char> {
    "The platform gave no reading"@
}

/// A session about to perform `steps`.
pub open spec fn fresh(steps: Seq<Step>, summary: Seq<char>, stamp_position: bool) -> SessionView {
    SessionView { steps, pos: 0, failure: None, reading: None, summary, stamp_position }
}

/// A session that failed with `message` before performing anything.
pub open spec fn refused(message: Seq<char>) -> SessionView {
    SessionView {
        steps: Seq::empty(),
        pos: 0,
        failure: Some(message),
        reading: None,
        summary: Seq::empty(),
        stamp_position: false,
    }
}

impl SessionView {
    pub open spec fn wf(self) -> bool {
        0 <= self.pos <= self.steps.len()
    }

    /// The step the backend is to perform next, if any.
    pub open spec fn pending(self) -> Option<Step> {
        if self.failure is None && self.pos < self.steps.len() {
            Some(self.steps[self.pos])
        } else {
            None
        }
    }

    /// Whether nothing is left to perform.
    pub open spec fn is_complete(self) -> bool {
        self.pending() is None
    }

    pub open spec fn advanced(self, reading: Option<Point>) -> SessionView {
        SessionView { pos: self.pos + 1, reading, ..self }
    }

    pub open spec fn failed(self, message: Seq<char>) -> SessionView {
        SessionView { failure: Some(message), ..self }
    }

    /// The session after the backend reports `o` for the pending step. An
    /// outcome that does not answer the pending step changes nothing, and
    /// once a failure is recorded nothing changes any more.
    pub open spec fn after(self, o: Outcome) -> SessionView {
        match self.pending() {
            None => self,
            Some(step) => match (step, o) {
                (Step::MoveCursor { .. }, Outcome::Accepted) => self.advanced(self.reading),
                (Step::ReadCursor, Outcome::Reading(p)) => self.advanced(Some(p)),
                (Step::ReadScreenSize, Outcome::Reading(p)) => self.advanced(Some(p)),
                (Step::Send { .. }, Outcome::Accepted) => self.advanced(self.reading),
                (Step::Pause { .. }, Outcome::Accepted) => self.advanced(self.reading),
                (Step::Send { .. }, Outcome::Rejected(code)) => self.failed(
                    failure_message(step, code),
                ),
                (Step::MoveCursor { .. }, Outcome::Rejected(code)) => self.failed(
                    failure_message(step, code),
                ),
                (Step::ReadCursor, Outcome::Rejected(code)) => self.failed(
                    failure_message(step, code),
                ),
                (Step::ReadScreenSize, Outcome::Rejected(code)) => self.failed(
                    failure_message(step, code),
                ),
                _ => self,
            },
        }
    }
}

/// The session after the backend accepts `n` steps in a row.
pub open spec fn accept_steps(v: SessionView, n: nat) -> SessionView
    decreases n,
{
    if n == 0 {
        v
    } else {
        accept_steps(v.after(Outcome::Accepted), (n - 1) as nat)
    }
}

/// A step that needs nothing back but the platform's acceptance.
pub open spec fn is_plain(step: Step) -> bool {
    step !is ReadCursor && step !is ReadScreenSize
}

/// Once a session has failed, no outcome changes it: an operation that
/// failed part way through never turns into a success.
pub proof fn lemma_failure_is_final(v: SessionView, o: Outcome)
    requires
        v.failure is Some,
    ensures
        v.after(o) == v,
{
}

/// An event that the platform refuses ends the session with a failure that
/// names the event and the platform's code.
pub proof fn lemma_refused_event_fails(v: SessionView, code: u32)
    requires
        v.pending() matches Some(Step::Send { .. }),
    ensures
        v.after(Outcome::Rejected(code)).failure == Some(
            failure_message(v.pending()->0, code),
        ),
        v.after(Outcome::Rejected(code)).is_complete(),
{
}

/// A session whose remaining steps need no reading, and whose every step the
/// platform accepts, runs to its end without failure.
pub proof fn lemma_accepted_run_succeeds(v: SessionView)
    requires
        v.wf(),
        v.failure is None,
        forall|i: int| v.pos <= i < v.steps.len() ==> is_plain(#[trigger] v.steps[i]),
    ensures
        accept_steps(v, (v.steps.len() - v.pos) as nat).failure is None,
        accept_steps(v, (v.steps.len() - v.pos) as nat).pos == v.steps.len(),
        accept_steps(v, (v.steps.len() - v.pos) as nat).steps == v.steps,
    decreases v.steps.len() - v.pos,
{
    if v.pos < v.steps.len() {
        let w = v.after(Outcome::Accepted);
        assert(is_plain(v.steps[v.pos]));
        assert(w.pos == v.pos + 1 && w.steps == v.steps && w.failure is None);
        lemma_accepted_run_succeeds(w);
        assert(((v.steps.len() - v.pos) as nat - 1) as nat == (w.steps.len() - w.pos) as nat);
    }
}

/// One run of an operation against the platform.
pub struct Session {
    steps: Vec<Step>,
    pos: usize,
    failure: Option<String>,
    reading: Option<Point>,
    summary: String,
    stamp_position: bool,
}

pub open spec fn opt_view(s: Option<String>) -> Option<Seq<char>> {
    match s {
        Some(t) => Some(t@),
        None => None,
    }
}

impl View for Session {
    type V = SessionView;

    closed spec fn view(&self) -> SessionView {
        SessionView {
            steps: self.steps@,
            pos: self.pos as int,
            failure: opt_view(self.failure),
            reading: self.reading,
            summary: self.summary@,
            stamp_position: self.stamp_position,
        }
    }
}

fn prefix_of(step: Step) -> (r: &'static str)
    ensures
        r@ == failure_prefix(step),
{
    match step {
        Step::MoveCursor { .. } => "Failed to move cursor: ",
        Step::ReadCursor => "Failed to get cursor position: ",
        Step::ReadScreenSize => "Failed to get screen size: ",
        Step::Send { event, .. } => match event {
            InputEvent::KeyDown(_) => "Failed to send key down: ",
            InputEvent::KeyUp(_) => "Failed to send key up: ",
            InputEvent::ButtonDown(_) => "Failed to send mouse down: ",
            InputEvent::ButtonUp(_) => "Failed to send mouse up: ",
        },
        Step::Pause { .. } => "Failed to pause: ",
    }
}

fn describe_failure(step: Step, code: u32) -> (r: String)
    ensures
        r@ == failure_message(step, code),
{
    let mut m = String::from_str(prefix_of(step));
    let digits = decimal_text(code as i64);
    push_text(&mut m, digits.as_str());
    m
}

impl Session {
    /// A session that performs `steps` and, if all goes well, reports
    /// `summary`, followed by the cursor position read on the way where
    /// `stamp_position` is set.
    pub fn planned(steps: Vec<Step>, summary: String, stamp_position: bool) -> (r: Session)
        ensures
            r@ == fresh(steps@, summary@, stamp_position),
    {
        Session { steps, pos: 0, failure: None, reading: None, summary, stamp_position }
    }

    /// A session that has failed before performing anything.
    pub fn rejected(message: String) -> (r: Session)
        ensures
            r@ == refused(message@),
    {
        Session {
            steps: Vec::new(),
            pos: 0,
            failure: Some(message),
            reading: None,
            summary: String::new(),
            stamp_position: false,
        }
    }

    /// The steps that make up the operation.
    pub fn steps(&self) -> (r: &Vec<Step>)
        ensures
            r@ == self@.steps,
    {
        &self.steps
    }

    /// The step to perform next; `None` once the session is complete.
    pub fn pending(&self) -> (r: Option<Step>)
        requires
            self@.wf(),
        ensures
            r == self@.pending(),
    {
        if self.failure.is_none() && self.pos < self.steps.len() {
            Some(self.steps[self.pos])
        } else {
            None
        }
    }

    /// Records the outcome of the pending step.
    pub fn report(&mut self, outcome: Outcome)
        requires
            old(self)@.wf(),
        ensures
            final(self)@ == old(self)@.after(outcome),
            final(self)@.wf(),
    {
        if self.failure.is_some() || self.pos >= self.steps.len() {
            return;
        }
        let step = self.steps[self.pos];
        match (step, outcome) {
            (Step::MoveCursor { .. }, Outcome::Accepted)
            | (Step::Send { .. }, Outcome::Accepted)
            | (Step::Pause { .. }, Outcome::Accepted) => {
                self.pos = self.pos + 1;
            },
            (Step::ReadCursor, Outcome::Reading(p)) | (Step::ReadScreenSize, Outcome::Reading(p)) => {
                self.reading = Some(p);
                self.pos = self.pos + 1;
            },
            (Step::Send { .. }, Outcome::Rejected(code))
            | (Step::MoveCursor { .. }, Outcome::Rejected(code))
            | (Step::ReadCursor, Outcome::Rejected(code))
            | (Step::ReadScreenSize, Outcome::Rejected(code)) => {
                self.failure = Some(describe_failure(step, code));
            },
            _ => {},
        }
    }

    /// Whether nothing is left to perform.
    pub fn is_complete(&self) -> (r: bool)
        requires
            self@.wf(),
        ensures
            r == self@.is_complete(),
    {
        self.pending().is_none()
    }

    /// The result of a complete action: the failure recorded, or success
    /// with the operation's message. Success is reported only when the
    /// platform refused no step.
    pub fn finish(self) -> (r: Result<AutomationResult, String>)
        requires
            self@.wf(),
            self@.is_complete(),
        ensures
            self@.failure is Some <==> r is Err,
            r matches Err(m) ==> self@.failure == Some(m@),
            r matches Ok(a) ==> {
                &&& a.success
                &&& a.message matches Some(m) && m@ == success_message(self@)
                &&& a.data is None
                &&& self@.pos == self@.steps.len()
            },
    {
        match self.failure {
            Some(m) => Err(m),
            None => {
                let mut message = self.summary;
                if self.stamp_position {
                    if let Some(p) = self.reading {
                        push_text(&mut message, " at (");
                        let x = decimal_text(p.x as i64);
                        push_text(&mut message, x.as_str());
                        push_text(&mut message, ", ");
                        let y = decimal_text(p.y as i64);
                        push_text(&mut message, y.as_str());
                        push_text(&mut message, ")");
                    }
                }
                Ok(AutomationResult { success: true, message: Some(message), data: None })
            },
        }
    }

    /// The result of a complete query: the failure recorded, or the point
    /// that was read.
    pub fn finish_reading(self) -> (r: Result<Point, String>)
        requires
            self@.wf(),
            self@.is_complete(),
        ensures
            r matches Err(m) ==> (self@.failure == Some(m@) || (self@.failure is None
                && self@.reading is None && m@ == no_reading_message())),
            r matches Ok(p) ==> self@.failure is None && self@.reading == Some(p),
            self@.failure is None && self@.reading is Some ==> r is Ok,
    {
        match self.failure {
            Some(m) => Err(m),
            None => match self.reading {
                Some(p) => Ok(p),
                None => Err(String::from_str("The platform gave no reading")),
            },
        }
    }
}

} // verus!
