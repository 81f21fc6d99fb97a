use vstd::prelude::*;

use crate::message::{after_reply, after_user_input, initial_log, log_wf, ConversationLog};
use crate::request::{chat_request, ChatError, CompletionRequest};
use crate::text::trimmed;

verus! {

/// What happens during a turn.
#[derive(Clone, Copy, Debug, PartialEq, Eq, Structural)]
pub enum TurnEvent {
    InputRead,
    IndicatorStarted,
    RequestSent,
    ResponseArrived,
    StopSignalled,
    IndicatorStopped,
    RenderStarted,
    RenderFinished,
    ProfileReconciled,
}

/// The events of a complete turn, in the order they happen.
#[verifier::opaque]
pub open spec fn turn_script() -> Seq<TurnEvent> {
    seq![
        TurnEvent::InputRead,
        TurnEvent::IndicatorStarted,
        TurnEvent::RequestSent,
        TurnEvent::ResponseArrived,
        TurnEvent::StopSignalled,
        TurnEvent::IndicatorStopped,
        TurnEvent::RenderStarted,
        TurnEvent::RenderFinished,
        TurnEvent::ProfileReconciled,
    ]
}

proof fn lemma_script()
    ensures
        turn_script().len() == 9,
        turn_script()[0] == TurnEvent::InputRead,
        turn_script()[1] == TurnEvent::IndicatorStarted,
        turn_script()[2] == TurnEvent::RequestSent,
        turn_script()[3] == TurnEvent::ResponseArrived,
        turn_script()[4] == TurnEvent::StopSignalled,
        turn_script()[5] == TurnEvent::IndicatorStopped,
        turn_script()[6] == TurnEvent::RenderStarted,
        turn_script()[7] == TurnEvent::RenderFinished,
        turn_script()[8] == TurnEvent::ProfileReconciled,
{
    reveal(turn_script);
}

/// Each `RenderStarted` of `ev` comes right after a `StopSignalled` followed by
/// an `IndicatorStopped`.
pub open spec fn stop_precedes_render(ev: Seq<TurnEvent>) -> bool {
    forall|i: int| #[trigger]
        render_starts_at(ev, i) ==> i >= 2 && ev[i - 2] == TurnEvent::StopSignalled && ev[i
            - 1] == TurnEvent::IndicatorStopped
}

/// Rendering starts at position `i` of `ev`.
pub open spec fn render_starts_at(ev: Seq<TurnEvent>, i: int) -> bool {
    0 <= i < ev.len() && ev[i] == TurnEvent::RenderStarted
}

proof fn lemma_prefix_order(ev: Seq<TurnEvent>)
    requires
        ev.len() <= 9,
        forall|i: int| 0 <= i < ev.len() ==> ev[i] == turn_script()[i],
    ensures
        stop_precedes_render(ev),
{
    lemma_script();
    let sc = turn_script();
    assert forall|i: int| #[trigger]
        render_starts_at(ev, i) implies i >= 2 && ev[i - 2] == TurnEvent::StopSignalled && ev[i
            - 1] == TurnEvent::IndicatorStopped by {
        assert(ev[i] == sc[i]);
        if i == 6 {
            assert(ev[4] == sc[4]);
            assert(ev[5] == sc[5]);
        } else if i < 6 {
            assert(i == 0 || i == 1 || i == 2 || i == 3 || i == 4 || i == 5);
        } else {
            assert(i == 7 || i == 8);
        }
    }
}

/// Where a turn stands.
#[derive(Clone, Copy, Debug, PartialEq, Eq, Structural)]
pub enum Phase {
    /// Waiting for the next line of input.
    Idle,
    /// The request is out and the cue is running.
    RequestInFlight,
    /// The response is in and the cue has been told to stop.
    StoppingIndicator,
    /// The cue is gone and the reply is being rendered.
    Rendering,
    /// The reply is rendered and the profile is being reconciled.
    Reconciling,
    /// The request failed; the turn ends with its error.
    Failed,
}

/// How many events of the script have happened in each phase.
pub open spec fn events_in(phase: Phase) -> int {
    match phase {
        Phase::Idle => 0,
        Phase::RequestInFlight => 3,
        Phase::StoppingIndicator => 5,
        Phase::Failed => 6,
        Phase::Rendering => 7,
        Phase::Reconciling => 8,
    }
}

/// Drives the turns of a conversation: owns the log, and says at each point
/// what the program performs next.
#[derive(Debug)]
pub struct TurnCoordinator {
    log: ConversationLog,
    phase: Phase,
    events: Vec<TurnEvent>,
    outcome: Option<Result<String, ChatError>>,
}

impl TurnCoordinator {
    pub closed spec fn log_spec(&self) -> Seq<(crate::message::Role, Seq<char>)> {
        self.log@
    }

    pub closed spec fn phase_spec(&self) -> Phase {
        self.phase
    }

    /// The events of the current turn, or of the last one while idle.
    pub closed spec fn events_spec(&self) -> Seq<TurnEvent> {
        self.events@
    }

    /// The outcome of the request of the current turn, once it has arrived.
    pub closed spec fn outcome_spec(&self) -> Option<Result<String, ChatError>> {
        self.outcome
    }

    pub closed spec fn wf(&self) -> bool {
        &&& self.log.wf()
        &&& if self.phase == Phase::Idle {
            self.events@ == turn_script().take(0) || self.events@ == turn_script()
        } else {
            self.events@ == turn_script().take(events_in(self.phase))
        }
        &&& (self.phase == Phase::StoppingIndicator) == (self.outcome is Some)
    }

    /// A coordinator whose log starts with `prompt` as its system message,
    /// or empty when `prompt` is empty.
    pub fn new(prompt: &str) -> (r: TurnCoordinator)
        ensures
            r.wf(),
            r.phase_spec() == Phase::Idle,
            r.log_spec() == initial_log(prompt@),
            r.events_spec().len() == 0,
    {
        let r = TurnCoordinator {
            log: ConversationLog::new(prompt),
            phase: Phase::Idle,
            events: Vec::new(),
            outcome: None,
        };
        proof {
            assert(r.events@ =~= turn_script().take(0));
        }
        r
    }

    pub fn log(&self) -> (r: &ConversationLog)
        ensures
            r@ == self.log_spec(),
            self.wf() ==> r.wf(),
    {
        &self.log
    }

    pub fn phase(&self) -> (r: Phase)
        ensures
            r == self.phase_spec(),
    {
        self.phase
    }

    pub fn events(&self) -> (r: &Vec<TurnEvent>)
        ensures
            r@ == self.events_spec(),
    {
        &self.events
    }

    fn record(&mut self, e: TurnEvent)
        ensures
            final(self).events@ == old(self).events@.push(e),
            final(self).log == old(self).log,
            final(self).phase == old(self).phase,
            final(self).outcome == old(self).outcome,
    {
        self.events.push(e);
    }

    /// Takes a line of input: records it in the log unless it is blank, and
    /// gives the request to send while the cue runs. The request carries the
    /// whole log, with the new message if there is one.
    pub fn accept_input(&mut self, input: &str) -> (r: CompletionRequest)
        requires
            old(self).wf(),
            old(self).phase_spec() == Phase::Idle,
        ensures
            final(self).wf(),
            final(self).phase_spec() == Phase::RequestInFlight,
            final(self).events_spec() == turn_script().take(3),
            final(self).log_spec() == after_user_input(old(self).log_spec(), input@),
            crate::message::messages_view(r.messages@) == final(self).log_spec(),
            r.model@ == crate::request::chat_model(),
            r.temperature is None,
            r.max_tokens is None,
    {
        self.events = Vec::new();
        self.record(TurnEvent::InputRead);
        self.log.record_user_input(input);
        self.record(TurnEvent::IndicatorStarted);
        let request = chat_request(&self.log);
        self.record(TurnEvent::RequestSent);
        self.phase = Phase::RequestInFlight;
        proof {
            reveal(turn_script);
            assert(self.events@ =~= turn_script().take(3));
        }
        request
    }

    /// The outcome of the request has arrived: the cue is to be told to stop.
    pub fn response_arrived(&mut self, outcome: Result<String, ChatError>)
        requires
            old(self).wf(),
            old(self).phase_spec() == Phase::RequestInFlight,
        ensures
            final(self).wf(),
            final(self).phase_spec() == Phase::StoppingIndicator,
            final(self).events_spec() == turn_script().take(5),
            final(self).log_spec() == old(self).log_spec(),
            final(self).outcome_spec() == Some(outcome),
    {
        self.record(TurnEvent::ResponseArrived);
        self.record(TurnEvent::StopSignalled);
        self.outcome = Some(outcome);
        self.phase = Phase::StoppingIndicator;
        proof {
            reveal(turn_script);
            assert(self.events@ =~= turn_script().take(5));
        }
    }

    /// The cue has stopped and cleared its line. Gives the reply to render, or
    /// the error that ends the turn.
    pub fn indicator_stopped(&mut self) -> (r: Result<String, ChatError>)
        requires
            old(self).wf(),
            old(self).phase_spec() == Phase::StoppingIndicator,
        ensures
            final(self).wf(),
            Some(r) == old(self).outcome_spec(),
            final(self).log_spec() == old(self).log_spec(),
            r is Ok ==> final(self).phase_spec() == Phase::Rendering && final(self).events_spec()
                == turn_script().take(7),
            r is Err ==> final(self).phase_spec() == Phase::Failed && final(self).events_spec()
                == turn_script().take(6),
    {
        self.record(TurnEvent::IndicatorStopped);
        let outcome = self.outcome.take();
        match outcome {
            Some(Ok(reply)) => {
                self.record(TurnEvent::RenderStarted);
                self.phase = Phase::Rendering;
                proof {
                    reveal(turn_script);
                    assert(self.events@ =~= turn_script().take(7));
                }
                Ok(reply)
            },
            Some(Err(e)) => {
                self.phase = Phase::Failed;
                proof {
                    reveal(turn_script);
                    assert(self.events@ =~= turn_script().take(6));
                }
                Err(e)
            },
            None => {
                proof {
                    assert(false);
                }
                Err(ChatError::Transport(String::new()))
            },
        }
    }

    /// The reply has been rendered: it joins the log unless it is blank, and
    /// the profile is to be reconciled.
    pub fn render_finished(&mut self, reply: &str) -> (appended: bool)
        requires
            old(self).wf(),
            old(self).phase_spec() == Phase::Rendering,
        ensures
            final(self).wf(),
            final(self).phase_spec() == Phase::Reconciling,
            final(self).events_spec() == turn_script().take(8),
            final(self).log_spec() == after_reply(old(self).log_spec(), reply@),
            appended == (trimmed(reply@).len() > 0),
    {
        self.record(TurnEvent::RenderFinished);
        let appended = self.log.record_reply(reply);
        self.phase = Phase::Reconciling;
        proof {
            reveal(turn_script);
            assert(self.events@ =~= turn_script().take(8));
        }
        appended
    }

    /// The profile has been reconciled: the turn is over.
    pub fn profile_reconciled(&mut self)
        requires
            old(self).wf(),
            old(self).phase_spec() == Phase::Reconciling,
        ensures
            final(self).wf(),
            final(self).phase_spec() == Phase::Idle,
            final(self).log_spec() == old(self).log_spec(),
            final(self).events_spec() == turn_script(),
    {
        self.record(TurnEvent::ProfileReconciled);
        self.phase = Phase::Idle;
        proof {
            reveal(turn_script);
            assert(self.events@ =~= turn_script());
        }
    }

    proof fn lemma_events_follow_script(&self)
        requires
            self.wf(),
        ensures
            self.events@.len() <= 9,
            forall|i: int| 0 <= i < self.events@.len() ==> self.events@[i] == turn_script()[i],
    {
        lemma_script();
        let n: int = if self.events@.len() == 9 { 9 } else { events_in(self.phase) };
        assert(self.events@ == turn_script().take(n));
    }

    /// In every state of a coordinator only the first message of the log may be
    /// a system message.
    pub proof fn law_log_well_formed(&self)
        requires
            self.wf(),
        ensures
            log_wf(self.log_spec()),
    {
    }

    /// In every state of a coordinator, the cue has been told to stop and has
    /// stopped before rendering starts: each `RenderStarted` comes after a
    /// `StopSignalled` and an `IndicatorStopped`, and the render phase is only
    /// reached once the cue has stopped.
    pub proof fn law_indicator_stops_before_render(&self)
        requires
            self.wf(),
        ensures
            stop_precedes_render(self.events_spec()),
            self.phase_spec() == Phase::Rendering ==> self.events_spec().contains(
                TurnEvent::IndicatorStopped,
            ),
    {
        self.lemma_events_follow_script();
        lemma_prefix_order(self.events@);
        if self.phase == Phase::Rendering {
            lemma_script();
            assert(self.events@[5] == turn_script()[5]);
        }
    }
}

} // verus!
