//! The control loop as a state machine. A state says what is to be done
//! outside: send a message, read a document, run a command. An event brings
//! back what that gave, and decides the next state.

use crate::directive::{
    asks_to_stop, blank_command_cause, closing_fence, directive_of, is_bare, is_blank_command,
    lemma_stop_is_not_blank, lemma_unfenced_of_bare_body, lemma_unfenced_of_yaml_fence,
    lemma_unfenced_of_yml_fence, unfence, unfenced, yaml_fence, yml_fence, Directive,
    DirectiveView, Response, ResponseView,
};
use crate::error::{
    AgentError, AgentErrorView, BackendError, BackendErrorView, ParseError, Stream,
};
use crate::outcome::{
    parse_failure, report, reported, spawn_failure, CommandOutput, CommandOutputView, Execution,
    ExecutionView,
};
use crate::text::{framed, is_blank, is_trimmed};
use crate::yaml::yaml_text;
use vstd::prelude::*;
use vstd::string::StringExecFns;
use vstd::utf8::valid_utf8;

verus! {

/// What the world outside hands back to the loop.
#[derive(Debug)]
pub enum Event {
    /// The backend's answer to the message that was sent: the reply as the
    /// model wrote it, or the backend's failure.
    Replied(Result<String, BackendError>),
    /// What reading the unfenced text as structured text gave: the document,
    /// or why there is none.
    Decoded(Result<Response, ParseError>),
    /// What running the command gave: what the process left, or why it could
    /// not be started.
    Ran(Result<Execution, String>),
}

/// An `Event` as a mathematical value.
pub enum EventView {
    Replied(Result<Seq<char>, BackendErrorView>),
    Decoded(Result<ResponseView, Seq<char>>),
    Ran(Result<ExecutionView, Seq<char>>),
}

impl View for Event {
    type V = EventView;

    open spec fn view(&self) -> EventView {
        match self {
            Event::Replied(Ok(reply)) => EventView::Replied(Ok(reply@)),
            Event::Replied(Err(error)) => EventView::Replied(Err(error@)),
            Event::Decoded(Ok(response)) => EventView::Decoded(Ok(response@)),
            Event::Decoded(Err(error)) => EventView::Decoded(Err(error@)),
            Event::Ran(Ok(execution)) => EventView::Ran(Ok(execution@)),
            Event::Ran(Err(description)) => EventView::Ran(Err(description@)),
        }
    }
}

/// Where the loop stands, and with it what the world outside is to do next.
/// `turn` counts the messages sent so far, the one that is out included.
#[derive(Debug)]
pub enum State {
    /// `message` is to be sent through the backend; its answer comes back as
    /// `Event::Replied`.
    AwaitingResponse { turn: u64, message: String },
    /// A reply has come. `text` is the structured text inside it, to be read
    /// as a document; what that gives comes back as `Event::Decoded`.
    HandlingDirective { turn: u64, text: String },
    /// The directive names a command, to be run whole by one shell; what that
    /// gives comes back as `Event::Ran`.
    Executing { turn: u64, directive: Directive },
    /// The turn has its report; `resume` makes the next message of it.
    Continuing { turn: u64, output: CommandOutput },
    /// The model asked to stop. Nothing more is sent.
    Terminated { turn: u64 },
    /// The loop was aborted. Nothing more is sent.
    Failed { turn: u64, error: AgentError },
}

/// A `State` as a mathematical value.
pub enum StateView {
    AwaitingResponse { turn: nat, message: Seq<char> },
    HandlingDirective { turn: nat, text: Seq<char> },
    Executing { turn: nat, directive: DirectiveView },
    Continuing { turn: nat, output: CommandOutputView },
    Terminated { turn: nat },
    Failed { turn: nat, error: AgentErrorView },
}

impl View for State {
    type V = StateView;

    open spec fn view(&self) -> StateView {
        match self {
            State::AwaitingResponse { turn, message } => StateView::AwaitingResponse {
                turn: *turn as nat,
                message: message@,
            },
            State::HandlingDirective { turn, text } => StateView::HandlingDirective {
                turn: *turn as nat,
                text: text@,
            },
            State::Executing { turn, directive } => StateView::Executing {
                turn: *turn as nat,
                directive: directive@,
            },
            State::Continuing { turn, output } => StateView::Continuing {
                turn: *turn as nat,
                output: output@,
            },
            State::Terminated { turn } => StateView::Terminated { turn: *turn as nat },
            State::Failed { turn, error } => StateView::Failed {
                turn: *turn as nat,
                error: error@,
            },
        }
    }
}

impl StateView {
    /// The number of the turn that the loop is in.
    pub open spec fn turn(self) -> nat {
        match self {
            StateView::AwaitingResponse { turn, .. } => turn,
            StateView::HandlingDirective { turn, .. } => turn,
            StateView::Executing { turn, .. } => turn,
            StateView::Continuing { turn, .. } => turn,
            StateView::Terminated { turn } => turn,
            StateView::Failed { turn, .. } => turn,
        }
    }

    /// The loop is over: it ended as the model asked, or it was aborted.
    pub open spec fn is_over(self) -> bool {
        self is Terminated || self is Failed
    }

    /// The state in which the loop starts: its first message is out.
    pub open spec fn start(first_message: Seq<char>) -> StateView {
        StateView::AwaitingResponse { turn: 1, message: first_message }
    }

    /// What a state becomes when a document has been read, or could not be.
    pub open spec fn after_decoding(turn: nat, read: Result<ResponseView, Seq<char>>) -> StateView {
        match read {
            Err(cause) => StateView::Continuing { turn, output: parse_failure(cause) },
            Ok(response) => match directive_of(response) {
                Err(cause) => StateView::Continuing { turn, output: parse_failure(cause) },
                Ok(directive) => if asks_to_stop(directive.command) {
                    StateView::Terminated { turn }
                } else {
                    StateView::Executing { turn, directive }
                },
            },
        }
    }

    /// What a state becomes when the command has run, or could not be
    /// started.
    pub open spec fn after_running(turn: nat, ran: Result<ExecutionView, Seq<char>>) -> StateView {
        match reported(ran) {
            Ok(output) => StateView::Continuing { turn, output },
            Err(stream) => StateView::Failed { turn, error: AgentErrorView::InvalidUtf8(stream) },
        }
    }

    /// The state after `event`. An event that does not answer what the state
    /// waits for changes nothing.
    pub open spec fn step(self, event: EventView) -> StateView {
        match (self, event) {
            (StateView::AwaitingResponse { turn, .. }, EventView::Replied(Ok(reply))) => {
                StateView::HandlingDirective { turn, text: unfenced(reply) }
            },
            (StateView::AwaitingResponse { turn, .. }, EventView::Replied(Err(error))) => {
                StateView::Failed { turn, error: AgentErrorView::Backend(error) }
            },
            (StateView::HandlingDirective { turn, .. }, EventView::Decoded(read)) => {
                StateView::after_decoding(turn, read)
            },
            (StateView::Executing { turn, .. }, EventView::Ran(ran)) => {
                StateView::after_running(turn, ran)
            },
            _ => self,
        }
    }

    /// What a turn with its report becomes, given the report as text or the
    /// encoder's failure: the next turn with that text as its message, or the
    /// end.
    pub open spec fn proceed(turn: nat, encoded: Result<Seq<char>, AgentErrorView>) -> StateView {
        match encoded {
            Ok(message) => StateView::AwaitingResponse { turn: turn + 1, message },
            Err(error) => StateView::Failed { turn, error },
        }
    }

    /// The state after `resume`, where the encoder writes the report:
    /// the next turn, with the report as its message. `None` where the
    /// encoder fails. A state other than `Continuing` stays as it is.
    pub open spec fn resumed(self) -> Option<StateView> {
        match self {
            StateView::Continuing { turn, output } => match yaml_text(report(output)) {
                Some(message) => Some(StateView::proceed(turn, Ok(message))),
                None => None,
            },
            _ => Some(self),
        }
    }
}

impl State {
    /// The state in which the loop starts: `first_message` is to be sent, in
    /// turn 1.
    pub fn start(first_message: String) -> (state: State)
        ensures
            state@ == StateView::start(first_message@),
    {
        State::AwaitingResponse { turn: 1, message: first_message }
    }

    /// The number of the turn that the loop is in.
    pub fn turn(&self) -> (turn: u64)
        ensures
            turn == self@.turn(),
    {
        match self {
            State::AwaitingResponse { turn, .. } => *turn,
            State::HandlingDirective { turn, .. } => *turn,
            State::Executing { turn, .. } => *turn,
            State::Continuing { turn, .. } => *turn,
            State::Terminated { turn } => *turn,
            State::Failed { turn, .. } => *turn,
        }
    }

    /// Whether the loop is over.
    pub fn is_over(&self) -> (over: bool)
        ensures
            over == self@.is_over(),
    {
        match self {
            State::Terminated { .. } => true,
            State::Failed { .. } => true,
            _ => false,
        }
    }

    /// The state after a document has been read, or could not be: the
    /// report of the failure, the end of the loop, or the command to run.
    pub fn after_decoding(turn: u64, read: Result<Response, ParseError>) -> (next: State)
        ensures
            next@ == StateView::after_decoding(
                turn as nat,
                match read {
                    Ok(response) => Ok(response@),
                    Err(error) => Err(error@),
                },
            ),
    {
        match read {
            Err(error) => State::Continuing {
                turn,
                output: CommandOutput::parse_failure(error.cause),
            },
            Ok(response) => match Directive::from_response(response) {
                Err(error) => State::Continuing {
                    turn,
                    output: CommandOutput::parse_failure(error.cause),
                },
                Ok(directive) => if directive.is_stop() {
                    State::Terminated { turn }
                } else {
                    State::Executing { turn, directive }
                },
            },
        }
    }

    /// The state after the command has run, or could not be started: the
    /// report of either, or the end of the loop where a stream is not UTF-8.
    pub fn after_running(turn: u64, ran: Result<Execution, String>) -> (next: State)
        ensures
            next@ == StateView::after_running(
                turn as nat,
                match ran {
                    Ok(execution) => Ok(execution@),
                    Err(description) => Err(description@),
                },
            ),
    {
        match ran {
            Err(description) => State::Continuing {
                turn,
                output: CommandOutput::spawn_failure(description),
            },
            Ok(execution) => match CommandOutput::decode(execution) {
                Ok(output) => State::Continuing { turn, output },
                Err(error) => State::Failed { turn, error },
            },
        }
    }

    /// The state after `event`. An event that does not answer what the state
    /// waits for changes nothing; a state in which the loop is over never
    /// changes.
    pub fn step(self, event: Event) -> (next: State)
        ensures
            next@ == self@.step(event@),
    {
        match self {
            State::AwaitingResponse { turn, message } => match event {
                Event::Replied(Ok(reply)) => State::HandlingDirective {
                    turn,
                    text: String::from_str(unfence(reply.as_str())),
                },
                Event::Replied(Err(error)) => State::Failed {
                    turn,
                    error: AgentError::Backend(error),
                },
                _ => State::AwaitingResponse { turn, message },
            },
            State::HandlingDirective { turn, text } => match event {
                Event::Decoded(read) => State::after_decoding(turn, read),
                _ => State::HandlingDirective { turn, text },
            },
            State::Executing { turn, directive } => match event {
                Event::Ran(ran) => State::after_running(turn, ran),
                _ => State::Executing { turn, directive },
            },
            other => other,
        }
    }

    /// The state that follows a turn with its report, given the report as
    /// text: the next turn, in which that text is sent. Given the encoder's
    /// failure instead, the loop is aborted.
    pub fn proceed(turn: u64, encoded: Result<String, AgentError>) -> (next: State)
        requires
            turn < u64::MAX,
        ensures
            next@ == StateView::proceed(
                turn as nat,
                match encoded {
                    Ok(message) => Ok(message@),
                    Err(error) => Err(error@),
                },
            ),
    {
        match encoded {
            Ok(message) => State::AwaitingResponse { turn: turn + 1, message },
            Err(error) => State::Failed { turn, error },
        }
    }

    /// Makes the next message of a turn's report. In `Continuing` the report
    /// is written as structured text and the next turn begins with it as the
    /// message; where the encoder fails, the loop is aborted. Any other state
    /// stays as it is.
    pub fn resume(self) -> (next: State)
        requires
            self is Continuing ==> self@.turn() < u64::MAX,
        ensures
            match self@.resumed() {
                Some(resumed) => next@ == resumed,
                None => next@ matches StateView::Failed { turn, error } && turn == self@.turn()
                    && error is Encode,
            },
    {
        match self {
            State::Continuing { turn, output } => State::proceed(turn, output.encode()),
            other => other,
        }
    }
}

/// No event changes the number of the turn: it counts the messages sent,
/// and only `resume` sends.
pub proof fn lemma_step_keeps_turn(state: StateView, event: EventView)
    ensures
        state.step(event).turn() == state.turn(),
{
}

/// The turns are counted from 1, and `resume` adds one for the message
/// that it sends.
pub proof fn lemma_turns_count_messages(
    first_message: Seq<char>,
    turn: nat,
    output: CommandOutputView,
)
    ensures
        StateView::start(first_message).turn() == 1,
        (StateView::Continuing { turn, output }).resumed() matches Some(next) ==> next
            is AwaitingResponse && next.turn() == turn + 1,
{
}

/// Once the loop is over, because the model asked to stop or because the
/// loop was aborted, no event and no `resume` leads anywhere else: nothing
/// more is sent.
pub proof fn lemma_over_is_absorbing(state: StateView, event: EventView)
    requires
        state.is_over(),
    ensures
        state.step(event) == state,
        state.resumed() == Some(state),
{
}

/// A fence around a reply does not change what is read: whether text that is
/// trimmed and bears no fence comes bare, inside a fence of the long
/// spelling or inside a fence of the short one, with any whitespace around
/// it, the text handed out to be read is that text.
pub proof fn lemma_fence_does_not_change_what_is_read(
    turn: nat,
    message: Seq<char>,
    lead: Seq<char>,
    body: Seq<char>,
    trail: Seq<char>,
)
    requires
        is_blank(lead),
        is_blank(trail),
        is_trimmed(body),
        is_bare(body),
    ensures
        ({
            let awaiting = StateView::AwaitingResponse { turn, message };
            let read = StateView::HandlingDirective { turn, text: body };
            &&& awaiting.step(EventView::Replied(Ok(framed(lead, body, trail)))) == read
            &&& awaiting.step(
                EventView::Replied(
                    Ok(framed(lead, yaml_fence() + body + closing_fence(), trail)),
                ),
            ) == read
            &&& awaiting.step(
                EventView::Replied(Ok(framed(lead, yml_fence() + body + closing_fence(), trail))),
            ) == read
        }),
{
    lemma_unfenced_of_bare_body(lead, body, trail);
    lemma_unfenced_of_yml_fence(lead, body, trail);
    lemma_unfenced_of_yaml_fence(lead, body, trail);
}

/// A failure of the backend aborts the loop in the turn in which it comes,
/// with that failure as the error.
pub proof fn lemma_backend_failure_aborts(turn: nat, message: Seq<char>, error: BackendErrorView)
    ensures
        (StateView::AwaitingResponse { turn, message }).step(EventView::Replied(Err(error)))
            == (StateView::Failed { turn, error: AgentErrorView::Backend(error) }),
{
}

/// A document whose command is the stop word ends the loop: the state is
/// `Terminated`, from which nothing is sent.
pub proof fn lemma_stop_terminates(turn: nat, text: Seq<char>, response: ResponseView)
    requires
        asks_to_stop(response.run),
    ensures
        (StateView::HandlingDirective { turn, text }).step(EventView::Decoded(Ok(response)))
            == (StateView::Terminated { turn }),
{
    lemma_stop_is_not_blank(response.run);
}

/// A directive that does not ask to stop gives one command to run, what
/// running it gave makes one report, and the report makes one message, sent
/// in the next turn. This holds where running gave a report, that is
/// unless a process wrote bytes that are not UTF-8, and where the encoder
/// writes the report.
pub proof fn lemma_command_gives_one_report_and_one_message(
    turn: nat,
    text: Seq<char>,
    response: ResponseView,
    ran: Result<ExecutionView, Seq<char>>,
    output: CommandOutputView,
    message: Seq<char>,
)
    requires
        !is_blank_command(response.run),
        !asks_to_stop(response.run),
        reported(ran) == Ok::<CommandOutputView, Stream>(output),
        yaml_text(report(output)) == Some(message),
    ensures
        ({
            let handling = StateView::HandlingDirective { turn, text };
            let executing = handling.step(EventView::Decoded(Ok(response)));
            let continuing = executing.step(EventView::Ran(ran));
            &&& executing == StateView::Executing {
                turn,
                directive: DirectiveView { reasoning: response.thoughts, command: response.run },
            }
            &&& continuing == StateView::Continuing { turn, output }
            &&& continuing.resumed() == Some(
                StateView::AwaitingResponse { turn: turn + 1, message },
            )
        }),
{
}

/// A reply that cannot be read as a directive does not end the loop. The
/// turn gets a report with the fixed diagnostic as standard output, the
/// cause as standard error and no exit code, and where the encoder writes
/// it, it is the message of the next turn.
pub proof fn lemma_unreadable_reply_is_reported(turn: nat, text: Seq<char>, cause: Seq<char>)
    ensures
        ({
            let handling = StateView::HandlingDirective { turn, text };
            let continuing = handling.step(EventView::Decoded(Err(cause)));
            &&& continuing == StateView::Continuing { turn, output: parse_failure(cause) }
            &&& !continuing.is_over()
            &&& parse_failure(cause).stdout == "Error parsing response"@
            &&& parse_failure(cause).stderr == cause
            &&& parse_failure(cause).exit_code is None
            &&& yaml_text(report(parse_failure(cause))) matches Some(message)
                ==> continuing.resumed() == Some(
                StateView::AwaitingResponse { turn: turn + 1, message },
            )
        }),
{
}

/// A document without a command is reported like a reply that cannot be
/// read, with a cause that is not empty.
pub proof fn lemma_blank_command_is_reported(turn: nat, text: Seq<char>, response: ResponseView)
    requires
        is_blank_command(response.run),
    ensures
        (StateView::HandlingDirective { turn, text }).step(EventView::Decoded(Ok(response)))
            == (StateView::Continuing { turn, output: parse_failure(blank_command_cause()) }),
        blank_command_cause().len() > 0,
{
    reveal_strlit("the command is empty");
}

/// A command that cannot be started does not end the loop. The turn gets a
/// report with the fixed diagnostic as standard output, the description of
/// the failure as standard error and no exit code, and where the encoder
/// writes it, it is the message of the next turn.
pub proof fn lemma_spawn_failure_is_reported(
    turn: nat,
    directive: DirectiveView,
    description: Seq<char>,
)
    ensures
        ({
            let executing = StateView::Executing { turn, directive };
            let continuing = executing.step(EventView::Ran(Err(description)));
            &&& continuing == StateView::Continuing { turn, output: spawn_failure(description) }
            &&& !continuing.is_over()
            &&& spawn_failure(description).stdout == "Error trying to run command"@
            &&& spawn_failure(description).stderr == description
            &&& spawn_failure(description).exit_code is None
            &&& yaml_text(report(spawn_failure(description))) matches Some(message)
                ==> continuing.resumed() == Some(
                StateView::AwaitingResponse { turn: turn + 1, message },
            )
        }),
{
}

/// A process that wrote bytes that are not UTF-8 aborts the loop, and
/// standard output is the stream named where both are at fault.
pub proof fn lemma_undecodable_output_aborts(
    turn: nat,
    directive: DirectiveView,
    execution: ExecutionView,
)
    requires
        !valid_utf8(execution.stdout) || !valid_utf8(execution.stderr),
    ensures
        (StateView::Executing { turn, directive }).step(EventView::Ran(Ok(execution)))
            == (StateView::Failed {
            turn,
            error: AgentErrorView::InvalidUtf8(
                if !valid_utf8(execution.stdout) {
                    Stream::Stdout
                } else {
                    Stream::Stderr
                },
            ),
        }),
{
}

} // verus!
