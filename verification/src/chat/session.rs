//! The interactive session as a state machine.
//!
//! A session owns the conversation window, the text being typed, the
//! transcript shown to the user and the scroll position. It is driven from
//! outside: the caller hands it one event after the other and does what the
//! returned action asks for. When the action is a request, the caller sends
//! it and reports how it ended with [`Session::complete`].
//!
//! At most one request is under way at a time. While one is, the session is
//! in [`Phase::Awaiting`]: typing goes on, submitting does nothing.

use vstd::prelude::*;
use crate::chat::context::ChatContext;
use crate::chat::window::appended;
use crate::llm::completion::CompletionError;
use crate::llm::message::{ChatMessage, Role, Turn};
use crate::llm::prompt::{create_prompt, prompt_for};
use crate::text::{blank, is_blank, pop_char, prefixed, push_char};

verus! {

/// The first line of a new transcript.
pub const WELCOME: &'static str =
    "Welcome to miden-code! Type your question and press Enter to send.";

/// The second line of a new transcript.
pub const EXIT_HINT: &'static str = "Press Ctrl+C to exit.";

/// What precedes the user's words in the transcript.
pub const USER_PREFIX: &'static str = "You: ";

/// What precedes the model's words in the transcript.
pub const ASSISTANT_PREFIX: &'static str = "Assistant: ";

/// What precedes a failure in the transcript.
pub const ERROR_PREFIX: &'static str = "Error: ";

/// The line that stands in the transcript while a request is under way.
pub const THINKING: &'static str = "Assistant: Thinking...";

/// Where a session stands.
#[derive(Clone, Copy, Debug, PartialEq, Eq, Structural)]
pub enum Phase {
    /// Waiting for a key.
    Idle,
    /// Text is being typed.
    Composing,
    /// A request is under way.
    Awaiting,
    /// The user asked to leave.
    Terminating,
}

/// What the terminal reports, one at a time and in order.
#[derive(Clone, Copy, Debug, PartialEq, Eq, Structural)]
pub enum InputEvent {
    /// A character was typed.
    Char(char),
    /// The last character is to go.
    Backspace,
    /// The text is to be sent.
    Submit,
    /// The transcript is to move up by a line.
    ScrollUp,
    /// The transcript is to move down by a line.
    ScrollDown,
    /// The user asks to leave.
    Interrupt,
    /// Anything else.
    Other,
}

/// What the caller is to do after an event.
#[derive(Debug, PartialEq, Eq)]
pub enum Action {
    /// Draw, and wait for the next event.
    Continue,
    /// Draw, send this request, and report how it ended.
    Send(Vec<ChatMessage>),
    /// Release the terminal and leave.
    Exit,
}

/// [`Action`] as a mathematical value.
#[verifier::ext_equal]
pub enum ActionView {
    Continue,
    Send(Seq<Turn>),
    Exit,
}

impl View for Action {
    type V = ActionView;

    open spec fn view(&self) -> ActionView {
        match self {
            Action::Continue => ActionView::Continue,
            Action::Send(request) => ActionView::Send(request.deep_view()),
            Action::Exit => ActionView::Exit,
        }
    }
}

/// A session as a mathematical value: the model of [`Session`].
#[verifier::ext_equal]
pub struct SessionState {
    pub phase: Phase,
    /// The text typed and not yet sent.
    pub input: Seq<char>,
    /// The transcript, one line after the other.
    pub log: Seq<Seq<char>>,
    /// The conversation window, oldest turn first.
    pub window: Seq<Turn>,
    /// The capacity of the window.
    pub capacity: nat,
    /// By how many lines the transcript is scrolled.
    pub scroll: nat,
}

/// How a request ended, as a mathematical value: the completion, or the line
/// that says what went wrong.
pub open spec fn outcome_view(outcome: Result<String, CompletionError>) -> Result<
    Seq<char>,
    Seq<char>,
> {
    match outcome {
        Ok(completion) => Ok(completion@),
        Err(error) => Err(error.message_text()),
    }
}

impl SessionState {
    /// The session that starts on `window`.
    pub open spec fn initial(window: Seq<Turn>, capacity: nat) -> SessionState {
        SessionState {
            phase: Phase::Idle,
            input: Seq::empty(),
            log: seq![WELCOME@, EXIT_HINT@],
            window,
            capacity,
            scroll: 0,
        }
    }

    /// Whether a submit event sends something: the session neither waits for
    /// a completion nor leaves, and the text typed is not blank.
    pub open spec fn accepts_submit(self) -> bool {
        self.phase != Phase::Awaiting && self.phase != Phase::Terminating && !is_blank(self.input)
    }

    /// The session after the text typed was sent.
    pub open spec fn submitted(self) -> SessionState {
        SessionState {
            phase: Phase::Awaiting,
            input: Seq::empty(),
            log: self.log.push(USER_PREFIX@ + self.input).push(THINKING@),
            window: appended(
                self.window,
                self.capacity,
                Turn { role: Role::User, content: self.input },
            ),
            ..self
        }
    }

    /// Whether `event` can be taken in. Every event can, but for a scroll
    /// down at the last position that 16 bits can count.
    pub open spec fn can_take(self, event: InputEvent) -> bool {
        event == InputEvent::ScrollDown && self.phase != Phase::Terminating ==> self.scroll
            < u16::MAX
    }

    /// The session after `event`.
    ///
    /// A session that is leaving ignores every event. Otherwise:
    /// - a character joins the text, and the session is composing from then
    ///   on, unless it waits for a completion: then it goes on waiting;
    /// - backspace takes the last character away, if there is one, and
    ///   leaves the phase as it is;
    /// - a submit event sends the text where [`Self::accepts_submit`] holds
    ///   and does nothing where it does not;
    /// - scrolling moves by one line and stops at the top;
    /// - an interrupt makes the session leave, whatever it was doing. A
    ///   request that is under way then is not taken back: its outcome is
    ///   dropped when it comes.
    pub open spec fn step(self, event: InputEvent) -> SessionState {
        if self.phase == Phase::Terminating {
            self
        } else {
            match event {
                InputEvent::Char(c) => SessionState {
                    input: self.input.push(c),
                    phase: if self.phase == Phase::Awaiting {
                        Phase::Awaiting
                    } else {
                        Phase::Composing
                    },
                    ..self
                },
                InputEvent::Backspace => SessionState {
                    input: if self.input.len() > 0 {
                        self.input.drop_last()
                    } else {
                        self.input
                    },
                    ..self
                },
                InputEvent::Submit => if self.accepts_submit() {
                    self.submitted()
                } else {
                    self
                },
                InputEvent::ScrollUp => SessionState {
                    scroll: if self.scroll > 0 {
                        (self.scroll - 1) as nat
                    } else {
                        0
                    },
                    ..self
                },
                InputEvent::ScrollDown => SessionState { scroll: self.scroll + 1, ..self },
                InputEvent::Interrupt => SessionState { phase: Phase::Terminating, ..self },
                InputEvent::Other => self,
            }
        }
    }

    /// What the caller is to do after `event`: leave once the session is
    /// leaving, send the request where the event sent the text, and go on
    /// otherwise. The request is built from the window as it is after the
    /// user's turn was appended.
    pub open spec fn action(self, event: InputEvent) -> ActionView {
        if self.phase == Phase::Terminating || event == InputEvent::Interrupt {
            ActionView::Exit
        } else if event == InputEvent::Submit && self.accepts_submit() {
            ActionView::Send(prompt_for(self.submitted().window))
        } else {
            ActionView::Continue
        }
    }

    /// The session after each event of `events`, in order.
    pub open spec fn run(self, events: Seq<InputEvent>) -> SessionState
        decreases events.len(),
    {
        if events.len() == 0 {
            self
        } else {
            self.run(events.drop_last()).step(events.last())
        }
    }

    /// The transcript without the line that stood for the request under way.
    pub open spec fn log_without_placeholder(self) -> Seq<Seq<char>> {
        if self.log.len() > 0 {
            self.log.drop_last()
        } else {
            self.log
        }
    }

    /// The session after the request under way ended with `outcome`.
    ///
    /// The placeholder leaves the transcript and the completion or the
    /// failure takes its place. A completion joins the window as the model's
    /// turn; a failure leaves the window as it is. A session with no request
    /// under way is left as it is.
    pub open spec fn resolved(self, outcome: Result<Seq<char>, Seq<char>>) -> SessionState {
        if self.phase != Phase::Awaiting {
            self
        } else {
            match outcome {
                Ok(completion) => SessionState {
                    phase: Phase::Idle,
                    log: self.log_without_placeholder().push(ASSISTANT_PREFIX@ + completion),
                    window: appended(
                        self.window,
                        self.capacity,
                        Turn { role: Role::Assistant, content: completion },
                    ),
                    ..self
                },
                Err(message) => SessionState {
                    phase: Phase::Idle,
                    log: self.log_without_placeholder().push(ERROR_PREFIX@ + message),
                    ..self
                },
            }
        }
    }

    /// What holds of every session that was started and driven by events and
    /// outcomes: while a request is under way, the transcript ends with the
    /// placeholder.
    pub open spec fn consistent(self) -> bool {
        self.phase == Phase::Awaiting ==> self.log.len() > 0 && self.log.last() == THINKING@
    }
}

/// A session that was just started is consistent.
pub proof fn lemma_initial_is_consistent(window: Seq<Turn>, capacity: nat)
    ensures
        SessionState::initial(window, capacity).consistent(),
{
}

/// No event makes a consistent session inconsistent.
pub proof fn lemma_step_keeps_consistent(state: SessionState, event: InputEvent)
    requires
        state.consistent(),
    ensures
        state.step(event).consistent(),
{
}

/// No outcome makes a consistent session inconsistent.
pub proof fn lemma_resolved_keeps_consistent(
    state: SessionState,
    outcome: Result<Seq<char>, Seq<char>>,
)
    requires
        state.consistent(),
    ensures
        state.resolved(outcome).consistent(),
{
}

/// In a consistent session the line that an outcome takes out of the
/// transcript is the placeholder, and what the transcript held before the
/// placeholder stays.
pub proof fn lemma_outcome_replaces_placeholder(
    state: SessionState,
    outcome: Result<Seq<char>, Seq<char>>,
)
    requires
        state.consistent(),
        state.phase == Phase::Awaiting,
    ensures
        state.log == state.log_without_placeholder().push(THINKING@),
        state.resolved(outcome).log.len() == state.log.len(),
        state.resolved(outcome).log.drop_last() == state.log.drop_last(),
{
}

/// A submit event while a request is under way is ignored: the session stays
/// as it is, the text typed and the window with it, and nothing is sent.
pub proof fn lemma_submit_while_awaiting_is_ignored(state: SessionState)
    requires
        state.phase == Phase::Awaiting,
    ensures
        state.step(InputEvent::Submit) == state,
        state.action(InputEvent::Submit) == ActionView::Continue,
{
}

/// At most one request is under way at a time. A request is sent only by a
/// session that has none under way, and from then on the session waits; while
/// it waits no event sends another, and only the outcome or an interrupt ends
/// the wait.
pub proof fn lemma_one_request_at_a_time(state: SessionState, event: InputEvent)
    ensures
        state.action(event) is Send ==> state.phase != Phase::Awaiting && state.step(event).phase
            == Phase::Awaiting,
        state.phase == Phase::Awaiting ==> !(state.action(event) is Send),
        state.phase == Phase::Awaiting && event != InputEvent::Interrupt ==> state.step(
            event,
        ).phase == Phase::Awaiting,
        state.step(event).phase == Phase::Awaiting && state.phase != Phase::Awaiting
            ==> state.action(event) is Send,
{
}

/// While a request is under way, events leave the window alone and send
/// nothing, however many of them come: until the outcome is taken in, the
/// window is what the submission made of it.
pub proof fn lemma_window_rests_while_awaiting(state: SessionState, events: Seq<InputEvent>)
    requires
        state.phase == Phase::Awaiting,
    ensures
        state.run(events).window == state.window,
        state.run(events).capacity == state.capacity,
        state.run(events).log == state.log,
        state.run(events).phase == Phase::Awaiting || state.run(events).phase
            == Phase::Terminating,
        forall|i: int|
            0 <= i < events.len() ==> !(#[trigger] state.run(events.take(i)).action(events[i])
                is Send),
    decreases events.len(),
{
    if events.len() > 0 {
        let before = events.drop_last();
        lemma_window_rests_while_awaiting(state, before);
        assert forall|i: int| 0 <= i < events.len() implies !(#[trigger] state.run(
            events.take(i),
        ).action(events[i]) is Send) by {
            if i < before.len() {
                assert(before.take(i) =~= events.take(i));
                assert(before[i] == events[i]);
            } else {
                assert(events.take(i) =~= before);
            }
        }
    }
}

/// No run of events makes a consistent session inconsistent.
pub proof fn lemma_run_keeps_consistent(state: SessionState, events: Seq<InputEvent>)
    requires
        state.consistent(),
    ensures
        state.run(events).consistent(),
    decreases events.len(),
{
    if events.len() > 0 {
        lemma_run_keeps_consistent(state, events.drop_last());
    }
}

/// A failed request leaves nothing in the window, whatever was typed while it
/// was under way: after the failure the window is what the submission made of
/// it, and the text typed meanwhile is still there.
pub proof fn lemma_failure_after_events_leaves_window(
    state: SessionState,
    events: Seq<InputEvent>,
    message: Seq<char>,
)
    requires
        state.accepts_submit(),
    ensures
        ({
            let sent = state.step(InputEvent::Submit);
            let failed = sent.run(events).resolved(Err(message));
            &&& failed.window == appended(
                state.window,
                state.capacity,
                Turn { role: Role::User, content: state.input },
            )
            &&& failed.input == sent.run(events).input
            &&& failed.phase == Phase::Idle || failed.phase == Phase::Terminating
        }),
{
    lemma_window_rests_while_awaiting(state.step(InputEvent::Submit), events);
}

/// No event but an accepted submit touches the window, and no event changes
/// its capacity.
pub proof fn lemma_only_submit_touches_window(state: SessionState, event: InputEvent)
    ensures
        state.step(event).capacity == state.capacity,
        !(event == InputEvent::Submit && state.accepts_submit()) ==> state.step(event).window
            == state.window,
{
}

/// A failed request leaves nothing in the window. After a submission that
/// failed the window is what the submission made of it: the window before
/// with the user's turn appended. Where that append evicted nothing, the
/// window is longer by exactly the user's turn. The transcript has gained the
/// user's line and the line of the failure.
pub proof fn lemma_failure_leaves_window(state: SessionState, message: Seq<char>)
    requires
        state.accepts_submit(),
    ensures
        ({
            let turn = Turn { role: Role::User, content: state.input };
            let sent = state.step(InputEvent::Submit);
            let failed = sent.resolved(Err(message));
            &&& sent.phase == Phase::Awaiting
            &&& failed.phase == Phase::Idle
            &&& failed.window == sent.window
            &&& failed.window == appended(state.window, state.capacity, turn)
            &&& state.window.len() < state.capacity ==> failed.window == state.window.push(turn)
            &&& failed.log == state.log.push(USER_PREFIX@ + state.input).push(
                ERROR_PREFIX@ + message,
            )
        }),
{
}

/// Whatever the session, a failure leaves its window as it is.
pub proof fn lemma_failure_never_touches_window(state: SessionState, message: Seq<char>)
    ensures
        state.resolved(Err(message)).window == state.window,
        state.resolved(Err(message)).input == state.input,
{
}

/// A completed request puts the model's turn into the window and its line in
/// the place of the placeholder.
pub proof fn lemma_success_appends_reply(state: SessionState, completion: Seq<char>)
    requires
        state.accepts_submit(),
    ensures
        ({
            let sent = state.step(InputEvent::Submit);
            let done = sent.resolved(Ok(completion));
            &&& done.phase == Phase::Idle
            &&& done.window == appended(
                sent.window,
                state.capacity,
                Turn { role: Role::Assistant, content: completion },
            )
            &&& done.log == state.log.push(USER_PREFIX@ + state.input).push(
                ASSISTANT_PREFIX@ + completion,
            )
        }),
{
}

/// An interactive chat session.
pub struct Session {
    context: ChatContext,
    input_buffer: String,
    messages: Vec<String>,
    scroll_offset: u16,
    phase: Phase,
}

impl View for Session {
    type V = SessionState;

    closed spec fn view(&self) -> SessionState {
        SessionState {
            phase: self.phase,
            input: self.input_buffer@,
            log: self.messages.deep_view(),
            window: self.context@,
            capacity: self.context.capacity() as nat,
            scroll: self.scroll_offset as nat,
        }
    }
}

impl Session {
    /// A session on `context`: nothing typed, the transcript holding the two
    /// lines of welcome, not scrolled, waiting for a key.
    pub fn new(context: ChatContext) -> (session: Self)
        ensures
            session@ == SessionState::initial(context@, context.capacity() as nat),
            session@.consistent(),
    {
        let mut messages: Vec<String> = Vec::new();
        messages.push(WELCOME.to_owned());
        messages.push(EXIT_HINT.to_owned());
        let session = Session {
            context,
            input_buffer: String::new(),
            messages,
            scroll_offset: 0,
            phase: Phase::Idle,
        };
        session
    }

    /// Takes `event` in and says what the caller is to do next.
    ///
    /// The scroll position is counted in 16 bits, so the event must be one
    /// that can be taken in: see [`SessionState::can_take`].
    pub fn handle_event(&mut self, event: InputEvent) -> (action: Action)
        requires
            old(self)@.can_take(event),
        ensures
            final(self)@ == old(self)@.step(event),
            action@ == old(self)@.action(event),
            old(self)@.consistent() ==> final(self)@.consistent(),
    {
        if self.phase == Phase::Terminating {
            return Action::Exit;
        }
        match event {
            InputEvent::Char(c) => {
                push_char(&mut self.input_buffer, c);
                if self.phase != Phase::Awaiting {
                    self.phase = Phase::Composing;
                }
                Action::Continue
            },
            InputEvent::Backspace => {
                let _ = pop_char(&mut self.input_buffer);
                Action::Continue
            },
            InputEvent::Submit => {
                if self.phase == Phase::Awaiting || blank(self.input_buffer.as_str()) {
                    Action::Continue
                } else {
                    let user_message = self.input_buffer.clone();
                    self.messages.push(prefixed(USER_PREFIX, user_message.as_str()));
                    self.input_buffer = String::new();
                    self.context.add_user_message(user_message);
                    self.messages.push(THINKING.to_owned());
                    self.phase = Phase::Awaiting;
                    Action::Send(create_prompt(self.context.get_messages_clone()))
                }
            },
            InputEvent::ScrollUp => {
                if self.scroll_offset > 0 {
                    self.scroll_offset -= 1;
                }
                Action::Continue
            },
            InputEvent::ScrollDown => {
                self.scroll_offset += 1;
                Action::Continue
            },
            InputEvent::Interrupt => {
                self.phase = Phase::Terminating;
                Action::Exit
            },
            InputEvent::Other => Action::Continue,
        }
    }

    /// Takes `event` in where it can be taken in, and says what the caller is
    /// to do next. Where it cannot, the session stays as it is and nothing is
    /// returned.
    pub fn try_handle_event(&mut self, event: InputEvent) -> (action: Option<Action>)
        ensures
            old(self)@.can_take(event) ==> final(self)@ == old(self)@.step(event),
            old(self)@.can_take(event) ==> (action matches Some(taken) && taken@ == old(
                self,
            )@.action(event)),
            !old(self)@.can_take(event) ==> final(self)@ == old(self)@ && action is None,
            old(self)@.consistent() ==> final(self)@.consistent(),
    {
        if event == InputEvent::ScrollDown && self.phase != Phase::Terminating
            && self.scroll_offset == u16::MAX {
            None
        } else {
            Some(self.handle_event(event))
        }
    }

    /// Takes in how the request under way ended.
    pub fn complete(&mut self, outcome: Result<String, CompletionError>)
        ensures
            final(self)@ == old(self)@.resolved(outcome_view(outcome)),
            old(self)@.consistent() ==> final(self)@.consistent(),
    {
        if self.phase == Phase::Awaiting {
            self.phase = Phase::Idle;
            let _ = self.messages.pop();
            match outcome {
                Ok(response) => {
                    self.messages.push(prefixed(ASSISTANT_PREFIX, response.as_str()));
                    self.context.add_assistant_message(response);
                },
                Err(error) => {
                    let message = error.message();
                    self.messages.push(prefixed(ERROR_PREFIX, message.as_str()));
                },
            }
        }
    }

    /// Where the session stands.
    pub fn phase(&self) -> (phase: Phase)
        ensures
            phase == self@.phase,
    {
        self.phase
    }

    /// The text typed and not yet sent.
    pub fn input_buffer(&self) -> (input: &str)
        ensures
            input@ == self@.input,
    {
        self.input_buffer.as_str()
    }

    /// The transcript, one line after the other.
    pub fn messages(&self) -> (lines: &Vec<String>)
        ensures
            lines.deep_view() == self@.log,
    {
        &self.messages
    }

    /// By how many lines the transcript is scrolled.
    pub fn scroll_offset(&self) -> (offset: u16)
        ensures
            offset == self@.scroll,
    {
        self.scroll_offset
    }

    /// The conversation window.
    pub fn context(&self) -> (context: &ChatContext)
        ensures
            context@ == self@.window,
            context.capacity() == self@.capacity,
    {
        &self.context
    }
}

} // verus!
