use miden_code::chat::session::{
    ASSISTANT_PREFIX, ERROR_PREFIX, EXIT_HINT, THINKING, USER_PREFIX, WELCOME,
};
use miden_code::chat::{Action, ChatContext, InputEvent, Phase, Session};
use miden_code::llm::prompt::SYSTEM_PROMPT;
use miden_code::llm::{ChatMessage, CompletionError};

fn fresh() -> Session {
    Session::new(ChatContext::new())
}

fn type_text(session: &mut Session, text: &str) {
    for c in text.chars() {
        assert_eq!(session.handle_event(InputEvent::Char(c)), Action::Continue);
    }
}

fn submit(session: &mut Session, text: &str) -> Action {
    type_text(session, text);
    session.handle_event(InputEvent::Submit)
}

fn window(session: &Session) -> Vec<ChatMessage> {
    session.context().get_messages_clone()
}

#[test]
fn new_session_shows_the_welcome_lines() {
    let session = fresh();
    assert_eq!(session.phase(), Phase::Idle);
    assert_eq!(session.input_buffer(), "");
    assert_eq!(session.scroll_offset(), 0);
    assert_eq!(
        session.messages(),
        &vec![
            "Welcome to miden-code! Type your question and press Enter to send.".to_string(),
            "Press Ctrl+C to exit.".to_string(),
        ]
    );
    assert_eq!(WELCOME, "Welcome to miden-code! Type your question and press Enter to send.");
    assert_eq!(EXIT_HINT, "Press Ctrl+C to exit.");
    assert_eq!(session.context().len(), 0);
}

#[test]
fn new_session_keeps_the_given_window() {
    let session = Session::new(ChatContext::with_initial_prompt("first".to_string()));
    assert_eq!(window(&session), vec![ChatMessage::user("first".to_string())]);
    assert_eq!(session.messages().len(), 2);
}

#[test]
fn typing_fills_the_buffer_and_starts_composing() {
    let mut session = fresh();
    type_text(&mut session, "hi");
    assert_eq!(session.input_buffer(), "hi");
    assert_eq!(session.phase(), Phase::Composing);
    assert_eq!(session.messages().len(), 2);
    assert_eq!(session.context().len(), 0);
}

#[test]
fn backspace_removes_the_last_character() {
    let mut session = fresh();
    type_text(&mut session, "héé");
    assert_eq!(session.handle_event(InputEvent::Backspace), Action::Continue);
    assert_eq!(session.input_buffer(), "hé");
    assert_eq!(session.phase(), Phase::Composing);
}

#[test]
fn backspace_on_empty_buffer_changes_nothing() {
    let mut session = fresh();
    assert_eq!(session.handle_event(InputEvent::Backspace), Action::Continue);
    assert_eq!(session.input_buffer(), "");
    assert_eq!(session.phase(), Phase::Idle);
}

#[test]
fn backspace_to_empty_keeps_composing() {
    let mut session = fresh();
    type_text(&mut session, "a");
    session.handle_event(InputEvent::Backspace);
    assert_eq!(session.input_buffer(), "");
    assert_eq!(session.phase(), Phase::Composing);
}

#[test]
fn submit_sends_the_window_behind_the_instruction() {
    let mut session = fresh();
    let action = submit(&mut session, "hello");
    let expected = vec![
        ChatMessage::system(SYSTEM_PROMPT.to_string()),
        ChatMessage::user("hello".to_string()),
    ];
    assert_eq!(action, Action::Send(expected));
    assert_eq!(session.phase(), Phase::Awaiting);
    assert_eq!(session.input_buffer(), "");
    assert_eq!(window(&session), vec![ChatMessage::user("hello".to_string())]);
    let log = session.messages();
    assert_eq!(log.len(), 4);
    assert_eq!(log[2], "You: hello");
    assert_eq!(log[3], "Assistant: Thinking...");
    assert_eq!(THINKING, "Assistant: Thinking...");
    assert_eq!(USER_PREFIX, "You: ");
}

#[test]
fn submit_sends_the_text_as_typed() {
    let mut session = fresh();
    let action = submit(&mut session, "  hi \t");
    assert_eq!(window(&session), vec![ChatMessage::user("  hi \t".to_string())]);
    assert_eq!(session.messages()[2], "You:   hi \t");
    match action {
        Action::Send(request) => assert_eq!(request[1].content, "  hi \t"),
        other => panic!("no request: {:?}", other),
    }
}

#[test]
fn submit_of_empty_buffer_is_ignored() {
    let mut session = fresh();
    assert_eq!(session.handle_event(InputEvent::Submit), Action::Continue);
    assert_eq!(session.phase(), Phase::Idle);
    assert_eq!(session.messages().len(), 2);
    assert_eq!(session.context().len(), 0);
}

#[test]
fn submit_of_blank_buffer_is_ignored() {
    let mut session = fresh();
    let action = submit(&mut session, " \t\n\u{a0}\u{3000} ");
    assert_eq!(action, Action::Continue);
    assert_eq!(session.phase(), Phase::Composing);
    assert_eq!(session.input_buffer(), " \t\n\u{a0}\u{3000} ");
    assert_eq!(session.messages().len(), 2);
    assert_eq!(session.context().len(), 0);
}

#[test]
fn submit_of_one_visible_character_among_blanks_is_sent() {
    let mut session = fresh();
    let action = submit(&mut session, "  \u{200b} ");
    assert!(matches!(action, Action::Send(_)));
    assert_eq!(session.phase(), Phase::Awaiting);
}

#[test]
fn submit_while_awaiting_is_ignored() {
    let mut session = fresh();
    submit(&mut session, "first");
    type_text(&mut session, "second");
    let log = session.messages().clone();
    let turns = window(&session);
    assert_eq!(session.handle_event(InputEvent::Submit), Action::Continue);
    assert_eq!(session.phase(), Phase::Awaiting);
    assert_eq!(session.input_buffer(), "second");
    assert_eq!(window(&session), turns);
    assert_eq!(session.messages(), &log);
}

#[test]
fn typing_while_awaiting_keeps_awaiting() {
    let mut session = fresh();
    submit(&mut session, "first");
    type_text(&mut session, "ab");
    session.handle_event(InputEvent::Backspace);
    assert_eq!(session.phase(), Phase::Awaiting);
    assert_eq!(session.input_buffer(), "a");
    assert_eq!(session.messages()[3], THINKING);
}

#[test]
fn failure_shows_an_error_and_leaves_the_window() {
    let mut session = fresh();
    let at_start = session.context().len();
    submit(&mut session, "hello");
    let before = session.context().len();
    assert_eq!(before, at_start + 1);
    session.complete(Err(CompletionError::Transport("timeout".to_string())));
    assert_eq!(session.phase(), Phase::Idle);
    let log = session.messages();
    assert_eq!(log.len(), 4);
    assert_eq!(log[2], "You: hello");
    assert_eq!(log[3], "Error: timeout");
    assert!(log.last().unwrap().contains("timeout"));
    assert_eq!(session.context().len(), before);
    assert_eq!(session.context().len(), 1);
    assert_eq!(window(&session), vec![ChatMessage::user("hello".to_string())]);
    assert_eq!(ERROR_PREFIX, "Error: ");
}

#[test]
fn failure_keeps_what_was_typed_meanwhile() {
    let mut session = fresh();
    submit(&mut session, "hello");
    type_text(&mut session, "next");
    session.complete(Err(CompletionError::NoChoices));
    assert_eq!(session.input_buffer(), "next");
    assert_eq!(session.phase(), Phase::Idle);
    assert_eq!(
        session.messages()[3],
        "Error: No response choices received from API"
    );
}

#[test]
fn success_shows_the_reply_and_appends_it() {
    let mut session = fresh();
    submit(&mut session, "hello");
    session.complete(Ok("hi there".to_string()));
    assert_eq!(session.phase(), Phase::Idle);
    let log = session.messages();
    assert_eq!(log.len(), 4);
    assert_eq!(log[3], "Assistant: hi there");
    assert_eq!(
        window(&session),
        vec![
            ChatMessage::user("hello".to_string()),
            ChatMessage::assistant("hi there".to_string()),
        ]
    );
    assert_eq!(ASSISTANT_PREFIX, "Assistant: ");
}

#[test]
fn second_request_carries_the_history() {
    let mut session = Session::new(ChatContext::with_initial_prompt("start".to_string()));
    submit(&mut session, "one");
    session.complete(Ok("two".to_string()));
    let action = submit(&mut session, "three");
    let expected = vec![
        ChatMessage::system(SYSTEM_PROMPT.to_string()),
        ChatMessage::user("start".to_string()),
        ChatMessage::user("one".to_string()),
        ChatMessage::assistant("two".to_string()),
        ChatMessage::user("three".to_string()),
    ];
    assert_eq!(action, Action::Send(expected));
}

#[test]
fn failed_exchange_is_not_sent_again_as_a_reply() {
    let mut session = fresh();
    submit(&mut session, "one");
    session.complete(Err(CompletionError::RequestFailed("busy".to_string())));
    assert_eq!(session.messages()[3], "Error: API request failed: busy");
    let action = submit(&mut session, "two");
    let expected = vec![
        ChatMessage::system(SYSTEM_PROMPT.to_string()),
        ChatMessage::user("one".to_string()),
        ChatMessage::user("two".to_string()),
    ];
    assert_eq!(action, Action::Send(expected));
}

#[test]
fn submit_at_capacity_evicts_the_oldest_turn() {
    let mut session = Session::new(ChatContext::with_capacity(2));
    submit(&mut session, "a");
    session.complete(Ok("b".to_string()));
    let action = submit(&mut session, "c");
    assert_eq!(session.context().len(), 2);
    assert_eq!(
        window(&session),
        vec![
            ChatMessage::assistant("b".to_string()),
            ChatMessage::user("c".to_string()),
        ]
    );
    match action {
        Action::Send(request) => assert_eq!(request.len(), 3),
        other => panic!("no request: {:?}", other),
    }
    session.complete(Err(CompletionError::Transport("timeout".to_string())));
    assert_eq!(session.context().len(), 2);
}

#[test]
fn outcome_without_a_request_is_ignored() {
    let mut session = fresh();
    type_text(&mut session, "abc");
    session.complete(Ok("stray".to_string()));
    assert_eq!(session.phase(), Phase::Composing);
    assert_eq!(session.messages().len(), 2);
    assert_eq!(session.context().len(), 0);
    assert_eq!(session.input_buffer(), "abc");
}

#[test]
fn scroll_up_stops_at_zero() {
    let mut session = fresh();
    assert_eq!(session.handle_event(InputEvent::ScrollUp), Action::Continue);
    assert_eq!(session.scroll_offset(), 0);
}

#[test]
fn scroll_moves_by_one_line() {
    let mut session = fresh();
    session.handle_event(InputEvent::ScrollDown);
    session.handle_event(InputEvent::ScrollDown);
    session.handle_event(InputEvent::ScrollDown);
    assert_eq!(session.scroll_offset(), 3);
    session.handle_event(InputEvent::ScrollUp);
    assert_eq!(session.scroll_offset(), 2);
    assert_eq!(session.phase(), Phase::Idle);
    assert_eq!(session.context().len(), 0);
}

#[test]
fn interrupt_ends_the_session() {
    let mut session = fresh();
    type_text(&mut session, "abc");
    assert_eq!(session.handle_event(InputEvent::Interrupt), Action::Exit);
    assert_eq!(session.phase(), Phase::Terminating);
    assert_eq!(session.input_buffer(), "abc");
}

#[test]
fn terminating_session_ignores_events() {
    let mut session = fresh();
    type_text(&mut session, "abc");
    session.handle_event(InputEvent::Interrupt);
    assert_eq!(session.handle_event(InputEvent::Char('x')), Action::Exit);
    assert_eq!(session.handle_event(InputEvent::Submit), Action::Exit);
    assert_eq!(session.handle_event(InputEvent::ScrollDown), Action::Exit);
    assert_eq!(session.handle_event(InputEvent::Backspace), Action::Exit);
    assert_eq!(session.phase(), Phase::Terminating);
    assert_eq!(session.input_buffer(), "abc");
    assert_eq!(session.scroll_offset(), 0);
    assert_eq!(session.context().len(), 0);
    assert_eq!(session.messages().len(), 2);
}

#[test]
fn outcome_after_interrupt_is_dropped() {
    let mut session = fresh();
    submit(&mut session, "hello");
    assert_eq!(session.handle_event(InputEvent::Interrupt), Action::Exit);
    session.complete(Ok("late".to_string()));
    assert_eq!(session.phase(), Phase::Terminating);
    assert_eq!(session.context().len(), 1);
    assert_eq!(session.messages()[3], THINKING);
}

#[test]
fn other_events_change_nothing() {
    let mut session = fresh();
    type_text(&mut session, "a");
    assert_eq!(session.handle_event(InputEvent::Other), Action::Continue);
    assert_eq!(session.input_buffer(), "a");
    assert_eq!(session.phase(), Phase::Composing);
}

#[test]
fn scroll_down_at_the_last_position_cannot_be_taken_in() {
    let mut session = fresh();
    for _ in 0..65535u32 {
        assert_eq!(
            session.try_handle_event(InputEvent::ScrollDown),
            Some(Action::Continue)
        );
    }
    assert_eq!(session.scroll_offset(), 65535);
    assert_eq!(session.try_handle_event(InputEvent::ScrollDown), None);
    assert_eq!(session.scroll_offset(), 65535);
    assert_eq!(session.phase(), Phase::Idle);
    assert_eq!(
        session.try_handle_event(InputEvent::ScrollUp),
        Some(Action::Continue)
    );
    assert_eq!(session.scroll_offset(), 65534);
    assert_eq!(
        session.try_handle_event(InputEvent::Char('a')),
        Some(Action::Continue)
    );
    assert_eq!(session.input_buffer(), "a");
}

#[test]
fn leaving_session_takes_any_event_in() {
    let mut session = fresh();
    for _ in 0..65535u32 {
        session.handle_event(InputEvent::ScrollDown);
    }
    session.handle_event(InputEvent::Interrupt);
    assert_eq!(
        session.try_handle_event(InputEvent::ScrollDown),
        Some(Action::Exit)
    );
    assert_eq!(session.scroll_offset(), 65535);
}

#[test]
fn try_handle_event_sends_like_handle_event() {
    let mut session = fresh();
    type_text(&mut session, "hello");
    let action = session.try_handle_event(InputEvent::Submit);
    assert_eq!(
        action,
        Some(Action::Send(vec![
            ChatMessage::system(SYSTEM_PROMPT.to_string()),
            ChatMessage::user("hello".to_string()),
        ]))
    );
    assert_eq!(session.phase(), Phase::Awaiting);
}
