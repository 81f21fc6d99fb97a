use chatbot::{
    check_status, ChatError, ConversationLog, Phase, Role, TurnCoordinator, TurnEvent,
};

fn run_turn(c: &mut TurnCoordinator, input: &str, reply: &str) {
    let _request = c.accept_input(input);
    c.response_arrived(Ok(reply.to_string()));
    let text = c.indicator_stopped().ok().unwrap();
    c.render_finished(&text);
    c.profile_reconciled();
}

#[test]
fn indicator_stop_is_observed_before_rendering() {
    let mut c = TurnCoordinator::new("");
    run_turn(&mut c, "hello", "hi there");
    let ev = c.events().clone();
    let stop = ev.iter().position(|e| *e == TurnEvent::StopSignalled).unwrap();
    let stopped = ev.iter().position(|e| *e == TurnEvent::IndicatorStopped).unwrap();
    let render = ev.iter().position(|e| *e == TurnEvent::RenderStarted).unwrap();
    assert!(stop < stopped);
    assert!(stopped < render);
    assert_eq!(
        ev,
        vec![
            TurnEvent::InputRead,
            TurnEvent::IndicatorStarted,
            TurnEvent::RequestSent,
            TurnEvent::ResponseArrived,
            TurnEvent::StopSignalled,
            TurnEvent::IndicatorStopped,
            TurnEvent::RenderStarted,
            TurnEvent::RenderFinished,
            TurnEvent::ProfileReconciled,
        ]
    );
    assert_eq!(c.phase(), Phase::Idle);
}

#[test]
fn failed_request_never_renders() {
    let mut c = TurnCoordinator::new("");
    c.accept_input("hello");
    c.response_arrived(Err(ChatError::Transport("connection reset".to_string())));
    let r = c.indicator_stopped();
    assert!(r.is_err());
    assert_eq!(c.phase(), Phase::Failed);
    assert!(!c.events().contains(&TurnEvent::RenderStarted));
    assert_eq!(c.events().last(), Some(&TurnEvent::IndicatorStopped));
}

#[test]
fn log_grows_by_one_per_input_and_one_per_reply() {
    let mut c = TurnCoordinator::new("be brief");
    assert_eq!(c.log().len(), 1);
    let request = c.accept_input("  what is rust?  \n");
    assert_eq!(c.log().len(), 2);
    assert_eq!(request.messages.len(), 2);
    assert_eq!(request.messages[1].role, Role::User);
    assert_eq!(request.messages[1].content, "what is rust?");
    c.response_arrived(Ok("A language.".to_string()));
    let text = c.indicator_stopped().ok().unwrap();
    assert_eq!(text, "A language.");
    assert!(c.render_finished(&text));
    assert_eq!(c.log().len(), 3);
    assert_eq!(c.log().messages()[2].role, Role::Assistant);
    assert_eq!(c.log().messages()[2].content, "A language.");
    c.profile_reconciled();
}

#[test]
fn blank_input_adds_nothing_but_still_sends() {
    let mut c = TurnCoordinator::new("");
    let request = c.accept_input("   \t\n");
    assert_eq!(c.log().len(), 0);
    assert_eq!(request.messages.len(), 0);
    assert_eq!(request.model, "gpt-3.5-turbo");
    assert_eq!(request.temperature, None);
    assert_eq!(request.max_tokens, None);
}

#[test]
fn blank_reply_is_not_logged() {
    let mut c = TurnCoordinator::new("");
    c.accept_input("hi");
    c.response_arrived(Ok("  \n ".to_string()));
    let text = c.indicator_stopped().ok().unwrap();
    assert!(!c.render_finished(&text));
    assert_eq!(c.log().len(), 1);
}

#[test]
fn log_record_methods() {
    let mut log = ConversationLog::new("");
    assert!(!log.record_user_input(""));
    assert!(log.record_user_input("\u{3000}x y\u{a0}"));
    assert_eq!(log.messages()[0].content, "x y");
    assert!(!log.record_reply("\t"));
    assert!(log.record_reply(" ok "));
    assert_eq!(log.messages()[1].content, " ok ");
    assert_eq!(log.len(), 2);
}

#[test]
fn missing_prompt_starts_without_system_message() {
    let log = ConversationLog::new("");
    assert_eq!(log.len(), 0);
    let log = ConversationLog::new("You are helpful.");
    assert_eq!(log.len(), 1);
    assert_eq!(log.messages()[0].role, Role::System);
    assert_eq!(log.messages()[0].content, "You are helpful.");
}

#[test]
fn server_error_aborts_with_body() {
    let r = check_status(500, "rate limited".to_string());
    match r {
        Err(e) => {
            assert!(e.message().contains("API call failed: rate limited"));
            assert_eq!(e.message(), "API call failed: rate limited");
        }
        Ok(_) => panic!("a 500 status must fail"),
    }
}

#[test]
fn success_statuses_pass_the_body() {
    assert_eq!(check_status(200, "{}".to_string()).ok(), Some("{}".to_string()));
    assert_eq!(check_status(299, "x".to_string()).ok(), Some("x".to_string()));
    assert!(check_status(199, "x".to_string()).is_err());
    assert!(check_status(300, "x".to_string()).is_err());
}

#[test]
fn other_errors_say_their_detail() {
    assert_eq!(ChatError::Transport("timed out".to_string()).message(), "timed out");
    assert_eq!(ChatError::Storage("no such file".to_string()).message(), "no such file");
}

#[test]
fn role_names() {
    assert_eq!(Role::System.as_str(), "system");
    assert_eq!(Role::User.as_str(), "user");
    assert_eq!(Role::Assistant.as_str(), "assistant");
}
