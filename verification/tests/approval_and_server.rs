use s3h::approval::{decide, keyboard, request_message, short_id, Decision, PreapprovedCommands};
use s3h::server::{forwarded_report, monitor_report, ServerAction, ServerSession};

const REQUESTER: &str = "02f1a2b3c4d5e6";

fn expected_keyboard(token: &str) -> String {
    let b = |label: &str, choice: &str| {
        format!("{{\"text\":\"{}\",\"callback_data\":\"1 {} {}\"}}", label, token, choice)
    };
    format!(
        "{{\"inline_keyboard\":[[{},{}],[{},{}],[{}]]}}",
        b("Approve", "Approve"),
        b("Reject", "Reject"),
        b("Approve and monitor", "Approve and monitor"),
        b("Ignore", "Ignore"),
        b("Approve all the same commands", "Approve_all")
    )
}

#[test]
fn decide_reads_every_answer() {
    assert_eq!(decide(b"Approve"), Decision::Approve);
    assert_eq!(decide(b"Approve_all"), Decision::ApproveAll);
    assert_eq!(decide(b"Approve and monitor"), Decision::ApproveAndMonitor);
    assert_eq!(decide(b"Reject"), Decision::Reject);
    assert_eq!(decide(b"Ignore"), Decision::Unrecognized);
    assert_eq!(decide(b"approve"), Decision::Unrecognized);
    assert_eq!(decide(b""), Decision::Unrecognized);
}

#[test]
fn short_id_keeps_seven_bytes() {
    assert_eq!(short_id("0123456789abcdef"), "0123456");
    assert_eq!(short_id("0123456"), "0123456");
    assert_eq!(short_id("é12345x"), "é12345");
}

#[test]
fn keyboard_has_three_rows() {
    assert_eq!(keyboard("tok"), expected_keyboard("tok"));
}

#[test]
fn request_message_asks_about_the_command() {
    let msg = String::from_utf8(request_message(REQUESTER, "ls\n", "tok")).unwrap();
    let text = "User 02f1a2b want to run the following command:\\nls\\n";
    let markup = serde_json::to_string(&expected_keyboard("tok")).unwrap();
    assert_eq!(msg, format!("{{\"text\":\"{}\",\"reply_markup\":{}}}", text, markup));
}

#[test]
fn preapproved_commands_behave_as_a_set() {
    let mut p = PreapprovedCommands::new();
    assert!(!p.contains(&"ls".to_string()));
    p.insert("ls".to_string());
    p.insert("ls".to_string());
    p.insert("pwd".to_string());
    assert!(p.contains(&"ls".to_string()));
    assert!(p.contains(&"pwd".to_string()));
    assert!(!p.contains(&"ls -l".to_string()));
}

#[test]
fn empty_command_ends_the_session() {
    let mut s = ServerSession::new(REQUESTER.to_string());
    assert_eq!(s.handle_command(Vec::new(), "tok"), ServerAction::EndSession);
    assert!(!s.monitoring());
    assert_eq!(s.command_key(), "command:0");
}

#[test]
fn approved_command_runs_and_advances() {
    let mut s = ServerSession::new(REQUESTER.to_string());
    assert!(s.needs_approval(b"ls\n"));
    match s.handle_command(b"ls\n".to_vec(), "tok") {
        ServerAction::RequestApproval { message, callback_key } => {
            assert_eq!(message, request_message(REQUESTER, "ls\n", "tok"));
            assert_eq!(callback_key, "tg_bot:callback:tok");
        }
        other => panic!("unexpected {:?}", other),
    }
    assert_eq!(s.handle_reply(b"Approve"), ServerAction::RunCommand(b"ls\n".to_vec()));
    assert!(!s.monitoring());
    assert_eq!(s.command_key(), "command:1");
}

#[test]
fn approve_all_is_remembered() {
    let mut s = ServerSession::new(REQUESTER.to_string());
    assert!(matches!(
        s.handle_command(b"make\n".to_vec(), "t1"),
        ServerAction::RequestApproval { .. }
    ));
    assert_eq!(s.handle_reply(b"Approve_all"), ServerAction::RunCommand(b"make\n".to_vec()));
    assert!(!s.needs_approval(b"make\n"));
    assert_eq!(s.handle_command(b"make\n".to_vec(), "t2"), ServerAction::RunCommand(b"make\n".to_vec()));
    assert_eq!(s.command_key(), "command:2");
    assert!(s.needs_approval(b"make test\n"));
}

#[test]
fn monitoring_follows_the_last_approval() {
    let mut s = ServerSession::new(REQUESTER.to_string());
    s.handle_command(b"top\n".to_vec(), "t1");
    assert_eq!(s.handle_reply(b"Approve and monitor"), ServerAction::RunCommand(b"top\n".to_vec()));
    assert!(s.monitoring());
    s.handle_command(b"q\n".to_vec(), "t2");
    assert!(matches!(s.handle_reply(b"Reject"), ServerAction::SendRejection(_)));
    assert!(s.monitoring());
    s.handle_command(b"ls\n".to_vec(), "t3");
    s.handle_reply(b"Approve");
    assert!(!s.monitoring());
}

#[test]
fn rejected_command_is_answered_and_skipped() {
    let mut s = ServerSession::new(REQUESTER.to_string());
    s.handle_command(b"rm -rf /\n".to_vec(), "tok");
    assert_eq!(
        s.handle_reply(b"Reject"),
        ServerAction::SendRejection(b"Rejected, enter a new command: ".to_vec())
    );
    assert_eq!(s.command_key(), "command:1");
    assert!(s.needs_approval(b"rm -rf /\n"));
}

#[test]
fn unknown_answer_stalls() {
    let mut s = ServerSession::new(REQUESTER.to_string());
    s.handle_command(b"ls\n".to_vec(), "tok");
    assert_eq!(s.handle_reply(b"Ignore"), ServerAction::Stall);
    assert_eq!(s.command_key(), "command:0");
}

#[test]
fn receive_command_draws_a_fresh_token() {
    let mut s = ServerSession::new(REQUESTER.to_string());
    match s.receive_command(b"ls\n".to_vec()) {
        ServerAction::RequestApproval { message, callback_key } => {
            let token = callback_key.strip_prefix("tg_bot:callback:").unwrap().to_string();
            assert_eq!(token.len(), 36);
            assert_eq!(token.as_bytes()[14], b'4');
            assert!(matches!(token.as_bytes()[19], b'8' | b'9' | b'a' | b'b'));
            assert!(token.chars().enumerate().all(|(i, c)| if [8, 13, 18, 23].contains(&i) {
                c == '-'
            } else {
                c.is_ascii_digit() || ('a'..='f').contains(&c)
            }));
            assert_eq!(message, request_message(REQUESTER, "ls\n", &token));
        }
        other => panic!("unexpected {:?}", other),
    }
    let mut t = ServerSession::new(REQUESTER.to_string());
    assert_eq!(t.receive_command(Vec::new()), ServerAction::EndSession);
}

#[test]
fn output_is_reported_only_while_monitoring() {
    assert_eq!(forwarded_report(false, b"top output"), None);
    assert_eq!(forwarded_report(true, b"top output"), Some(monitor_report(b"top output")));
    assert!(forwarded_report(true, b"x").is_some());
}

#[test]
fn approve_all_holds_for_later_arrivals() {
    let mut s = ServerSession::new(REQUESTER.to_string());
    s.handle_command(b"make\n".to_vec(), "t1");
    s.handle_reply(b"Approve_all");
    s.handle_command(b"ls\n".to_vec(), "t2");
    s.handle_reply(b"Approve and monitor");
    assert!(s.monitoring());
    s.handle_command(b"rm x\n".to_vec(), "t3");
    s.handle_reply(b"Reject");
    assert_eq!(s.handle_command(b"make\n".to_vec(), "t4"), ServerAction::RunCommand(b"make\n".to_vec()));
    assert!(!s.monitoring());
    assert_eq!(s.command_key(), "command:4");
}

#[test]
fn try_receive_command_refuses_an_uncuttable_requester() {
    let mut s = ServerSession::new("short".to_string());
    assert_eq!(s.try_receive_command(b"ls\n".to_vec()), None);
    assert_eq!(s.command_key(), "command:0");
    assert_eq!(s.try_receive_command(Vec::new()), Some(ServerAction::EndSession));
    let mut t = ServerSession::new(REQUESTER.to_string());
    assert!(matches!(
        t.try_receive_command(b"ls\n".to_vec()),
        Some(ServerAction::RequestApproval { .. })
    ));
}
