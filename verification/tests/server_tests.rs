use assuan::errors::GpgErrorCode;
use assuan::server::{
    help_responses, option_response, read_error_response, Action, SessionState,
};
use assuan::{Response, ResponseErr, Session};

fn active_session() -> Session {
    let mut session = Session::new();
    assert_eq!(session.state, SessionState::Greeting);
    let greeting = session.greet();
    assert_eq!(greeting.render(), "OK Pleased to meet you");
    assert_eq!(session.state, SessionState::Active);
    session
}

/// Collects the lines a session writes for one input line, driving the
/// handler outcomes the way an embedding loop would.
fn replies_for(session: &mut Session, line: &str, help: Option<Vec<String>>) -> Vec<String> {
    let mut out = Vec::new();
    match session.on_line(line) {
        Action::Ignore => {}
        Action::Reply(r) => out.push(r.render()),
        Action::NotifyReset(r) => out.push(r.render()),
        Action::AskOption(_) => panic!("no option expected in this scenario"),
        Action::AskCustom(_) => panic!("no custom command expected in this scenario"),
        Action::AskHelp => {
            for r in help_responses(help) {
                out.push(r.render());
            }
        }
        Action::Close => {}
        Action::Unsupported => panic!("no data sub-dialogue expected in this scenario"),
    }
    out
}

#[test]
fn nop_yields_exactly_one_ok_line() {
    let mut session = active_session();
    let lines = replies_for(&mut session, "NOP", None);
    assert_eq!(lines, vec!["OK".to_string()]);
    assert_eq!(session.state, SessionState::Active);
}

#[test]
fn quit_yields_no_line_and_closes_the_session() {
    let mut session = active_session();
    let lines = replies_for(&mut session, "QUIT", None);
    assert!(lines.is_empty());
    assert_eq!(session.state, SessionState::Closed);
}

#[test]
fn blank_line_yields_no_line_and_stays_active() {
    let mut session = active_session();
    let lines = replies_for(&mut session, "", None);
    assert!(lines.is_empty());
    assert_eq!(session.state, SessionState::Active);
    let lines = replies_for(&mut session, "   ", None);
    assert!(lines.is_empty());
    assert_eq!(session.state, SessionState::Active);
}

#[test]
fn help_yields_comments_then_ok() {
    let mut session = active_session();
    let lines = replies_for(
        &mut session,
        "HELP",
        Some(vec!["FOO".to_string(), "BAR".to_string()]),
    );
    assert_eq!(
        lines,
        vec!["# FOO".to_string(), "# BAR".to_string(), "OK".to_string()]
    );
    assert_eq!(session.state, SessionState::Active);
}

#[test]
fn help_without_listing_yields_only_ok() {
    let mut session = active_session();
    let lines = replies_for(&mut session, "HELP", None);
    assert_eq!(lines, vec!["OK".to_string()]);
}

#[test]
fn line_of_exactly_the_maximum_is_accepted() {
    let mut session = active_session();
    let line = "A".repeat(1000);
    match session.on_line(line.as_str()) {
        Action::AskCustom((keyword, params)) => {
            assert_eq!(keyword, line);
            assert_eq!(params, None);
        }
        _ => panic!("a line of the maximum length must reach the handler"),
    }
    assert_eq!(session.state, SessionState::Active);
}

#[test]
fn overlong_line_draws_too_large_and_stays_active() {
    let mut session = active_session();
    let line = "A".repeat(1001);
    match session.on_line(line.as_str()) {
        Action::Reply(r) => {
            assert_eq!(
                r,
                Response::Error((ResponseErr::Gpg(GpgErrorCode::TooLarge), None))
            );
            assert_eq!(r.render(), "ERR 67");
        }
        _ => panic!("an overlong line must draw the too-large error"),
    }
    assert_eq!(session.state, SessionState::Active);
}

#[test]
fn comment_line_is_ignored() {
    let mut session = active_session();
    assert!(matches!(session.on_line("# just a note"), Action::Ignore));
    assert_eq!(session.state, SessionState::Active);
}

#[test]
fn reset_notifies_and_acknowledges() {
    let mut session = active_session();
    match session.on_line("RESET") {
        Action::NotifyReset(r) => assert_eq!(r, Response::Okay(None)),
        _ => panic!("RESET must notify the handler and acknowledge"),
    }
    assert_eq!(session.state, SessionState::Active);
}

#[test]
fn bye_acknowledges_and_keeps_reading() {
    let mut session = active_session();
    match session.on_line("BYE") {
        Action::Reply(r) => assert_eq!(r, Response::Okay(None)),
        _ => panic!("BYE must be acknowledged"),
    }
    assert_eq!(session.state, SessionState::Active);
}

#[test]
fn option_line_reaches_the_handler() {
    let mut session = active_session();
    match session.on_line("OPTION display=:0") {
        Action::AskOption((name, value)) => {
            assert_eq!(name, "display");
            assert_eq!(value, Some(":0".to_string()));
        }
        _ => panic!("OPTION must reach the handler"),
    }
}

#[test]
fn data_sub_dialogue_is_unsupported() {
    let mut session = active_session();
    assert!(matches!(session.on_line("D payload"), Action::Unsupported));
    assert!(matches!(session.on_line("END"), Action::Unsupported));
    assert!(matches!(session.on_line("CANCEL"), Action::Unsupported));
}

#[test]
fn option_outcome_maps_to_response() {
    let ok = option_response(Ok(Response::Okay(Some("set".into()))));
    assert_eq!(ok, Response::Okay(Some("set".into())));
    let failed = option_response(Err((
        ResponseErr::Gpg(GpgErrorCode::InvValue),
        Some("bad value".into()),
    )));
    assert_eq!(failed.render(), "ERR 55 bad value");
}

#[test]
fn custom_outcome_routes_end_reply_and_failure() {
    let mut session = active_session();
    let written = session.on_custom_outcome(Ok(Some(Response::Okay(None))));
    assert_eq!(written, Some(Response::Okay(None)));
    assert_eq!(session.state, SessionState::Active);

    let written = session.on_custom_outcome(Err((
        ResponseErr::Gpg(GpgErrorCode::NotImplemented),
        None,
    )));
    assert_eq!(written.unwrap().render(), "ERR 69");
    assert_eq!(session.state, SessionState::Active);

    let written = session.on_custom_outcome(Ok(None));
    assert_eq!(written, None);
    assert_eq!(session.state, SessionState::Closed);
}

#[test]
fn read_error_reports_unexpected_with_description() {
    let r = read_error_response("broken pipe".to_string());
    assert_eq!(r.render(), "ERR 38 broken pipe");
}
