//! The per-connection dispatch state machine.  Everything here is pure: the
//! session consumes one event at a time (a line, a read error, a handler
//! outcome) and says what to do next; reading, writing and the handler's own
//! work stay with the embedding application.

use vstd::prelude::*;
use vstd::string::StrSliceExecFns;
use vstd::string::StringExecFns;

use crate::errors::GpgErrorCode;
use crate::request::{spec_parse_request, Request, RequestView};
use crate::response::{Response, ResponseErr, ResponseView};
use crate::text::{opt_string_view, spec_trim, trim_slice};

verus! {

/// The longest request line the dispatcher accepts, in characters.
pub const MAX_LINE_LEN: usize = 1000;

/// Where a connection stands: not yet greeted, in the read loop, or done.
#[derive(Clone, Copy, PartialEq, Eq, Structural, Debug)]
pub enum SessionState {
    Greeting,
    Active,
    Closed,
}

/// The per-connection session.  It owns no handler state: only the position
/// in the conversation.
#[derive(Clone, Copy, PartialEq, Eq, Structural, Debug)]
pub struct Session {
    pub state: SessionState,
}

/// What the embedding loop must do with one input line.
#[derive(Debug)]
pub enum Action {
    /// Blank line or comment: read on, write nothing.
    Ignore,
    /// Write this response and read on.
    Reply(Response),
    /// Notify the handler's reset callback, then write this response.
    NotifyReset(Response),
    /// Ask the handler to negotiate this option, then write the outcome
    /// through [`option_response`].
    AskOption((String, Option<String>)),
    /// Hand this custom command to the handler, then route the outcome
    /// through [`Session::on_custom_outcome`].
    AskCustom((String, Option<String>)),
    /// Ask the handler for its help lines, then write
    /// [`help_responses`] of them.
    AskHelp,
    /// End the session without a reply.
    Close,
    /// The multi-line data and inquiry sub-dialogue (`D`, `END`, `CANCEL`),
    /// which this dispatcher does not implement.
    Unsupported,
}

/// The mathematical shape of an [`Action`].
pub enum ActionView {
    Ignore,
    Reply(ResponseView),
    NotifyReset(ResponseView),
    AskOption((Seq<char>, Option<Seq<char>>)),
    AskCustom((Seq<char>, Option<Seq<char>>)),
    AskHelp,
    Close,
    Unsupported,
}

impl View for Action {
    type V = ActionView;

    open spec fn view(&self) -> ActionView {
        match self {
            Action::Ignore => ActionView::Ignore,
            Action::Reply(r) => ActionView::Reply(r@),
            Action::NotifyReset(r) => ActionView::NotifyReset(r@),
            Action::AskOption(p) => ActionView::AskOption((p.0@, opt_string_view(p.1))),
            Action::AskCustom(p) => ActionView::AskCustom((p.0@, opt_string_view(p.1))),
            Action::AskHelp => ActionView::AskHelp,
            Action::Close => ActionView::Close,
            Action::Unsupported => ActionView::Unsupported,
        }
    }
}

/// The action a parsed request calls for.
pub open spec fn spec_dispatch(r: RequestView) -> ActionView {
    match r {
        RequestView::Comment(_) => ActionView::Ignore,
        RequestView::Reset => ActionView::NotifyReset(ResponseView::Okay(Option::None)),
        RequestView::Bye => ActionView::Reply(ResponseView::Okay(Option::None)),
        RequestView::Nop => ActionView::Reply(ResponseView::Okay(Option::None)),
        RequestView::Option(p) => ActionView::AskOption(p),
        RequestView::Unknown(p) => ActionView::AskCustom(p),
        RequestView::Help => ActionView::AskHelp,
        RequestView::Quit => ActionView::Close,
        RequestView::D(_) => ActionView::Unsupported,
        RequestView::End => ActionView::Unsupported,
        RequestView::Cancel => ActionView::Unsupported,
    }
}

/// The action one raw input line calls for: blank lines are skipped, overlong
/// lines draw the too-large error, everything else is parsed and dispatched.
pub open spec fn spec_step(line: Seq<char>) -> ActionView {
    let t = spec_trim(line);
    if t.len() == 0 {
        ActionView::Ignore
    } else if t.len() > MAX_LINE_LEN {
        ActionView::Reply(
            ResponseView::Error((ResponseErr::Gpg(GpgErrorCode::TooLarge), Option::None)),
        )
    } else {
        spec_dispatch(spec_parse_request(t))
    }
}

/// The session state after one line: closed exactly when the line asked for
/// a quiet shutdown.
pub open spec fn spec_next_state(line: Seq<char>) -> SessionState {
    if spec_step(line) is Close {
        SessionState::Closed
    } else {
        SessionState::Active
    }
}

impl Session {
    /// A fresh connection, not yet greeted.
    pub fn new() -> (s: Session)
        ensures
            s.state == SessionState::Greeting,
    {
        Session { state: SessionState::Greeting }
    }

    /// The unconditional greeting, written before any input is read.
    pub fn greet(&mut self) -> (r: Response)
        requires
            old(self).state == SessionState::Greeting,
        ensures
            final(self).state == SessionState::Active,
            r@ == ResponseView::Okay(Option::Some("Pleased to meet you"@)),
    {
        self.state = SessionState::Active;
        Response::Okay(Some(String::from_str("Pleased to meet you")))
    }

    /// Classifies one input line and says what to do with it.
    pub fn on_line(&mut self, line: &str) -> (a: Action)
        requires
            old(self).state == SessionState::Active,
        ensures
            a@ == spec_step(line@),
            final(self).state == spec_next_state(line@),
    {
        let t = trim_slice(line);
        let len = t.unicode_len();
        if len == 0 {
            return Action::Ignore;
        }
        if len > MAX_LINE_LEN {
            return Action::Reply(
                Response::Error((ResponseErr::Gpg(GpgErrorCode::TooLarge), None)),
            );
        }
        let req = Request::from(t);
        match req {
            Request::Comment(_) => Action::Ignore,
            Request::Reset => Action::NotifyReset(Response::Okay(None)),
            Request::Bye => Action::Reply(Response::Okay(None)),
            Request::Nop => Action::Reply(Response::Okay(None)),
            Request::Option(p) => Action::AskOption(p),
            Request::Unknown(p) => Action::AskCustom(p),
            Request::Help => Action::AskHelp,
            Request::Quit => {
                self.state = SessionState::Closed;
                Action::Close
            },
            Request::D(_) => Action::Unsupported,
            Request::End => Action::Unsupported,
            Request::Cancel => Action::Unsupported,
        }
    }

    /// Folds the handler's answer to a custom command into the session: no
    /// answer ends the session quietly; an answer or a failure is written and
    /// the session reads on.
    pub fn on_custom_outcome(
        &mut self,
        outcome: Result<Option<Response>, (ResponseErr, Option<String>)>,
    ) -> (w: Option<Response>)
        requires
            old(self).state == SessionState::Active,
        ensures
            match outcome {
                Result::Ok(o) => match o {
                    Option::None => w is None && final(self).state == SessionState::Closed,
                    Option::Some(resp) => w == Option::Some(resp) && final(self).state
                        == SessionState::Active,
                },
                Result::Err(e) => (match w {
                    Option::Some(x) => x@ == ResponseView::Error((e.0, opt_string_view(e.1))),
                    Option::None => false,
                }) && final(self).state == SessionState::Active,
            },
    {
        match outcome {
            Ok(None) => {
                self.state = SessionState::Closed;
                None
            },
            Ok(Some(resp)) => Some(resp),
            Err(e) => Some(Response::Error(e)),
        }
    }
}

/// The response to a read error: the well-known unexpected-error code with
/// the error's description; the session reads on.
pub fn read_error_response(description: String) -> (r: Response)
    ensures
        r@ == ResponseView::Error(
            (ResponseErr::Gpg(GpgErrorCode::Unexpected), Option::Some(description@)),
        ),
{
    Response::Error((ResponseErr::Gpg(GpgErrorCode::Unexpected), Some(description)))
}

/// The response to write for an option negotiation outcome: the handler's
/// own response on success, an error line built from its failure otherwise.
pub fn option_response(outcome: Result<Response, (ResponseErr, Option<String>)>) -> (r: Response)
    ensures
        r@ == match outcome {
            Result::Ok(resp) => resp@,
            Result::Err(e) => ResponseView::Error((e.0, opt_string_view(e.1))),
        },
{
    match outcome {
        Ok(resp) => resp,
        Err(e) => Response::Error(e),
    }
}

/// The responses to a `HELP` request: one comment per advertised line, then
/// the closing `OK`.
pub fn help_responses(lines: Option<Vec<String>>) -> (rs: Vec<Response>)
    ensures
        rs@.len() == (match lines {
            Option::Some(v) => v@.len() + 1,
            Option::None => 1,
        }),
        match lines {
            Option::Some(v) => forall|i: int|
                0 <= i < v@.len() ==> rs@[i]@ == ResponseView::Comment(Option::Some(v@[i]@)),
            Option::None => true,
        },
        rs@.len() >= 1 && rs@[rs@.len() - 1]@ == ResponseView::Okay(Option::None),
{
    let mut rs: Vec<Response> = Vec::new();
    match &lines {
        None => {},
        Some(v) => {
            let mut i: usize = 0;
            while i < v.len()
                invariant
                    0 <= i <= v@.len(),
                    rs@.len() == i,
                    forall|j: int|
                        0 <= j < i ==> rs@[j]@ == ResponseView::Comment(Option::Some(v@[j]@)),
                decreases v@.len() - i,
            {
                rs.push(Response::Comment(Some(v[i].clone())));
                i = i + 1;
            }
        },
    }
    rs.push(Response::Okay(None));
    rs
}

/// The length gate: a line whose trimmed form stays within the limit is never
/// answered with the too-large error and is dispatched normally; an overlong
/// line draws exactly that error, and either way the session stays active
/// unless the line asked for a quiet shutdown.
pub proof fn lemma_line_length_gate(line: Seq<char>)
    ensures
        spec_trim(line).len() > MAX_LINE_LEN ==> spec_step(line) == ActionView::Reply(
            ResponseView::Error((ResponseErr::Gpg(GpgErrorCode::TooLarge), Option::None)),
        ) && spec_next_state(line) == SessionState::Active,
        0 < spec_trim(line).len() <= MAX_LINE_LEN ==> spec_step(line) == spec_dispatch(
            spec_parse_request(spec_trim(line)),
        ),
        spec_trim(line).len() <= MAX_LINE_LEN ==> spec_step(line) != ActionView::Reply(
            ResponseView::Error((ResponseErr::Gpg(GpgErrorCode::TooLarge), Option::None)),
        ),
        spec_step(line) is Close <==> spec_next_state(line) == SessionState::Closed,
{
}

} // verus!
