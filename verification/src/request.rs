//! The request codec: one textual line in, one structured client request out,
//! and the canonical rendering back to text.

use vstd::prelude::*;
use vstd::string::StrSliceExecFns;
use vstd::string::StringExecFns;

use crate::text::{
    find_char, is_space, lemma_find_at, lemma_find_in_range, lemma_find_none, lemma_trim_clean,
    lemma_trim_fixpoint_ends, lemma_trim_len, opt_string_eq, opt_string_view, spec_find,
    spec_keyword, spec_rest, spec_trim, spec_trim_back, spec_trim_front, split_head, str_eq,
    trim_slice,
};

verus! {

/// A client request, parsed from exactly one input line.
#[derive(Debug)]
pub enum Request {
    /// A line whose first token begins with `#`.  Only the first `#` is the
    /// marker; further ones belong to the text.
    Comment(Option<String>),
    /// A raw data line, `D <payload>`; the payload is carried verbatim and
    /// percent-unescaping is left to the layer above.
    D(String),
    /// Close the connection.
    Bye,
    /// Release the connection's resources, but not prior authentication.
    Reset,
    /// Marks the end of raw data.
    End,
    /// Ask the server to list its commands.
    Help,
    /// End the session without a reply.
    Quit,
    /// `OPTION name [[=] value]`, with name and value trimmed.
    Option((String, Option<String>)),
    /// Reserved; aborts a pending inquiry.
    Cancel,
    /// No operation; acknowledged with `OK`.
    Nop,
    /// Any keyword outside the vocabulary, or a known keyword missing its
    /// required argument.
    Unknown((String, Option<String>)),
}

/// The mathematical shape of a [`Request`]: the same variants over sequences
/// of characters.
pub enum RequestView {
    Comment(Option<Seq<char>>),
    D(Seq<char>),
    Bye,
    Reset,
    End,
    Help,
    Quit,
    Option((Seq<char>, Option<Seq<char>>)),
    Cancel,
    Nop,
    Unknown((Seq<char>, Option<Seq<char>>)),
}

impl View for Request {
    type V = RequestView;

    open spec fn view(&self) -> RequestView {
        match self {
            Request::Comment(t) => RequestView::Comment(opt_string_view(*t)),
            Request::D(v) => RequestView::D(v@),
            Request::Bye => RequestView::Bye,
            Request::Reset => RequestView::Reset,
            Request::End => RequestView::End,
            Request::Help => RequestView::Help,
            Request::Quit => RequestView::Quit,
            Request::Option(p) => RequestView::Option((p.0@, opt_string_view(p.1))),
            Request::Cancel => RequestView::Cancel,
            Request::Nop => RequestView::Nop,
            Request::Unknown(p) => RequestView::Unknown((p.0@, opt_string_view(p.1))),
        }
    }
}

impl PartialEq for Request {
    fn eq(&self, other: &Request) -> (r: bool) {
        match (self, other) {
            (Request::Comment(a), Request::Comment(b)) => opt_string_eq(a, b),
            (Request::D(a), Request::D(b)) => str_eq(a.as_str(), b.as_str()),
            (Request::Bye, Request::Bye) => true,
            (Request::Reset, Request::Reset) => true,
            (Request::End, Request::End) => true,
            (Request::Help, Request::Help) => true,
            (Request::Quit, Request::Quit) => true,
            (Request::Option(a), Request::Option(b)) => str_eq(a.0.as_str(), b.0.as_str())
                && opt_string_eq(&a.1, &b.1),
            (Request::Cancel, Request::Cancel) => true,
            (Request::Nop, Request::Nop) => true,
            (Request::Unknown(a), Request::Unknown(b)) => str_eq(a.0.as_str(), b.0.as_str())
                && opt_string_eq(&a.1, &b.1),
            _ => false,
        }
    }
}

impl vstd::std_specs::cmp::PartialEqSpecImpl for Request {
    open spec fn obeys_eq_spec() -> bool {
        true
    }

    open spec fn eq_spec(&self, other: &Request) -> bool {
        self@ == other@
    }
}

/// The name and optional value of an `OPTION` argument: split at the first
/// `=`, else at the first space, else the bare name; both sides trimmed.
pub open spec fn spec_option_arg(arg: Seq<char>) -> (Seq<char>, Option<Seq<char>>) {
    match spec_find(arg, '=') {
        Option::Some(i) => (
            spec_trim(arg.subrange(0, i)),
            Option::Some(spec_trim(arg.subrange(i + 1, arg.len() as int))),
        ),
        Option::None => match spec_find(arg, ' ') {
            Option::Some(i) => (
                spec_trim(arg.subrange(0, i)),
                Option::Some(spec_trim(arg.subrange(i + 1, arg.len() as int))),
            ),
            Option::None => (arg, Option::None),
        },
    }
}

/// The request denoted by the line `s`.
pub open spec fn spec_parse_request(s: Seq<char>) -> RequestView {
    let kw = spec_keyword(s);
    let rest = spec_rest(s);
    if kw.len() > 0 && kw[0] == '#' {
        let text = spec_trim(s.drop_first());
        RequestView::Comment(
            if text.len() == 0 {
                Option::None
            } else {
                Option::Some(text)
            },
        )
    } else if kw == "BYE"@ {
        RequestView::Bye
    } else if kw == "RESET"@ {
        RequestView::Reset
    } else if kw == "END"@ {
        RequestView::End
    } else if kw == "HELP"@ {
        RequestView::Help
    } else if kw == "QUIT"@ {
        RequestView::Quit
    } else if kw == "CANCEL"@ {
        RequestView::Cancel
    } else if kw == "NOP"@ {
        RequestView::Nop
    } else if kw == "OPTION"@ {
        match rest {
            Option::None => RequestView::Unknown((kw, Option::None)),
            Option::Some(arg) => RequestView::Option(spec_option_arg(arg)),
        }
    } else if kw == "D"@ {
        match rest {
            Option::None => RequestView::Unknown((kw, Option::None)),
            Option::Some(p) => RequestView::D(p),
        }
    } else {
        RequestView::Unknown((kw, rest))
    }
}

/// The canonical line for a request.
pub open spec fn spec_render_request(r: RequestView) -> Seq<char> {
    match r {
        RequestView::Bye => "BYE"@,
        RequestView::Reset => "RESET"@,
        RequestView::End => "END"@,
        RequestView::Help => "HELP"@,
        RequestView::Quit => "QUIT"@,
        RequestView::Cancel => "CANCEL"@,
        RequestView::Nop => "NOP"@,
        RequestView::D(v) => "D "@ + v,
        RequestView::Comment(t) => match t {
            Option::None => "#"@,
            Option::Some(v) => "# "@ + v,
        },
        RequestView::Option(p) => match p.1 {
            Option::None => "OPTION "@ + p.0,
            Option::Some(v) => "OPTION "@ + p.0 + "="@ + v,
        },
        RequestView::Unknown(p) => match p.1 {
            Option::None => p.0,
            Option::Some(v) => p.0 + " "@ + v,
        },
    }
}

fn parse_option_arg(arg: &str) -> (r: Request)
    ensures
        r@ == RequestView::Option(spec_option_arg(arg@)),
{
    let len = arg.unicode_len();
    let at = match find_char(arg, '=') {
        Some(i) => {
            proof {
                lemma_find_in_range(arg@, '=');
            }
            Some(i)
        },
        None => match find_char(arg, ' ') {
            Some(i) => {
                proof {
                    lemma_find_in_range(arg@, ' ');
                }
                Some(i)
            },
            None => None,
        },
    };
    match at {
        Some(i) => {
            let name = trim_slice(arg.substring_char(0, i));
            let value = trim_slice(arg.substring_char(i + 1, len));
            Request::Option(
                (String::from_str(name), Some(String::from_str(value))),
            )
        },
        None => Request::Option((String::from_str(arg), None)),
    }
}

impl Request {
    /// Parses one line into a request.  Total: anything outside the
    /// vocabulary, and a known keyword missing its required argument, comes
    /// back as `Unknown`.
    pub fn from(input: &str) -> (r: Request)
        ensures
            r@ == spec_parse_request(input@),
    {
        let (kw, rest) = split_head(input);
        if kw.unicode_len() > 0 && kw.get_char(0) == '#' {
            proof {
                match spec_find(input@, ' ') {
                    Option::None => {
                        lemma_trim_len(input@);
                    },
                    Option::Some(i) => {
                        lemma_find_in_range(input@, ' ');
                        lemma_trim_len(input@.subrange(0, i));
                    },
                }
                assert(input@.len() >= 1);
            }
            let len = input.unicode_len();
            let text = trim_slice(input.substring_char(1, len));
            proof {
                assert(input@.subrange(1, input@.len() as int) =~= input@.drop_first());
            }
            if text.unicode_len() == 0 {
                Request::Comment(None)
            } else {
                Request::Comment(Some(String::from_str(text)))
            }
        } else if str_eq(kw, "BYE") {
            Request::Bye
        } else if str_eq(kw, "RESET") {
            Request::Reset
        } else if str_eq(kw, "END") {
            Request::End
        } else if str_eq(kw, "HELP") {
            Request::Help
        } else if str_eq(kw, "QUIT") {
            Request::Quit
        } else if str_eq(kw, "CANCEL") {
            Request::Cancel
        } else if str_eq(kw, "NOP") {
            Request::Nop
        } else if str_eq(kw, "OPTION") {
            match rest {
                None => Request::Unknown((String::from_str(kw), None)),
                Some(arg) => parse_option_arg(arg),
            }
        } else if str_eq(kw, "D") {
            match rest {
                None => Request::Unknown((String::from_str(kw), None)),
                Some(p) => Request::D(String::from_str(p)),
            }
        } else {
            let params = match rest {
                None => None,
                Some(p) => Some(String::from_str(p)),
            };
            Request::Unknown((String::from_str(kw), params))
        }
    }

    /// Renders this request as its canonical line.
    pub fn render(&self) -> (r: String)
        ensures
            r@ == spec_render_request(self@),
    {
        match self {
            Request::Bye => String::from_str("BYE"),
            Request::Reset => String::from_str("RESET"),
            Request::End => String::from_str("END"),
            Request::Help => String::from_str("HELP"),
            Request::Quit => String::from_str("QUIT"),
            Request::Cancel => String::from_str("CANCEL"),
            Request::Nop => String::from_str("NOP"),
            Request::D(v) => {
                let mut s = String::from_str("D ");
                s.append(v.as_str());
                s
            },
            Request::Comment(t) => match t {
                None => String::from_str("#"),
                Some(v) => {
                    let mut s = String::from_str("# ");
                    s.append(v.as_str());
                    s
                },
            },
            Request::Option(p) => match &p.1 {
                None => {
                    let mut s = String::from_str("OPTION ");
                    s.append(p.0.as_str());
                    s
                },
                Some(v) => {
                    let mut s = String::from_str("OPTION ");
                    s.append(p.0.as_str());
                    s.append("=");
                    s.append(v.as_str());
                    s
                },
            },
            Request::Unknown(p) => match &p.1 {
                None => String::from_str(p.0.as_str()),
                Some(v) => {
                    let mut s = String::from_str(p.0.as_str());
                    s.append(" ");
                    s.append(v.as_str());
                    s
                },
            },
        }
    }
}

/// Round trip for data lines: parsing the rendering of `D <payload>` gives
/// the payload back, for any non-empty payload that carries no whitespace at
/// its ends (the codec trims the remainder, so such whitespace is not part
/// of what a line can carry).
pub proof fn lemma_data_round_trip(v: Seq<char>)
    requires
        v.len() > 0,
        spec_trim(v) == v,
    ensures
        spec_parse_request(spec_render_request(RequestView::D(v))) == RequestView::D(v),
{
    reveal_strlit("D ");
    reveal_strlit("D");
    reveal_strlit("BYE");
    reveal_strlit("RESET");
    reveal_strlit("END");
    reveal_strlit("HELP");
    reveal_strlit("QUIT");
    reveal_strlit("CANCEL");
    reveal_strlit("NOP");
    reveal_strlit("OPTION");
    let s = "D "@ + v;
    assert(s[0] == 'D');
    assert(s[1] == ' ');
    assert(forall|j: int| 0 <= j < 1 ==> s[j] != ' ');
    lemma_find_at(s, ' ', 1);
    assert(s.subrange(0, 1) =~= "D"@);
    lemma_trim_clean("D"@);
    assert(spec_keyword(s) == "D"@);
    assert(s.subrange(2, s.len() as int) =~= v);
    assert(spec_rest(s) == Option::Some(v));
}

/// Round trip for comments: parsing the rendering of a comment gives the
/// comment back, for any non-empty text that carries no whitespace at its
/// ends.
pub proof fn lemma_comment_round_trip(t: Option<Seq<char>>)
    requires
        t matches Option::Some(v) ==> v.len() > 0 && spec_trim(v) == v,
    ensures
        spec_parse_request(spec_render_request(RequestView::Comment(t)))
            == RequestView::Comment(t),
{
    reveal_strlit("#");
    reveal_strlit("# ");
    match t {
        Option::None => {
            let s = "#"@;
            assert(s[0] == '#');
            assert(forall|j: int| 0 <= j < s.len() ==> s[j] != ' ');
            lemma_find_none(s, ' ');
            lemma_trim_clean(s);
            assert(spec_keyword(s) == s);
            assert(s.drop_first() =~= Seq::<char>::empty());
            lemma_trim_clean(Seq::<char>::empty());
        },
        Option::Some(v) => {
            let s = "# "@ + v;
            assert(s[0] == '#');
            assert(s[1] == ' ');
            assert(forall|j: int| 0 <= j < 1 ==> s[j] != ' ');
            lemma_find_at(s, ' ', 1);
            assert(s.subrange(0, 1) =~= "#"@);
            lemma_trim_clean("#"@);
            assert(spec_keyword(s) == "#"@);
            let tail = s.drop_first();
            assert(tail =~= seq![' '] + v);
            assert(is_space(tail[0]));
            assert(tail.drop_first() =~= v);
            lemma_trim_fixpoint_ends(v);
            assert(spec_trim_front(tail) == spec_trim_front(v));
            assert(spec_trim(tail) == v);
        },
    }
}

/// Round trip for options: parsing the rendering of `OPTION name` or
/// `OPTION name=value` gives the option back, for any non-empty name that
/// holds no space and no `=` and trims to itself, and any value that trims
/// to itself.
pub proof fn lemma_option_round_trip(name: Seq<char>, value: Option<Seq<char>>)
    requires
        name.len() > 0,
        spec_trim(name) == name,
        forall|j: int| 0 <= j < name.len() ==> name[j] != ' ' && name[j] != '=',
        value matches Option::Some(v) ==> spec_trim(v) == v,
    ensures
        spec_parse_request(spec_render_request(RequestView::Option((name, value))))
            == RequestView::Option((name, value)),
{
    reveal_strlit("OPTION ");
    reveal_strlit("=");
    reveal_strlit("OPTION");
    reveal_strlit("BYE");
    reveal_strlit("RESET");
    reveal_strlit("END");
    reveal_strlit("HELP");
    reveal_strlit("QUIT");
    reveal_strlit("CANCEL");
    reveal_strlit("NOP");
    lemma_trim_fixpoint_ends(name);
    lemma_trim_clean("OPTION"@);
    match value {
        Option::None => {
            let s = "OPTION "@ + name;
            assert(s[6] == ' ');
            assert(forall|j: int| 0 <= j < 6 ==> s[j] != ' ');
            lemma_find_at(s, ' ', 6);
            assert(s.subrange(0, 6) =~= "OPTION"@);
            assert(spec_keyword(s) == "OPTION"@);
            assert(s.subrange(7, s.len() as int) =~= name);
            assert(spec_rest(s) == Option::Some(name));
            lemma_find_none(name, '=');
            lemma_find_none(name, ' ');
        },
        Option::Some(v) => {
            let s = "OPTION "@ + name + "="@ + v;
            assert(s[6] == ' ');
            assert(forall|j: int| 0 <= j < 6 ==> s[j] != ' ');
            lemma_find_at(s, ' ', 6);
            assert(s.subrange(0, 6) =~= "OPTION"@);
            assert(spec_keyword(s) == "OPTION"@);
            let arg = name + "="@ + v;
            assert(s.subrange(7, s.len() as int) =~= arg);
            assert(arg[0] == name[0]);
            if v.len() > 0 {
                lemma_trim_fixpoint_ends(v);
                assert(arg.last() == v.last());
            } else {
                assert(arg.last() == '=');
            }
            lemma_trim_clean(arg);
            assert(spec_rest(s) == Option::Some(arg));
            assert(arg[name.len() as int] == '=');
            assert(forall|j: int| 0 <= j < name.len() ==> arg[j] != '=');
            lemma_find_at(arg, '=', name.len() as int);
            assert(arg.subrange(0, name.len() as int) =~= name);
            assert(arg.subrange(name.len() as int + 1, arg.len() as int) =~= v);
        },
    }
}

proof fn lemma_parse_bare_keyword(s: Seq<char>)
    requires
        s.len() > 0,
        forall|j: int| 0 <= j < s.len() ==> !is_space(#[trigger] s[j]),
    ensures
        spec_keyword(s) == s,
        spec_rest(s) is None,
{
    assert(forall|j: int| 0 <= j < s.len() ==> #[trigger] s[j] != ' ');
    lemma_find_none(s, ' ');
    assert(spec_trim_front(s) == s);
    assert(spec_trim_back(s) == s);
}

/// Round trip for the zero-argument keywords: parsing the rendering of
/// `BYE`, `RESET`, `END`, `HELP`, `QUIT`, `CANCEL` or `NOP` gives the same
/// request back.
pub proof fn lemma_zero_arg_round_trip(r: RequestView)
    requires
        r is Bye || r is Reset || r is End || r is Help || r is Quit || r is Cancel || r is Nop,
    ensures
        spec_parse_request(spec_render_request(r)) == r,
{
    reveal_strlit("BYE");
    reveal_strlit("RESET");
    reveal_strlit("END");
    reveal_strlit("HELP");
    reveal_strlit("QUIT");
    reveal_strlit("CANCEL");
    reveal_strlit("NOP");
    reveal_strlit("OPTION");
    reveal_strlit("D");
    match r {
        RequestView::Bye => lemma_parse_bare_keyword("BYE"@),
        RequestView::Reset => lemma_parse_bare_keyword("RESET"@),
        RequestView::End => lemma_parse_bare_keyword("END"@),
        RequestView::Help => lemma_parse_bare_keyword("HELP"@),
        RequestView::Quit => lemma_parse_bare_keyword("QUIT"@),
        RequestView::Cancel => lemma_parse_bare_keyword("CANCEL"@),
        RequestView::Nop => lemma_parse_bare_keyword("NOP"@),
        _ => {},
    }
}

} // verus!
