//! The response codec: one textual line in, one structured server response
//! out, and the canonical rendering back to text.  `ERR` lines are decoded
//! through the error taxonomy.

use vstd::prelude::*;
use vstd::string::StrSliceExecFns;
use vstd::string::StringExecFns;

use crate::errors::{code_lookup, known_code, Custom, GpgErrorCode};
use crate::text::{
    all_digits, dec_str, digits_val, digits_value, is_digit, is_digit_seq, is_space,
    lemma_dec_str_digits, lemma_find_at, lemma_find_in_range, lemma_find_none, lemma_trim_clean,
    lemma_trim_fixpoint_ends, lemma_trim_len, opt_string_eq, opt_string_view, spec_find,
    spec_keyword, spec_rest, spec_split2, spec_trim, split2, split_head, str_eq, trim_slice,
    u32_digits,
};

verus! {

/// The error carried by an `ERR` response: a well-known code, or a custom
/// code outside the well-known space.
#[derive(Clone, Copy, PartialEq, Eq, Structural, Debug)]
pub enum ResponseErr {
    Gpg(GpgErrorCode),
    Custom(Custom),
}

/// The numeric value a response error renders as.
pub open spec fn spec_err_code_val(e: ResponseErr) -> u32 {
    match e {
        ResponseErr::Gpg(k) => k.spec_code(),
        ResponseErr::Custom(c) => c.0,
    }
}

impl ResponseErr {
    /// Renders this error as its numeric string.
    pub fn render(&self) -> (r: String)
        ensures
            r@ == dec_str(spec_err_code_val(*self) as nat),
    {
        match self {
            ResponseErr::Gpg(k) => u32_digits(k.code()),
            ResponseErr::Custom(c) => u32_digits(c.0),
        }
    }
}

/// The classification of an `ERR` code token.  Absent when the token is not
/// numeric at all, in which case the whole response degrades to `Custom`; a
/// numeric token always classifies, negative or oversized values falling back
/// to the unknown-errno sentinel.
pub open spec fn spec_decode_code(t: Seq<char>) -> Option<ResponseErr> {
    if is_digit_seq(t) {
        if digits_val(t) <= u32::MAX as nat {
            match known_code(digits_val(t) as u32) {
                Option::Some(k) => Option::Some(ResponseErr::Gpg(k)),
                Option::None => Option::Some(ResponseErr::Custom(Custom(digits_val(t) as u32))),
            }
        } else {
            Option::Some(ResponseErr::Gpg(GpgErrorCode::UnknownErrno))
        }
    } else if t.len() > 1 && t[0] == '-' && is_digit_seq(t.drop_first()) {
        Option::Some(ResponseErr::Gpg(GpgErrorCode::UnknownErrno))
    } else {
        Option::None
    }
}

/// Classifies an `ERR` code token.
pub fn decode_code(t: &str) -> (r: Option<ResponseErr>)
    ensures
        r == spec_decode_code(t@),
{
    if all_digits(t) {
        match digits_value(t) {
            Some(v) => match code_lookup(v) {
                Some(k) => Some(ResponseErr::Gpg(k)),
                None => Some(ResponseErr::Custom(Custom(v))),
            },
            None => Some(ResponseErr::Gpg(GpgErrorCode::UnknownErrno)),
        }
    } else {
        let len = t.unicode_len();
        if len > 1 && t.get_char(0) == '-' {
            let tail = t.substring_char(1, len);
            proof {
                assert(t@.subrange(1, t@.len() as int) =~= t@.drop_first());
            }
            if all_digits(tail) {
                Some(ResponseErr::Gpg(GpgErrorCode::UnknownErrno))
            } else {
                None
            }
        } else {
            None
        }
    }
}

/// A server response, parsed from exactly one input line.
#[derive(Debug)]
pub enum Response {
    /// The request succeeded, with optional data.
    Okay(Option<String>),
    /// The request failed, with a decoded error code and optional
    /// description.
    Error((ResponseErr, Option<String>)),
    /// Informational output, `S <keyword> <value>`.
    S((String, String)),
    /// A raw data line; the payload is carried verbatim.
    D(String),
    /// The server asks the client for further data.
    Inquire((String, String)),
    /// A debugging comment; ignored.
    Comment(Option<String>),
    /// Any line not matching a known response shape.
    Custom((String, Option<String>)),
}

/// The mathematical shape of a [`Response`].
pub enum ResponseView {
    Okay(Option<Seq<char>>),
    Error((ResponseErr, Option<Seq<char>>)),
    S((Seq<char>, Seq<char>)),
    D(Seq<char>),
    Inquire((Seq<char>, Seq<char>)),
    Comment(Option<Seq<char>>),
    Custom((Seq<char>, Option<Seq<char>>)),
}

impl View for Response {
    type V = ResponseView;

    open spec fn view(&self) -> ResponseView {
        match self {
            Response::Okay(t) => ResponseView::Okay(opt_string_view(*t)),
            Response::Error(p) => ResponseView::Error((p.0, opt_string_view(p.1))),
            Response::S(p) => ResponseView::S((p.0@, p.1@)),
            Response::D(v) => ResponseView::D(v@),
            Response::Inquire(p) => ResponseView::Inquire((p.0@, p.1@)),
            Response::Comment(t) => ResponseView::Comment(opt_string_view(*t)),
            Response::Custom(p) => ResponseView::Custom((p.0@, opt_string_view(p.1))),
        }
    }
}

impl PartialEq for Response {
    fn eq(&self, other: &Response) -> (r: bool) {
        match (self, other) {
            (Response::Okay(a), Response::Okay(b)) => opt_string_eq(a, b),
            (Response::Error(a), Response::Error(b)) => a.0 == b.0 && opt_string_eq(&a.1, &b.1),
            (Response::S(a), Response::S(b)) => str_eq(a.0.as_str(), b.0.as_str()) && str_eq(
                a.1.as_str(),
                b.1.as_str(),
            ),
            (Response::D(a), Response::D(b)) => str_eq(a.as_str(), b.as_str()),
            (Response::Inquire(a), Response::Inquire(b)) => str_eq(a.0.as_str(), b.0.as_str())
                && str_eq(a.1.as_str(), b.1.as_str()),
            (Response::Comment(a), Response::Comment(b)) => opt_string_eq(a, b),
            (Response::Custom(a), Response::Custom(b)) => str_eq(a.0.as_str(), b.0.as_str())
                && opt_string_eq(&a.1, &b.1),
            _ => false,
        }
    }
}

impl vstd::std_specs::cmp::PartialEqSpecImpl for Response {
    open spec fn obeys_eq_spec() -> bool {
        true
    }

    open spec fn eq_spec(&self, other: &Response) -> bool {
        self@ == other@
    }
}

/// The response denoted by the line `s`.
pub open spec fn spec_parse_response(s: Seq<char>) -> ResponseView {
    let kw = spec_keyword(s);
    let rest = spec_rest(s);
    if kw.len() > 0 && kw[0] == '#' {
        let text = spec_trim(s.drop_first());
        ResponseView::Comment(
            if text.len() == 0 {
                Option::None
            } else {
                Option::Some(text)
            },
        )
    } else if kw == "OK"@ {
        ResponseView::Okay(rest)
    } else if kw == "D"@ {
        match rest {
            Option::None => ResponseView::Custom((kw, Option::None)),
            Option::Some(p) => ResponseView::D(p),
        }
    } else if kw == "ERR"@ {
        match rest {
            Option::None => ResponseView::Custom((kw, Option::None)),
            Option::Some(p) => {
                let pair = spec_split2(p);
                match spec_decode_code(pair.0) {
                    Option::None => ResponseView::Custom((kw, Option::Some(p))),
                    Option::Some(e) => ResponseView::Error((e, pair.1)),
                }
            },
        }
    } else if kw == "S"@ {
        match rest {
            Option::None => ResponseView::Custom((kw, Option::None)),
            Option::Some(p) => {
                let pair = spec_split2(p);
                match pair.1 {
                    Option::None => ResponseView::Custom((kw, Option::Some(p))),
                    Option::Some(v) => ResponseView::S((pair.0, v)),
                }
            },
        }
    } else if kw == "INQUIRE"@ {
        match rest {
            Option::None => ResponseView::Custom((kw, Option::None)),
            Option::Some(p) => {
                let pair = spec_split2(p);
                match pair.1 {
                    Option::None => ResponseView::Custom((kw, Option::Some(p))),
                    Option::Some(v) => ResponseView::Inquire((pair.0, v)),
                }
            },
        }
    } else {
        ResponseView::Custom((kw, rest))
    }
}

/// The canonical line for a response.
pub open spec fn spec_render_response(r: ResponseView) -> Seq<char> {
    match r {
        ResponseView::Okay(t) => match t {
            Option::None => "OK"@,
            Option::Some(v) => "OK "@ + v,
        },
        ResponseView::Error(p) => match p.1 {
            Option::None => "ERR "@ + dec_str(spec_err_code_val(p.0) as nat),
            Option::Some(d) => "ERR "@ + dec_str(spec_err_code_val(p.0) as nat) + " "@ + d,
        },
        ResponseView::S(p) => "S "@ + p.0 + " "@ + p.1,
        ResponseView::D(v) => "D "@ + v,
        ResponseView::Inquire(p) => "INQUIRE "@ + p.0 + " "@ + p.1,
        ResponseView::Comment(t) => match t {
            Option::None => "#"@,
            Option::Some(v) => "# "@ + v,
        },
        ResponseView::Custom(p) => match p.1 {
            Option::None => p.0,
            Option::Some(v) => p.0 + " "@ + v,
        },
    }
}

impl Response {
    /// Parses one line into a response.  Total: anything outside the known
    /// response shapes, and a known keyword missing its required remainder,
    /// comes back as `Custom`.
    pub fn from(input: &str) -> (r: Response)
        ensures
            r@ == spec_parse_response(input@),
    {
        let (kw, rest) = split_head(input);
        if kw.unicode_len() > 0 && kw.get_char(0) == '#' {
            proof {
                match spec_find(input@, ' ') {
                    Option::None => {
                        lemma_trim_len(input@);
                    },
                    Option::Some(i) => {
                        lemma_find_in_range(input@, ' ');
                        lemma_trim_len(input@.subrange(0, i));
                    },
                }
                assert(input@.len() >= 1);
            }
            let len = input.unicode_len();
            let text = trim_slice(input.substring_char(1, len));
            proof {
                assert(input@.subrange(1, input@.len() as int) =~= input@.drop_first());
            }
            if text.unicode_len() == 0 {
                Response::Comment(None)
            } else {
                Response::Comment(Some(String::from_str(text)))
            }
        } else if str_eq(kw, "OK") {
            let data = match rest {
                None => None,
                Some(p) => Some(String::from_str(p)),
            };
            Response::Okay(data)
        } else if str_eq(kw, "D") {
            match rest {
                None => Response::Custom((String::from_str(kw), None)),
                Some(p) => Response::D(String::from_str(p)),
            }
        } else if str_eq(kw, "ERR") {
            match rest {
                None => Response::Custom((String::from_str(kw), None)),
                Some(p) => {
                    let (tok, desc) = split2(p);
                    match decode_code(tok) {
                        None => Response::Custom((String::from_str(kw), Some(String::from_str(p)))),
                        Some(e) => {
                            let d = match desc {
                                None => None,
                                Some(v) => Some(String::from_str(v)),
                            };
                            Response::Error((e, d))
                        },
                    }
                },
            }
        } else if str_eq(kw, "S") {
            match rest {
                None => Response::Custom((String::from_str(kw), None)),
                Some(p) => {
                    let (k, v) = split2(p);
                    match v {
                        None => Response::Custom((String::from_str(kw), Some(String::from_str(p)))),
                        Some(v) => Response::S((String::from_str(k), String::from_str(v))),
                    }
                },
            }
        } else if str_eq(kw, "INQUIRE") {
            match rest {
                None => Response::Custom((String::from_str(kw), None)),
                Some(p) => {
                    let (k, v) = split2(p);
                    match v {
                        None => Response::Custom((String::from_str(kw), Some(String::from_str(p)))),
                        Some(v) => Response::Inquire((String::from_str(k), String::from_str(v))),
                    }
                },
            }
        } else {
            let params = match rest {
                None => None,
                Some(p) => Some(String::from_str(p)),
            };
            Response::Custom((String::from_str(kw), params))
        }
    }

    /// Renders this response as its canonical line.
    pub fn render(&self) -> (r: String)
        ensures
            r@ == spec_render_response(self@),
    {
        match self {
            Response::Okay(t) => match t {
                None => String::from_str("OK"),
                Some(v) => {
                    let mut s = String::from_str("OK ");
                    s.append(v.as_str());
                    s
                },
            },
            Response::Error(p) => {
                let mut s = String::from_str("ERR ");
                let code = p.0.render();
                s.append(code.as_str());
                match &p.1 {
                    None => {},
                    Some(d) => {
                        s.append(" ");
                        s.append(d.as_str());
                    },
                }
                s
            },
            Response::S(p) => {
                let mut s = String::from_str("S ");
                s.append(p.0.as_str());
                s.append(" ");
                s.append(p.1.as_str());
                s
            },
            Response::D(v) => {
                let mut s = String::from_str("D ");
                s.append(v.as_str());
                s
            },
            Response::Inquire(p) => {
                let mut s = String::from_str("INQUIRE ");
                s.append(p.0.as_str());
                s.append(" ");
                s.append(p.1.as_str());
                s
            },
            Response::Comment(t) => match t {
                None => String::from_str("#"),
                Some(v) => {
                    let mut s = String::from_str("# ");
                    s.append(v.as_str());
                    s
                },
            },
            Response::Custom(p) => match &p.1 {
                None => String::from_str(p.0.as_str()),
                Some(v) => {
                    let mut s = String::from_str(p.0.as_str());
                    s.append(" ");
                    s.append(v.as_str());
                    s
                },
            },
        }
    }
}

/// `ERR` decoding over whole lines: when the remainder's first token is a
/// digit run whose value fits the code space, a value in the well-known set
/// yields that known code and any other value yields a custom code carrying
/// exactly that value, with the rest of the remainder as the description.
pub proof fn lemma_err_code_classification(s: Seq<char>, p: Seq<char>)
    requires
        spec_keyword(s) == "ERR"@,
        spec_rest(s) == Option::Some(p),
        is_digit_seq(spec_split2(p).0),
        digits_val(spec_split2(p).0) <= u32::MAX as nat,
    ensures
        known_code(digits_val(spec_split2(p).0) as u32) matches Option::Some(k)
            ==> spec_parse_response(s) == ResponseView::Error(
            (ResponseErr::Gpg(k), spec_split2(p).1),
        ),
        known_code(digits_val(spec_split2(p).0) as u32) is None ==> spec_parse_response(s)
            == ResponseView::Error(
            (
                ResponseErr::Custom(Custom(digits_val(spec_split2(p).0) as u32)),
                spec_split2(p).1,
            ),
        ),
{
    reveal_strlit("ERR");
    reveal_strlit("OK");
    reveal_strlit("D");
}

/// Encoding is the inverse of decoding: classifying the numeric rendering of
/// an error gives the error back, provided a custom code indeed lies outside
/// the well-known space (inside it, the value belongs to the known code).
pub proof fn lemma_err_code_round_trip(e: ResponseErr)
    requires
        e matches ResponseErr::Custom(c) ==> known_code(c.0) is None,
    ensures
        spec_decode_code(dec_str(spec_err_code_val(e) as nat)) == Option::Some(e),
{
    let n = spec_err_code_val(e);
    crate::text::lemma_dec_str_digits(n as nat);
    match e {
        ResponseErr::Gpg(k) => {
            crate::errors::lemma_known_code_round_trip(k);
        },
        ResponseErr::Custom(_) => {},
    }
}

/// Round trip for success lines: parsing the rendering of `OK` gives the
/// response back, for any data that is absent or non-empty and clean at its
/// ends.
pub proof fn lemma_okay_round_trip(t: Option<Seq<char>>)
    requires
        t matches Option::Some(v) ==> v.len() > 0 && spec_trim(v) == v,
    ensures
        spec_parse_response(spec_render_response(ResponseView::Okay(t)))
            == ResponseView::Okay(t),
{
    reveal_strlit("OK");
    reveal_strlit("OK ");
    match t {
        Option::None => {
            let s = "OK"@;
            assert(forall|j: int| 0 <= j < s.len() ==> s[j] != ' ');
            lemma_find_none(s, ' ');
            lemma_trim_clean(s);
            assert(spec_keyword(s) == s);
        },
        Option::Some(v) => {
            let s = "OK "@ + v;
            assert(s[2] == ' ');
            assert(forall|j: int| 0 <= j < 2 ==> s[j] != ' ');
            lemma_find_at(s, ' ', 2);
            assert(s.subrange(0, 2) =~= "OK"@);
            lemma_trim_clean("OK"@);
            assert(spec_keyword(s) == "OK"@);
            assert(s.subrange(3, s.len() as int) =~= v);
            assert(spec_rest(s) == Option::Some(v));
        },
    }
}

proof fn lemma_digit_run_has_no_space(ds: Seq<char>)
    requires
        is_digit_seq(ds),
    ensures
        forall|j: int| 0 <= j < ds.len() ==> ds[j] != ' ',
        !is_space(ds[0]),
        !is_space(ds.last()),
{
    assert(forall|j: int| 0 <= j < ds.len() ==> is_digit(ds[j]) && #[trigger] ds[j] != ' '
        && !is_space(ds[j]));
}

/// Round trip for error lines: parsing the rendering of an `ERR` line gives
/// the error and its description back, provided a custom code indeed lies
/// outside the well-known space and the description is absent or non-empty
/// and clean at its ends.
pub proof fn lemma_error_round_trip(e: ResponseErr, desc: Option<Seq<char>>)
    requires
        e matches ResponseErr::Custom(c) ==> known_code(c.0) is None,
        desc matches Option::Some(d) ==> d.len() > 0 && spec_trim(d) == d,
    ensures
        spec_parse_response(spec_render_response(ResponseView::Error((e, desc))))
            == ResponseView::Error((e, desc)),
{
    reveal_strlit(" ");
    reveal_strlit("ERR");
    reveal_strlit("ERR ");
    reveal_strlit("OK");
    reveal_strlit("D");
    let n = spec_err_code_val(e);
    let ds = dec_str(n as nat);
    lemma_dec_str_digits(n as nat);
    lemma_digit_run_has_no_space(ds);
    if let ResponseErr::Gpg(k) = e {
        crate::errors::lemma_known_code_round_trip(k);
    }
    match desc {
        Option::None => {
            let s = "ERR "@ + ds;
            assert(s[3] == ' ');
            assert(forall|j: int| 0 <= j < 3 ==> s[j] != ' ');
            lemma_find_at(s, ' ', 3);
            assert(s.subrange(0, 3) =~= "ERR"@);
            lemma_trim_clean("ERR"@);
            assert(spec_keyword(s) == "ERR"@);
            assert(s.subrange(4, s.len() as int) =~= ds);
            lemma_trim_clean(ds);
            assert(spec_rest(s) == Option::Some(ds));
            lemma_find_none(ds, ' ');
            assert(spec_split2(ds) == (ds, Option::None::<Seq<char>>));
            assert(spec_decode_code(ds) == Option::Some(e));
        },
        Option::Some(d) => {
            let s = "ERR "@ + ds + " "@ + d;
            assert(s[3] == ' ');
            assert(forall|j: int| 0 <= j < 3 ==> s[j] != ' ');
            lemma_find_at(s, ' ', 3);
            assert(s.subrange(0, 3) =~= "ERR"@);
            lemma_trim_clean("ERR"@);
            assert(spec_keyword(s) == "ERR"@);
            let arg = ds + " "@ + d;
            assert(s.subrange(4, s.len() as int) =~= arg);
            lemma_trim_fixpoint_ends(d);
            assert(arg[0] == ds[0]);
            assert(arg.last() == d.last());
            lemma_trim_clean(arg);
            assert(spec_rest(s) == Option::Some(arg));
            assert(arg[ds.len() as int] == ' ');
            assert(forall|j: int| 0 <= j < ds.len() ==> arg[j] == ds[j] && #[trigger] arg[j]
                != ' ');
            lemma_find_at(arg, ' ', ds.len() as int);
            assert(arg.subrange(0, ds.len() as int) =~= ds);
            assert(arg.subrange(ds.len() as int + 1, arg.len() as int) =~= d);
            assert(spec_split2(arg) == (ds, Option::Some(d)));
            assert(spec_decode_code(ds) == Option::Some(e));
        },
    }
}

/// Round trip for status lines: parsing the rendering of `S <keyword>
/// <value>` gives the status back, for any non-empty keyword that holds no
/// space and trims to itself and any non-empty value that trims to itself.
pub proof fn lemma_status_round_trip(k: Seq<char>, v: Seq<char>)
    requires
        k.len() > 0,
        spec_trim(k) == k,
        forall|j: int| 0 <= j < k.len() ==> k[j] != ' ',
        v.len() > 0,
        spec_trim(v) == v,
    ensures
        spec_parse_response(spec_render_response(ResponseView::S((k, v))))
            == ResponseView::S((k, v)),
{
    reveal_strlit(" ");
    reveal_strlit("S");
    reveal_strlit("S ");
    reveal_strlit("OK");
    reveal_strlit("D");
    reveal_strlit("ERR");
    let s = "S "@ + k + " "@ + v;
    assert(s[1] == ' ');
    assert(forall|j: int| 0 <= j < 1 ==> s[j] != ' ');
    lemma_find_at(s, ' ', 1);
    assert(s.subrange(0, 1) =~= "S"@);
    lemma_trim_clean("S"@);
    assert(spec_keyword(s) == "S"@);
    lemma_trim_fixpoint_ends(k);
    lemma_trim_fixpoint_ends(v);
    let arg = k + " "@ + v;
    assert(s.subrange(2, s.len() as int) =~= arg);
    assert(arg[0] == k[0]);
    assert(arg.last() == v.last());
    lemma_trim_clean(arg);
    assert(spec_rest(s) == Option::Some(arg));
    assert(arg[k.len() as int] == ' ');
    assert(forall|j: int| 0 <= j < k.len() ==> arg[j] == k[j] && #[trigger] arg[j] != ' ');
    lemma_find_at(arg, ' ', k.len() as int);
    assert(arg.subrange(0, k.len() as int) =~= k);
    assert(arg.subrange(k.len() as int + 1, arg.len() as int) =~= v);
    assert(spec_split2(arg) == (k, Option::Some(v)));
}

/// Round trip for inquiry lines, under the same conditions as for status
/// lines.
pub proof fn lemma_inquire_round_trip(k: Seq<char>, v: Seq<char>)
    requires
        k.len() > 0,
        spec_trim(k) == k,
        forall|j: int| 0 <= j < k.len() ==> k[j] != ' ',
        v.len() > 0,
        spec_trim(v) == v,
    ensures
        spec_parse_response(spec_render_response(ResponseView::Inquire((k, v))))
            == ResponseView::Inquire((k, v)),
{
    reveal_strlit(" ");
    reveal_strlit("INQUIRE");
    reveal_strlit("INQUIRE ");
    reveal_strlit("OK");
    reveal_strlit("D");
    reveal_strlit("ERR");
    reveal_strlit("S");
    let s = "INQUIRE "@ + k + " "@ + v;
    assert(s[7] == ' ');
    assert(forall|j: int| 0 <= j < 7 ==> s[j] != ' ');
    lemma_find_at(s, ' ', 7);
    assert(s.subrange(0, 7) =~= "INQUIRE"@);
    lemma_trim_clean("INQUIRE"@);
    assert(spec_keyword(s) == "INQUIRE"@);
    lemma_trim_fixpoint_ends(k);
    lemma_trim_fixpoint_ends(v);
    let arg = k + " "@ + v;
    assert(s.subrange(8, s.len() as int) =~= arg);
    assert(arg[0] == k[0]);
    assert(arg.last() == v.last());
    lemma_trim_clean(arg);
    assert(spec_rest(s) == Option::Some(arg));
    assert(arg[k.len() as int] == ' ');
    assert(forall|j: int| 0 <= j < k.len() ==> arg[j] == k[j] && #[trigger] arg[j] != ' ');
    lemma_find_at(arg, ' ', k.len() as int);
    assert(arg.subrange(0, k.len() as int) =~= k);
    assert(arg.subrange(k.len() as int + 1, arg.len() as int) =~= v);
    assert(spec_split2(arg) == (k, Option::Some(v)));
}

/// `S` and `INQUIRE` need a remainder of two space-delimited parts: a
/// remainder without a space degrades the response to `Custom`.
pub proof fn lemma_status_single_token(s: Seq<char>, p: Seq<char>)
    requires
        spec_keyword(s) == "S"@ || spec_keyword(s) == "INQUIRE"@,
        spec_rest(s) == Option::Some(p),
        spec_find(p, ' ') is None,
    ensures
        spec_parse_response(s) == ResponseView::Custom((spec_keyword(s), Option::Some(p))),
{
    reveal_strlit("S");
    reveal_strlit("INQUIRE");
    reveal_strlit("OK");
    reveal_strlit("D");
    reveal_strlit("ERR");
}

} // verus!
