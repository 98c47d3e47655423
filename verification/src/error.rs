//! The structured error value matching the Runtime API's error wire
//! contract, and its JSON encoding: an object with the fields
//! `errorMessage`, `errorType` and `stackTrace`, with string contents
//! escaped as JSON requires.

use vstd::prelude::*;
use vstd::string::StrSliceExecFns;
use vstd::string::StringExecFns;

verus! {

/// Relies on `String::push`: appends the given character to the end of
/// the string.
pub assume_specification[ String::push ](s: &mut String, ch: char)
    ensures
        final (s)@ == old(s)@ + seq![ch],
;

/// The failure classification carried on the error wire contract. Every
/// failure this runtime reports is unhandled.
#[derive(Clone, Copy, Debug, PartialEq, Eq, Structural)]
pub enum ErrorType {
    Unhandled,
}

/// Mathematical image of an [`ErrorRequest`].
pub struct ErrorRequestView {
    pub error_message: Seq<char>,
    pub error_type: ErrorType,
    pub stack_trace: Seq<char>,
}

/// The error payload posted to the error-report operations.
pub struct ErrorRequest {
    pub error_message: String,
    pub error_type: ErrorType,
    pub stack_trace: String,
}

impl View for ErrorRequest {
    type V = ErrorRequestView;

    open spec fn view(&self) -> ErrorRequestView {
        ErrorRequestView {
            error_message: self.error_message@,
            error_type: self.error_type,
            stack_trace: self.stack_trace@,
        }
    }
}

/// The lower-case digit of a hexadecimal place value.
pub open spec fn hex_char(d: int) -> char {
    if d == 0 {
        '0'
    } else if d == 1 {
        '1'
    } else if d == 2 {
        '2'
    } else if d == 3 {
        '3'
    } else if d == 4 {
        '4'
    } else if d == 5 {
        '5'
    } else if d == 6 {
        '6'
    } else if d == 7 {
        '7'
    } else if d == 8 {
        '8'
    } else if d == 9 {
        '9'
    } else if d == 10 {
        'a'
    } else if d == 11 {
        'b'
    } else if d == 12 {
        'c'
    } else if d == 13 {
        'd'
    } else if d == 14 {
        'e'
    } else {
        'f'
    }
}

/// How a single character appears inside a JSON string literal: quotes,
/// backslashes and control characters are escaped, all else stands as it
/// is.
pub open spec fn escape_char(c: char) -> Seq<char> {
    if c == '"' {
        seq!['\\', '"']
    } else if c == '\\' {
        seq!['\\', '\\']
    } else if c == '\n' {
        seq!['\\', 'n']
    } else if c == '\r' {
        seq!['\\', 'r']
    } else if c == '\t' {
        seq!['\\', 't']
    } else if (c as u32) < 32 {
        seq!['\\', 'u', '0', '0', hex_char(c as u32 as int / 16), hex_char(c as u32 as int % 16)]
    } else {
        seq![c]
    }
}

/// The body of a JSON string literal holding exactly the characters of
/// `s`.
pub open spec fn json_escape(s: Seq<char>) -> Seq<char>
    decreases s.len(),
{
    if s.len() == 0 {
        Seq::empty()
    } else {
        escape_char(s[0]) + json_escape(s.drop_first())
    }
}

/// The JSON encoding of an error payload on the wire: an object with the
/// fields `errorMessage`, `errorType` and `stackTrace`, the type always
/// `Unhandled`.
pub open spec fn error_json(e: ErrorRequestView) -> Seq<char> {
    "{\"errorMessage\":\""@ + json_escape(e.error_message)
        + "\",\"errorType\":\"Unhandled\",\"stackTrace\":\""@ + json_escape(e.stack_trace) + "\"}"@
}

proof fn lemma_json_escape_push(t: Seq<char>, c: char)
    ensures
        json_escape(t.push(c)) == json_escape(t) + escape_char(c),
    decreases t.len(),
{
    if t.len() == 0 {
        assert(t.push(c)[0] == c);
        assert(t.push(c).drop_first() =~= Seq::<char>::empty());
        assert(json_escape(Seq::<char>::empty()) == Seq::<char>::empty());
        assert(json_escape(t.push(c)) =~= json_escape(t) + escape_char(c));
    } else {
        lemma_json_escape_push(t.drop_first(), c);
        assert(t.push(c).drop_first() =~= t.drop_first().push(c));
        assert(json_escape(t.push(c)) =~= json_escape(t) + escape_char(c));
    }
}

fn hex_char_of(d: u32) -> (c: char)
    requires
        d < 16,
    ensures
        c == hex_char(d as int),
{
    if d == 0 {
        '0'
    } else if d == 1 {
        '1'
    } else if d == 2 {
        '2'
    } else if d == 3 {
        '3'
    } else if d == 4 {
        '4'
    } else if d == 5 {
        '5'
    } else if d == 6 {
        '6'
    } else if d == 7 {
        '7'
    } else if d == 8 {
        '8'
    } else if d == 9 {
        '9'
    } else if d == 10 {
        'a'
    } else if d == 11 {
        'b'
    } else if d == 12 {
        'c'
    } else if d == 13 {
        'd'
    } else if d == 14 {
        'e'
    } else {
        'f'
    }
}

/// Escapes the characters of `s` for use inside a JSON string literal.
pub fn json_escape_str(s: &str) -> (escaped: String)
    ensures
        escaped@ == json_escape(s@),
{
    let n = s.unicode_len();
    let mut escaped = String::new();
    let mut i: usize = 0;
    proof {
        assert(s@.subrange(0, 0) =~= Seq::<char>::empty());
    }
    while i < n
        invariant
            n == s@.len(),
            0 <= i <= n,
            escaped@ == json_escape(s@.subrange(0, i as int)),
        decreases n - i,
    {
        let c = s.get_char(i);
        let k = c as u32;
        if c == '"' {
            escaped.append("\\\"");
            proof {
                reveal_strlit("\\\"");
                assert("\\\""@ =~= escape_char(c));
            }
        } else if c == '\\' {
            escaped.append("\\\\");
            proof {
                reveal_strlit("\\\\");
                assert("\\\\"@ =~= escape_char(c));
            }
        } else if k == 10 {
            escaped.append("\\n");
            proof {
                reveal_strlit("\\n");
                assert("\\n"@ =~= escape_char(c));
            }
        } else if k == 13 {
            escaped.append("\\r");
            proof {
                reveal_strlit("\\r");
                assert("\\r"@ =~= escape_char(c));
            }
        } else if k == 9 {
            escaped.append("\\t");
            proof {
                reveal_strlit("\\t");
                assert("\\t"@ =~= escape_char(c));
            }
        } else if k < 32 {
            escaped.append("\\u00");
            escaped.push(hex_char_of(k / 16));
            escaped.push(hex_char_of(k % 16));
            proof {
                reveal_strlit("\\u00");
                assert("\\u00"@ + seq![hex_char(k as int / 16)] + seq![hex_char(k as int % 16)]
                    =~= escape_char(c));
            }
        } else {
            escaped.push(c);
            proof {
                assert(seq![c] =~= escape_char(c));
            }
        }
        proof {
            lemma_json_escape_push(s@.subrange(0, i as int), s@[i as int]);
            assert(s@.subrange(0, i as int + 1) =~= s@.subrange(0, i as int).push(s@[i as int]));
        }
        i += 1;
    }
    proof {
        assert(s@.subrange(0, n as int) =~= s@);
    }
    escaped
}

impl ErrorRequest {
    /// Builds the payload for a failed invocation: the failure text
    /// verbatim, the type `Unhandled`, and a stack trace that this
    /// runtime does not collect.
    pub fn collect(error_message: String) -> (error_request: ErrorRequest)
        ensures
            error_request.error_message@ == error_message@,
            error_request.error_type == ErrorType::Unhandled,
            error_request.stack_trace@ == "unused"@,
    {
        ErrorRequest {
            error_message,
            error_type: ErrorType::Unhandled,
            stack_trace: String::from_str("unused"),
        }
    }

    /// The payload's JSON encoding on the wire.
    pub fn to_json(&self) -> (body: String)
        ensures
            body@ == error_json(self@),
    {
        let mut body = String::from_str("{\"errorMessage\":\"");
        let message = json_escape_str(self.error_message.as_str());
        body.append(message.as_str());
        body.append("\",\"errorType\":\"Unhandled\",\"stackTrace\":\"");
        let trace = json_escape_str(self.stack_trace.as_str());
        body.append(trace.as_str());
        body.append("\"}");
        proof {
            assert(body@ =~= error_json(self@));
        }
        body
    }
}

} // verus!
