//! What a line typed in an interactive session asks for.
use vstd::prelude::*;
use vstd::string::StringExecFns;

verus! {

/// The characters with the Unicode property White_Space, which
/// `char::is_whitespace` and `str::trim` go by.
pub open spec fn is_white_space(c: char) -> bool {
    ||| '\u{9}' <= c <= '\u{d}'
    ||| c == ' '
    ||| c == '\u{85}'
    ||| c == '\u{a0}'
    ||| c == '\u{1680}'
    ||| '\u{2000}' <= c <= '\u{200a}'
    ||| c == '\u{2028}'
    ||| c == '\u{2029}'
    ||| c == '\u{202f}'
    ||| c == '\u{205f}'
    ||| c == '\u{3000}'
}

/// A text without its leading whitespace.
pub open spec fn trim_start(text: Seq<char>) -> Seq<char>
    decreases text.len(),
{
    if text.len() > 0 && is_white_space(text[0]) {
        trim_start(text.drop_first())
    } else {
        text
    }
}

/// A text without its trailing whitespace.
pub open spec fn trim_end(text: Seq<char>) -> Seq<char>
    decreases text.len(),
{
    if text.len() > 0 && is_white_space(text.last()) {
        trim_end(text.drop_last())
    } else {
        text
    }
}

/// A text without its leading and trailing whitespace.
pub open spec fn trimmed(text: Seq<char>) -> Seq<char> {
    trim_end(trim_start(text))
}

/// Calls `str::trim`, which its documentation describes as removing the
/// leading and trailing characters with the Unicode property White_Space.
/// Trusted to return `trimmed` of the text.
#[verifier::external_body]
fn trim_whitespace(text: &str) -> (r: &str)
    ensures
        r@ == trimmed(text@),
{
    text.trim()
}

/// What a line read in an interactive session asks for.
#[derive(Debug, Clone, PartialEq, Eq)]
pub enum SessionInput {
    /// Nothing more can be read: the session ends.
    EndOfInput,
    /// A blank line: nothing to send.
    Blank,
    /// `exit` or `quit`: the session ends.
    Quit,
    /// A message to send to the agent, without surrounding whitespace.
    Message(String),
}

/// `r` is what a line asks for whose text, without surrounding whitespace, is `t`.
pub open spec fn trimmed_input_result(t: Seq<char>, r: SessionInput) -> bool {
    if t.len() == 0 {
        r matches SessionInput::Blank
    } else if t == "exit"@ || t == "quit"@ {
        r matches SessionInput::Quit
    } else {
        r matches SessionInput::Message(m) && m@ == t
    }
}

/// `r` is what the line `line` asks for, of which `bytes_read` bytes were read.
pub open spec fn session_input_result(bytes_read: usize, line: Seq<char>, r: SessionInput) -> bool {
    if bytes_read == 0 {
        r matches SessionInput::EndOfInput
    } else {
        trimmed_input_result(trimmed(line), r)
    }
}

/// What a line asks for whose text, without surrounding whitespace, is
/// `input`: nothing when it is empty, the end of the session on `exit` or
/// `quit`, else a message.
pub fn read_trimmed_input(input: &str) -> (r: SessionInput)
    ensures
        trimmed_input_result(input@, r),
{
    if input.is_empty() {
        return SessionInput::Blank;
    }
    let text = String::from_str(input);
    if text == String::from_str("exit") || text == String::from_str("quit") {
        SessionInput::Quit
    } else {
        SessionInput::Message(text)
    }
}

/// What a line read in an interactive session asks for: the end of the
/// session at the end of the input or on `exit` or `quit`, nothing on a
/// blank line, else the trimmed line as a message.
pub fn read_session_input(bytes_read: usize, line: &str) -> (r: SessionInput)
    ensures
        session_input_result(bytes_read, line@, r),
{
    if bytes_read == 0 {
        return SessionInput::EndOfInput;
    }
    read_trimmed_input(trim_whitespace(line))
}

} // verus!
