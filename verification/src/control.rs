//! The control socket's wire format: one command word, surrounded by whitespace at most.
use vstd::prelude::*;
use vstd::string::StringSliceAdditionalSpecFns;
use vstd::string::StrSliceExecFns;
use vstd::utf8::valid_utf8;
use vstd::utf8::decode_utf8;
use vstd::utf8::encode_utf8;
use crate::strings::str_eq;

verus! {

/// A command sent over the control socket.
#[derive(Clone, Copy, Debug, PartialEq, Eq, Structural)]
pub enum ControlCommand {
    Start,
    Stop,
    Toggle,
    Cancel,
}

/// The word that carries a command.
pub open spec fn spec_wire_command(command: ControlCommand) -> Seq<char> {
    match command {
        ControlCommand::Start => "start"@,
        ControlCommand::Stop => "stop"@,
        ControlCommand::Toggle => "toggle"@,
        ControlCommand::Cancel => "cancel"@,
    }
}

impl ControlCommand {
    pub fn as_wire_command(self) -> (r: &'static str)
        ensures
            r@ == spec_wire_command(self),
    {
        match self {
            ControlCommand::Start => "start",
            ControlCommand::Stop => "stop",
            ControlCommand::Toggle => "toggle",
            ControlCommand::Cancel => "cancel",
        }
    }
}

/// A white-space character in Unicode's sense, as `char::is_whitespace` has it.
pub open spec fn is_unicode_whitespace(c: char) -> bool {
    let u = c as u32;
    (0x9 <= u && u <= 0xD) || u == 0x20 || u == 0x85 || u == 0xA0 || u == 0x1680 || (0x2000 <= u
        && u <= 0x200A) || u == 0x2028 || u == 0x2029 || u == 0x202F || u == 0x205F || u == 0x3000
}

/// Whether `c` is white space.
pub fn is_whitespace(c: char) -> (r: bool)
    ensures
        r == is_unicode_whitespace(c),
{
    let u = c as u32;
    (0x9 <= u && u <= 0xD) || u == 0x20 || u == 0x85 || u == 0xA0 || u == 0x1680 || (0x2000 <= u
        && u <= 0x200A) || u == 0x2028 || u == 0x2029 || u == 0x202F || u == 0x205F || u == 0x3000
}

/// The first index of `s` from `i` on that is not white space, or `s.len()`.
pub open spec fn skip_whitespace(s: Seq<char>, i: int) -> int
    decreases s.len() - i,
{
    if i >= s.len() || i < 0 {
        i
    } else if is_unicode_whitespace(s[i]) {
        skip_whitespace(s, i + 1)
    } else {
        i
    }
}

/// One past the last index of `s` before `j` that is not white space, or 0.
pub open spec fn skip_whitespace_back(s: Seq<char>, j: int) -> int
    decreases j,
{
    if j <= 0 {
        j
    } else if is_unicode_whitespace(s[j - 1]) {
        skip_whitespace_back(s, j - 1)
    } else {
        j
    }
}

/// `s` without white space at either end, as `str::trim` gives it.
pub open spec fn spec_trim(s: Seq<char>) -> Seq<char> {
    let start = skip_whitespace(s, 0);
    let end = skip_whitespace_back(s, s.len() as int);
    if start >= end {
        Seq::empty()
    } else {
        s.subrange(start, end)
    }
}

proof fn lemma_skip_bounds(s: Seq<char>, i: int)
    requires
        0 <= i <= s.len(),
    ensures
        i <= skip_whitespace(s, i) <= s.len(),
    decreases s.len() - i,
{
    if i < s.len() && is_unicode_whitespace(s[i]) {
        lemma_skip_bounds(s, i + 1);
    }
}

proof fn lemma_skip_back_bounds(s: Seq<char>, j: int)
    requires
        0 <= j <= s.len(),
    ensures
        0 <= skip_whitespace_back(s, j) <= j,
    decreases j,
{
    if j > 0 && is_unicode_whitespace(s[j - 1]) {
        lemma_skip_back_bounds(s, j - 1);
    }
}

/// `s` without white space at either end.
pub fn trim<'a>(s: &'a str) -> (r: &'a str)
    ensures
        r@ == spec_trim(s@),
{
    let n = s.unicode_len();
    let mut start: usize = 0;
    while start < n && is_whitespace(s.get_char(start))
        invariant
            n == s@.len(),
            start <= n,
            skip_whitespace(s@, start as int) == skip_whitespace(s@, 0),
        decreases n - start,
    {
        start = start + 1;
    }
    let mut end: usize = n;
    while end > 0 && is_whitespace(s.get_char(end - 1))
        invariant
            n == s@.len(),
            end <= n,
            skip_whitespace_back(s@, end as int) == skip_whitespace_back(s@, n as int),
        decreases end,
    {
        end = end - 1;
    }
    proof {
        lemma_skip_bounds(s@, 0);
        lemma_skip_back_bounds(s@, n as int);
    }
    if start >= end {
        s.substring_char(0, 0)
    } else {
        s.substring_char(start, end)
    }
}

/// Reads UTF-8 with `std::str::from_utf8`: `Ok` exactly for valid UTF-8, with the same
/// bytes, as the standard library documents.
#[verifier::external_body]
fn from_utf8(bytes: &[u8]) -> (r: Result<&str, std::str::Utf8Error>)
    ensures
        r is Ok <==> valid_utf8(bytes@),
        r matches Ok(s) ==> s.spec_bytes() == bytes@,
{
    std::str::from_utf8(bytes)
}

/// Declares `std::str::Utf8Error` to the verifier; its contents stay opaque.
#[verifier::external_type_specification]
#[verifier::external_body]
pub struct ExUtf8Error(std::str::Utf8Error);

/// The command in a message read from the socket: valid UTF-8 whose trimmed text is
/// exactly one command word.
pub open spec fn spec_read_command(bytes: Seq<u8>) -> Option<ControlCommand> {
    if !valid_utf8(bytes) {
        None
    } else {
        let text = spec_trim(decode_utf8(bytes));
        if text == "start"@ {
            Some(ControlCommand::Start)
        } else if text == "stop"@ {
            Some(ControlCommand::Stop)
        } else if text == "toggle"@ {
            Some(ControlCommand::Toggle)
        } else if text == "cancel"@ {
            Some(ControlCommand::Cancel)
        } else {
            None
        }
    }
}

/// The command in a message read from the socket, if it holds one.
pub fn parse_command(bytes: &[u8]) -> (r: Option<ControlCommand>)
    ensures
        r == spec_read_command(bytes@),
{
    let text = match from_utf8(bytes) {
        Ok(text) => text,
        Err(_) => return None,
    };
    proof {
        vstd::utf8::decode_utf8_encode_utf8(bytes@);
        vstd::utf8::encode_utf8_decode_utf8(text@);
    }
    let command = trim(text);
    if str_eq(command, "start") {
        Some(ControlCommand::Start)
    } else if str_eq(command, "stop") {
        Some(ControlCommand::Stop)
    } else if str_eq(command, "toggle") {
        Some(ControlCommand::Toggle)
    } else if str_eq(command, "cancel") {
        Some(ControlCommand::Cancel)
    } else {
        None
    }
}

/// A command written as its word and a newline is read back as that command.
pub proof fn lemma_wire_command_round_trip(command: ControlCommand)
    ensures
        spec_read_command(encode_utf8(spec_wire_command(command) + "\n"@)) == Some(command),
{
    let word = spec_wire_command(command);
    let text = word + "\n"@;
    vstd::utf8::encode_utf8_valid_utf8(text);
    vstd::utf8::encode_utf8_decode_utf8(text);
    reveal_strlit("start");
    reveal_strlit("stop");
    reveal_strlit("toggle");
    reveal_strlit("cancel");
    reveal_strlit("\n");
    let n = text.len() as int;
    assert(word.len() >= 4);
    assert(text[n - 1] == '\n');
    assert(text[n - 2] == word[word.len() - 1]);
    assert(text[0] == word[0]);
    assert(skip_whitespace(text, 0) == 0);
    assert(skip_whitespace_back(text, n - 1) == n - 1);
    assert(skip_whitespace_back(text, n) == n - 1);
    assert(text.subrange(0, n - 1) =~= word);
    assert(spec_trim(text) == word);
    assert("stop"@.len() == 4);
    assert("start"@.len() == 5);
    assert("toggle"@.len() == 6);
    assert("cancel"@.len() == 6);
    assert("toggle"@[0] == 't');
    assert("cancel"@[0] == 'c');
}

} // verus!
