//! Command framing and response decoding: the status-line grammar, the
//! multi-line collection rule, and the greeting timestamp extraction.

use crate::errors::Pop3Error;
use vstd::prelude::*;

verus! {

/// Does the line start with the success prefix `+OK` followed by a space?
pub open spec fn is_ok_status(line: Seq<char>) -> bool {
    &&& line.len() >= 4
    &&& line[0] == '+'
    &&& line[1] == 'O'
    &&& line[2] == 'K'
    &&& line[3] == ' '
}

/// Does the line start with the failure prefix `-ERR` followed by a space?
pub open spec fn is_err_status(line: Seq<char>) -> bool {
    &&& line.len() >= 5
    &&& line[0] == '-'
    &&& line[1] == 'E'
    &&& line[2] == 'R'
    &&& line[3] == 'R'
    &&& line[4] == ' '
}

/// A line with its terminator removed: a trailing CRLF, or a bare trailing
/// line feed, is dropped.
pub open spec fn strip_line_ending(s: Seq<char>) -> Seq<char> {
    if s.len() >= 2 && s[s.len() - 2] == '\r' && s[s.len() - 1] == '\n' {
        s.subrange(0, s.len() - 2)
    } else if s.len() >= 1 && s[s.len() - 1] == '\n' {
        s.subrange(0, s.len() - 1)
    } else {
        s
    }
}

/// The text a status line carries: everything after the status prefix,
/// without the line terminator.
pub open spec fn status_text(line: Seq<char>) -> Seq<char> {
    if is_ok_status(line) {
        strip_line_ending(line.subrange(4, line.len() as int))
    } else if is_err_status(line) {
        strip_line_ending(line.subrange(5, line.len() as int))
    } else {
        Seq::empty()
    }
}

/// Is this response expected to span multiple lines? True only for `LIST`
/// issued with no parameter; every other command in scope is single-line.
pub open spec fn spec_is_multiline(command: Seq<char>, has_param: bool) -> bool {
    command == seq!['L', 'I', 'S', 'T'] && !has_param
}

/// The wire form of a command: the command word alone, or the command word,
/// one space, and the parameter. The transport appends the CRLF terminator.
pub open spec fn spec_frame(command: Seq<char>, param: Option<Seq<char>>) -> Seq<char> {
    match param {
        Some(p) => command + seq![' '] + p,
        None => command,
    }
}

/// Is the line the sentinel that ends a multi-line response: a single dot
/// followed by CRLF?
pub open spec fn is_terminator_line(line: Seq<char>) -> bool {
    line == seq!['.', '\r', '\n']
}

/// Build the wire line for a command and decide whether its response will
/// be multi-line.
pub fn frame_command(command: &str, param: Option<&str>) -> (r: (String, bool))
    ensures
        r.0@ == spec_frame(
            command@,
            match param {
                Some(p) => Some(p@),
                None => None,
            },
        ),
        r.1 == spec_is_multiline(command@, param is Some),
{
    let is_list = command.unicode_len() == 4 && command.get_char(0) == 'L' && command.get_char(1)
        == 'I' && command.get_char(2) == 'S' && command.get_char(3) == 'T';
    proof {
        if is_list {
            assert(command@ =~= seq!['L', 'I', 'S', 'T']);
        }
    }
    let mut line = String::from_str(command);
    match param {
        Some(p) => {
            line.append(" ");
            line.append(p);
            proof {
                reveal_strlit(" ");
                assert(" "@ =~= seq![' ']);
            }
            (line, false)
        },
        None => (line, is_list),
    }
}

/// Fold one received line into a multi-line response being collected.
/// Returns true exactly when the line is the terminating sentinel, which
/// is discarded; any other line is appended verbatim.
pub fn read_response_step(response: &mut Vec<String>, line: String) -> (done: bool)
    ensures
        done == is_terminator_line(line@),
        done ==> final(response)@ == old(response)@,
        !done ==> final(response)@ == old(response)@.push(line),
{
    let terminator = line.unicode_len() == 3 && line.as_str().get_char(0) == '.'
        && line.as_str().get_char(1) == '\r' && line.as_str().get_char(2) == '\n';
    proof {
        if terminator {
            assert(line@ =~= seq!['.', '\r', '\n']);
        }
    }
    if terminator {
        true
    } else {
        response.push(line);
        false
    }
}

/// Judge a decoded response against the status grammar. The first line must
/// read `+OK <text>` (the whole response is returned as success) or
/// `-ERR <text>` (rejected, carrying the server's text); anything else,
/// including an empty response, fails to parse.
pub fn interpret_response(response: Vec<String>) -> (r: Result<Vec<String>, Pop3Error>)
    ensures
        response@.len() == 0 ==> r == Err::<Vec<String>, Pop3Error>(Pop3Error::ProtocolParse),
        response@.len() >= 1 && is_ok_status(response@[0]@) ==> r == Ok::<Vec<String>, Pop3Error>(
            response,
        ),
        response@.len() >= 1 && is_err_status(response@[0]@) ==> (r matches Err(
            Pop3Error::ServerRejected(t),
        ) && t@ == status_text(response@[0]@)),
        response@.len() >= 1 && !is_ok_status(response@[0]@) && !is_err_status(response@[0]@)
            ==> r == Err::<Vec<String>, Pop3Error>(Pop3Error::ProtocolParse),
{
    if response.len() == 0 {
        return Err(Pop3Error::ProtocolParse);
    }
    let status = &response[0];
    let n = status.as_str().unicode_len();
    let ok = n >= 4 && status.as_str().get_char(0) == '+' && status.as_str().get_char(1) == 'O'
        && status.as_str().get_char(2) == 'K' && status.as_str().get_char(3) == ' ';
    if ok {
        return Ok(response);
    }
    let rejected = n >= 5 && status.as_str().get_char(0) == '-' && status.as_str().get_char(1)
        == 'E' && status.as_str().get_char(2) == 'R' && status.as_str().get_char(3) == 'R'
        && status.as_str().get_char(4) == ' ';
    if rejected {
        let text = status_text_exec(status.as_str());
        return Err(Pop3Error::ServerRejected(text));
    }
    Err(Pop3Error::ProtocolParse)
}

/// The text after a status prefix, with the line terminator removed.
fn status_text_exec(line: &str) -> (r: String)
    requires
        is_ok_status(line@) || is_err_status(line@),
    ensures
        r@ == status_text(line@),
{
    let n = line.unicode_len();
    let from: usize = if line.get_char(0) == '+' {
        4
    } else {
        5
    };
    let mut to = n;
    if to >= from + 2 && line.get_char(to - 2) == '\r' && line.get_char(to - 1) == '\n' {
        to = to - 2;
    } else if to >= from + 1 && line.get_char(to - 1) == '\n' {
        to = to - 1;
    }
    let text = line.substring_char(from, to).to_owned();
    proof {
        let tail = line@.subrange(from as int, n as int);
        assert(tail.len() == n - from);
        if n >= from + 2 && line@[n - 2] == '\r' && line@[n - 1] == '\n' {
            assert(tail[tail.len() - 2] == line@[n - 2]);
            assert(tail[tail.len() - 1] == line@[n - 1]);
            assert(strip_line_ending(tail) =~= line@.subrange(from as int, n - 2));
        } else if n >= from + 1 && line@[n - 1] == '\n' {
            assert(tail[tail.len() - 1] == line@[n - 1]);
            assert(strip_line_ending(tail) =~= line@.subrange(from as int, n - 1));
        } else {
            assert(strip_line_ending(tail) =~= tail);
        }
    }
    text
}

/// The least index of `c` in `s`, or `s.len()` when `c` does not occur.
pub open spec fn first_index_of(s: Seq<char>, c: char) -> int
    decreases s.len(),
{
    if s.len() == 0 {
        0
    } else if s[0] == c {
        0
    } else {
        1 + first_index_of(s.drop_first(), c)
    }
}

/// `first_index_of` names the least index holding `c`.
pub proof fn lemma_first_index_of(s: Seq<char>, c: char)
    ensures
        0 <= first_index_of(s, c) <= s.len(),
        first_index_of(s, c) < s.len() ==> s[first_index_of(s, c)] == c,
        forall|j: int| 0 <= j < first_index_of(s, c) ==> s[j] != c,
    decreases s.len(),
{
    if s.len() > 0 && s[0] != c {
        lemma_first_index_of(s.drop_first(), c);
        assert forall|j: int| 0 <= j < first_index_of(s, c) implies s[j] != c by {
            if j > 0 {
                assert(s.drop_first()[j - 1] == s[j]);
            }
        }
    }
}

/// Does the greeting line end in a bracketed timestamp token: some `<`,
/// then a `>` immediately before the terminating CRLF?
pub open spec fn has_timestamp(line: Seq<char>) -> bool {
    &&& line.len() >= 4
    &&& line[line.len() - 1] == '\n'
    &&& line[line.len() - 2] == '\r'
    &&& line[line.len() - 3] == '>'
    &&& first_index_of(line, '<') < line.len() - 3
}

/// The timestamp token of a greeting line, brackets included: from the
/// first `<` through the `>` that closes the line. Empty when the line
/// carries no token.
pub open spec fn spec_timestamp(line: Seq<char>) -> Seq<char> {
    if has_timestamp(line) {
        line.subrange(first_index_of(line, '<'), line.len() - 2)
    } else {
        Seq::empty()
    }
}

/// Extract the APOP timestamp token from the greeting line, verbatim and
/// with its angle brackets; the empty string when no token is present.
pub fn extract_timestamp(line: &str) -> (r: String)
    ensures
        r@ == spec_timestamp(line@),
{
    let n = line.unicode_len();
    if n < 4 || line.get_char(n - 1) != '\n' || line.get_char(n - 2) != '\r' || line.get_char(
        n - 3,
    ) != '>' {
        return String::new();
    }
    let mut i: usize = 0;
    while i < n && line.get_char(i) != '<'
        invariant
            0 <= i <= n,
            n == line@.len(),
            forall|j: int| 0 <= j < i ==> line@[j] != '<',
        decreases n - i,
    {
        i = i + 1;
    }
    proof {
        lemma_first_index_of(line@, '<');
        if i < n {
            assert(first_index_of(line@, '<') == i);
        } else {
            assert(first_index_of(line@, '<') == n);
        }
    }
    if i < n - 3 {
        line.substring_char(i, n - 2).to_owned()
    } else {
        String::new()
    }
}

} // verus!
