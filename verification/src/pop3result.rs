//! The two parseable POP3 result shapes: mailbox statistics (`STAT`) and
//! the mailbox listing (`LIST`), with their line grammars stated exactly.
//!
//! A stat line carries two decimal numbers separated by one space; the
//! parser finds the leftmost such pair. A listing header line reads
//! `+OK <n> <words> (<size> <word>)` (or `-ERR` alike), where the words are
//! lowercase. A number that does not fit a `u32` is a parse failure.

use crate::errors::Pop3Error;
use crate::text::class_run_end;
use crate::text::digit_run_end;
use crate::text::digits_val;
use crate::text::find_class_run_end;
use crate::text::find_digit_run_end;
use crate::text::find_lower_run_end;
use crate::text::is_digit;
use crate::text::is_digit_exec;
use crate::text::is_lower;
use crate::text::is_lower_exec;
use crate::text::lemma_digit_run_end;
use crate::text::lower_run_end;
use crate::text::parse_u32;
use vstd::prelude::*;

verus! {

/// One entry of a mailbox listing: a message id and its size in bytes.
#[derive(Debug, Clone, Copy, PartialEq, Eq, Structural)]
pub struct EmailMetadata {
    pub msg_id: u32,
    pub msg_size: u32,
}

/// Mailbox statistics: how many messages it holds and their total size.
#[derive(Debug, Clone, Copy, PartialEq, Eq, Structural)]
pub struct POP3Stat {
    pub mbox_size: u32,
    pub num_mails: u32,
}

/// A parsed mailbox listing: one entry per message, and, when the response
/// was multi-line, the summary from its header line.
#[derive(Debug)]
pub struct POP3List {
    pub mailbox: Vec<EmailMetadata>,
    pub mbox_stat: Option<POP3Stat>,
}

/// Does the stat grammar match starting exactly at `at`: a digit run, one
/// space, and a second digit run?
pub open spec fn stat_match_at(s: Seq<char>, at: int) -> bool {
    let j = digit_run_end(s, at);
    &&& 0 <= at < s.len()
    &&& is_digit(s[at])
    &&& j < s.len() && s[j] == ' '
    &&& j + 1 < s.len() && is_digit(s[j + 1])
}

/// The least position at or after `from` where the stat grammar matches,
/// or `s.len()` when it matches nowhere.
pub open spec fn first_stat_match(s: Seq<char>, from: int) -> int
    recommends
        0 <= from <= s.len(),
    decreases s.len() - from,
{
    if from < 0 || from >= s.len() {
        from
    } else if stat_match_at(s, from) {
        from
    } else {
        first_stat_match(s, from + 1)
    }
}

/// The two digit groups of the leftmost stat match, or `None` when the
/// grammar does not match anywhere in the line.
pub open spec fn stat_groups(s: Seq<char>) -> Option<(Seq<char>, Seq<char>)> {
    let at = first_stat_match(s, 0);
    if at < s.len() {
        let j = digit_run_end(s, at);
        let k = digit_run_end(s, j + 1);
        Some((s.subrange(at, j), s.subrange(j + 1, k)))
    } else {
        None
    }
}

/// The numeric values of a stat line: the leftmost pair of space-separated
/// decimal numbers, provided both fit a `u32`.
pub open spec fn spec_stat(line: Seq<char>) -> Option<(nat, nat)> {
    match stat_groups(line) {
        Some(g) => if digits_val(g.0) <= u32::MAX && digits_val(g.1) <= u32::MAX {
            Some((digits_val(g.0), digits_val(g.1)))
        } else {
            None
        },
        None => None,
    }
}

/// The length of the status word and its trailing space at `at`: 4 for
/// `+OK `, 5 for `-ERR `, 0 when neither stands there.
pub open spec fn header_prefix_len(s: Seq<char>, at: int) -> int {
    if at + 4 <= s.len() && s[at] == '+' && s[at + 1] == 'O' && s[at + 2] == 'K' && s[at + 3]
        == ' ' {
        4
    } else if at + 5 <= s.len() && s[at] == '-' && s[at + 1] == 'E' && s[at + 2] == 'R' && s[at + 3]
        == 'R' && s[at + 4] == ' ' {
        5
    } else {
        0
    }
}

/// Does the listing-header grammar match starting exactly at `at`:
/// a status word, a digit run, a nonempty stretch of lowercase words ending
/// in a space, then `(`, a digit run, a space, a lowercase word and `)`.
pub open spec fn header_match_at(s: Seq<char>, at: int) -> bool {
    let p = at + header_prefix_len(s, at);
    let j = digit_run_end(s, p);
    let q = class_run_end(s, j + 1);
    let d = digit_run_end(s, q + 1);
    let l = lower_run_end(s, d + 1);
    &&& 0 <= at < s.len()
    &&& header_prefix_len(s, at) > 0
    &&& p < s.len() && is_digit(s[p])
    &&& j < s.len() && s[j] == ' '
    &&& j + 3 <= q
    &&& q < s.len() && s[q] == '(' && s[q - 1] == ' '
    &&& q + 1 < s.len() && is_digit(s[q + 1])
    &&& d < s.len() && s[d] == ' '
    &&& d + 1 < s.len() && is_lower(s[d + 1])
    &&& l < s.len() && s[l] == ')'
}

/// The least position at or after `from` where the header grammar matches,
/// or `s.len()` when it matches nowhere.
pub open spec fn first_header_match(s: Seq<char>, from: int) -> int
    recommends
        0 <= from <= s.len(),
    decreases s.len() - from,
{
    if from < 0 || from >= s.len() {
        from
    } else if header_match_at(s, from) {
        from
    } else {
        first_header_match(s, from + 1)
    }
}

/// The message-count and size digit groups of the leftmost header match.
pub open spec fn header_groups(s: Seq<char>) -> Option<(Seq<char>, Seq<char>)> {
    let at = first_header_match(s, 0);
    if at < s.len() {
        let p = at + header_prefix_len(s, at);
        let j = digit_run_end(s, p);
        let q = class_run_end(s, j + 1);
        let d = digit_run_end(s, q + 1);
        Some((s.subrange(p, j), s.subrange(q + 1, d)))
    } else {
        None
    }
}

/// The numeric values of a listing header line, provided both fit a `u32`.
pub open spec fn spec_header(line: Seq<char>) -> Option<(nat, nat)> {
    match header_groups(line) {
        Some(g) => if digits_val(g.0) <= u32::MAX && digits_val(g.1) <= u32::MAX {
            Some((digits_val(g.0), digits_val(g.1)))
        } else {
            None
        },
        None => None,
    }
}

/// Does a listing entry carry exactly the two numbers of a stat line?
pub open spec fn entry_matches_line(e: EmailMetadata, line: Seq<char>) -> bool {
    spec_stat(line) matches Some(v) && e.msg_id == v.0 && e.msg_size == v.1
}

/// Decide the stat grammar at one position; on a match, return the ends of
/// the two digit runs.
fn stat_match_at_exec(s: &str, at: usize, n: usize) -> (r: Option<(usize, usize)>)
    requires
        n == s@.len(),
        at < n,
    ensures
        match r {
            Some(jk) => stat_match_at(s@, at as int) && jk.0 == digit_run_end(s@, at as int)
                && jk.1 == digit_run_end(s@, jk.0 as int + 1),
            None => !stat_match_at(s@, at as int),
        },
{
    if !is_digit_exec(s.get_char(at)) {
        return None;
    }
    let j = find_digit_run_end(s, at);
    proof {
        lemma_digit_run_end(s@, at as int);
    }
    if j < n && s.get_char(j) == ' ' && j + 1 < n && is_digit_exec(s.get_char(j + 1)) {
        let k = find_digit_run_end(s, j + 1);
        Some((j, k))
    } else {
        None
    }
}

/// Find the leftmost stat match of the whole line.
fn find_stat_match(s: &str) -> (r: Option<(usize, usize, usize)>)
    ensures
        match r {
            Some(m) => m.0 == first_stat_match(s@, 0) && (m.0 as int) < s@.len() && m.1
                == digit_run_end(s@, m.0 as int) && m.2 == digit_run_end(s@, m.1 as int + 1)
                && stat_match_at(s@, m.0 as int),
            None => first_stat_match(s@, 0) == s@.len(),
        },
{
    let n = s.unicode_len();
    let mut at: usize = 0;
    while at < n
        invariant
            0 <= at <= n,
            n == s@.len(),
            first_stat_match(s@, 0) == first_stat_match(s@, at as int),
        decreases n - at,
    {
        match stat_match_at_exec(s, at, n) {
            Some(jk) => {
                return Some((at, jk.0, jk.1));
            },
            None => {
                at = at + 1;
            },
        }
    }
    None
}

/// Read the two numbers of the leftmost stat match of the line; `None` when
/// the grammar does not match or a number does not fit a `u32`.
fn parse_stat_numbers(s: &str) -> (r: Option<(u32, u32)>)
    ensures
        match r {
            Some(v) => spec_stat(s@) == Some((v.0 as nat, v.1 as nat)),
            None => spec_stat(s@) is None,
        },
{
    match find_stat_match(s) {
        None => None,
        Some(m) => {
            let (at, j, k) = m;
            proof {
                lemma_digit_run_end(s@, at as int);
                lemma_digit_run_end(s@, j as int + 1);
            }
            let first = parse_u32(s, at, j);
            let second = parse_u32(s, j + 1, k);
            match (first, second) {
                (Some(a), Some(b)) => Some((a, b)),
                _ => None,
            }
        },
    }
}

/// Decide the header grammar at one position; on a match, return the
/// bounds of the two digit groups.
fn header_match_at_exec(s: &str, at: usize, n: usize) -> (r: Option<(usize, usize, usize, usize)>)
    requires
        n == s@.len(),
        at < n,
    ensures
        match r {
            Some(m) => {
                &&& header_match_at(s@, at as int)
                &&& m.0 == at + header_prefix_len(s@, at as int)
                &&& m.1 == digit_run_end(s@, m.0 as int)
                &&& m.2 == class_run_end(s@, m.1 as int + 1)
                &&& m.3 == digit_run_end(s@, m.2 as int + 1)
            },
            None => !header_match_at(s@, at as int),
        },
{
    let plen: usize = if n - at >= 4 && s.get_char(at) == '+' && s.get_char(at + 1) == 'O'
        && s.get_char(at + 2) == 'K' && s.get_char(at + 3) == ' ' {
        4
    } else if n - at >= 5 && s.get_char(at) == '-' && s.get_char(at + 1) == 'E' && s.get_char(
        at + 2,
    ) == 'R' && s.get_char(at + 3) == 'R' && s.get_char(at + 4) == ' ' {
        5
    } else {
        0
    };
    assert(plen as int == header_prefix_len(s@, at as int));
    if plen == 0 {
        return None;
    }
    let p = at + plen;
    if !(p < n && is_digit_exec(s.get_char(p))) {
        return None;
    }
    let j = find_digit_run_end(s, p);
    proof {
        lemma_digit_run_end(s@, p as int);
    }
    if !(j < n && s.get_char(j) == ' ') {
        return None;
    }
    let q = find_class_run_end(s, j + 1);
    proof {
        crate::text::lemma_class_run_end(s@, j as int + 1);
    }
    if !(q - j >= 3 && q < n && s.get_char(q) == '(' && s.get_char(q - 1) == ' ') {
        return None;
    }
    if !(q + 1 < n && is_digit_exec(s.get_char(q + 1))) {
        return None;
    }
    let d = find_digit_run_end(s, q + 1);
    if !(d < n && s.get_char(d) == ' ') {
        return None;
    }
    if !(d + 1 < n && is_lower_exec(s.get_char(d + 1))) {
        return None;
    }
    let l = find_lower_run_end(s, d + 1);
    if !(l < n && s.get_char(l) == ')') {
        return None;
    }
    Some((p, j, q, d))
}

/// Read the two numbers of the leftmost header match of the line; `None`
/// when the grammar does not match or a number does not fit a `u32`.
fn parse_header_numbers(s: &str) -> (r: Option<(u32, u32)>)
    ensures
        match r {
            Some(v) => spec_header(s@) == Some((v.0 as nat, v.1 as nat)),
            None => spec_header(s@) is None,
        },
{
    let n = s.unicode_len();
    let mut at: usize = 0;
    while at < n
        invariant
            0 <= at <= n,
            n == s@.len(),
            first_header_match(s@, 0) == first_header_match(s@, at as int),
        decreases n - at,
    {
        match header_match_at_exec(s, at, n) {
            Some(m) => {
                let (p, j, q, d) = m;
                proof {
                    lemma_digit_run_end(s@, p as int);
                    lemma_digit_run_end(s@, q as int + 1);
                }
                let first = parse_u32(s, p, j);
                let second = parse_u32(s, q + 1, d);
                match (first, second) {
                    (Some(a), Some(b)) => {
                        return Some((a, b));
                    },
                    _ => {
                        return None;
                    },
                }
            },
            None => {
                at = at + 1;
            },
        }
    }
    None
}

impl POP3Stat {
    /// Parse a stat line such as `2 320` into mailbox statistics: the first
    /// number is the message count, the second the total size. A line the
    /// grammar does not match is a parse failure, never a silent default.
    pub fn parse(stat_line: &str) -> (r: Result<POP3Stat, Pop3Error>)
        ensures
            match spec_stat(stat_line@) {
                Some(v) => r matches Ok(st) && st.num_mails == v.0 && st.mbox_size == v.1,
                None => r == Err::<POP3Stat, Pop3Error>(Pop3Error::ProtocolParse),
            },
    {
        match parse_stat_numbers(stat_line) {
            Some(v) => Ok(POP3Stat { num_mails: v.0, mbox_size: v.1 }),
            None => Err(Pop3Error::ProtocolParse),
        }
    }
}

impl POP3List {
    /// Parse the decoded lines of a `LIST` response. With more than one
    /// line, the first is the summary header and every further line one
    /// listing entry; with exactly one line, that line is a single entry
    /// and there is no summary. Any line its grammar does not match is a
    /// parse failure.
    pub fn parse(list_data: &[String]) -> (r: Result<POP3List, Pop3Error>)
        ensures
            ({
                let dv = list_data.deep_view();
                match r {
                    Ok(list) => {
                        &&& dv.len() > 1 ==> {
                            &&& spec_header(dv[0]) matches Some(h) && list.mbox_stat matches Some(
                                st,
                            ) && st.num_mails == h.0 && st.mbox_size == h.1
                            &&& list.mailbox@.len() == dv.len() - 1
                            &&& forall|i: int|
                                0 <= i < dv.len() - 1 ==> entry_matches_line(
                                    #[trigger] list.mailbox@[i],
                                    dv[i + 1],
                                )
                        }
                        &&& dv.len() <= 1 ==> {
                            &&& list.mbox_stat is None
                            &&& list.mailbox@.len() == dv.len()
                            &&& forall|i: int|
                                0 <= i < dv.len() ==> entry_matches_line(
                                    #[trigger] list.mailbox@[i],
                                    dv[i],
                                )
                        }
                    },
                    Err(e) => {
                        &&& e == Pop3Error::ProtocolParse
                        &&& (dv.len() > 1 && spec_header(dv[0]) is None) || (exists|i: int|
                            (if dv.len() > 1 {
                                1int
                            } else {
                                0int
                            }) <= i < dv.len() && spec_stat(#[trigger] dv[i]) is None)
                    },
                }
            }),
    {
        let ghost dv = list_data.deep_view();
        let n = list_data.len();
        let mut mailbox: Vec<EmailMetadata> = Vec::new();
        let mut mbox_stat: Option<POP3Stat> = None;
        let mut beginitr: usize = 0;

        // A multi-line response starts with a summary of the mailbox.
        if n > 1 {
            beginitr = 1;
            let first = vstd::slice::slice_index_get(list_data, 0);
            proof {
                assert(dv[0] == list_data@[0]@);
            }
            match parse_header_numbers(first.as_str()) {
                Some(v) => {
                    mbox_stat = Some(POP3Stat { num_mails: v.0, mbox_size: v.1 });
                },
                None => {
                    return Err(Pop3Error::ProtocolParse);
                },
            }
        }
        let mut idx = beginitr;
        while idx < n
            invariant
                beginitr <= idx <= n,
                n == dv.len(),
                dv == list_data.deep_view(),
                beginitr == if n > 1 {
                    1int
                } else {
                    0int
                },
                n > 1 ==> (spec_header(dv[0]) matches Some(h) && mbox_stat matches Some(st)
                    && st.num_mails == h.0 && st.mbox_size == h.1),
                n <= 1 ==> mbox_stat is None,
                mailbox@.len() == idx - beginitr,
                forall|i: int|
                    0 <= i < idx - beginitr ==> entry_matches_line(
                        #[trigger] mailbox@[i],
                        dv[i + beginitr],
                    ),
            decreases n - idx,
        {
            let line = vstd::slice::slice_index_get(list_data, idx);
            proof {
                assert(dv[idx as int] == list_data@[idx as int]@);
            }
            match parse_stat_numbers(line.as_str()) {
                Some(v) => {
                    let ghost before = mailbox@;
                    mailbox.push(EmailMetadata { msg_id: v.0, msg_size: v.1 });
                    proof {
                        assert(spec_stat(dv[idx as int]) == Some((v.0 as nat, v.1 as nat)));
                        assert forall|i: int| 0 <= i < (idx + 1) - beginitr implies entry_matches_line(
                            #[trigger] mailbox@[i],
                            dv[i + beginitr],
                        ) by {
                            if i < idx - beginitr {
                                assert(mailbox@[i] == before[i]);
                                assert(entry_matches_line(before[i], dv[i + beginitr]));
                            } else {
                                assert(i + beginitr == idx as int);
                                assert(mailbox@[i] == (EmailMetadata {
                                    msg_id: v.0,
                                    msg_size: v.1,
                                }));
                            }
                        }
                    }
                },
                None => {
                    proof {
                        assert(spec_stat(dv[idx as int]) is None);
                    }
                    return Err(Pop3Error::ProtocolParse);
                },
            }
            idx = idx + 1;
        }
        Ok(POP3List { mailbox, mbox_stat })
    }
}

} // verus!
