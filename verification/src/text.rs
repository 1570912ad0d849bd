//! Character-level helpers shared by the response parsers: decimal digit
//! runs and overflow-checked conversion of a digit run to a `u32`.

use vstd::prelude::*;

verus! {

/// Is `c` a decimal digit?
pub open spec fn is_digit(c: char) -> bool {
    '0' as u32 <= c as u32 && c as u32 <= '9' as u32
}

/// The numeric value of a decimal digit.
pub open spec fn digit_val(c: char) -> nat {
    (c as u32 - '0' as u32) as nat
}

/// The numeric value of a sequence of decimal digits, most significant first.
pub open spec fn digits_val(s: Seq<char>) -> nat
    decreases s.len(),
{
    if s.len() == 0 {
        0
    } else {
        10 * digits_val(s.drop_last()) + digit_val(s.last())
    }
}

/// Reading one more digit multiplies the value so far by ten and adds it.
pub proof fn lemma_digits_val_step(s: Seq<char>, i: int)
    requires
        0 <= i < s.len(),
    ensures
        digits_val(s.subrange(0, i + 1)) == 10 * digits_val(s.subrange(0, i)) + digit_val(s[i]),
{
    let t = s.subrange(0, i + 1);
    assert(t.drop_last() =~= s.subrange(0, i));
    assert(t.last() == s[i]);
}

/// The end of the maximal run of decimal digits that starts at `from`:
/// the least index `j >= from` with no digit at `j` (or the end of `s`).
pub open spec fn digit_run_end(s: Seq<char>, from: int) -> int
    recommends
        0 <= from <= s.len(),
    decreases s.len() - from,
{
    if from < 0 || from >= s.len() {
        from
    } else if is_digit(s[from]) {
        digit_run_end(s, from + 1)
    } else {
        from
    }
}

/// Everything a caller needs of `digit_run_end`: it does not move backwards,
/// every character of the run is a digit, and the run is maximal.
pub proof fn lemma_digit_run_end(s: Seq<char>, from: int)
    requires
        0 <= from <= s.len(),
    ensures
        from <= digit_run_end(s, from) <= s.len(),
        forall|i: int| from <= i < digit_run_end(s, from) ==> is_digit(s[i]),
        digit_run_end(s, from) < s.len() ==> !is_digit(s[digit_run_end(s, from)]),
    decreases s.len() - from,
{
    if from < s.len() && is_digit(s[from]) {
        lemma_digit_run_end(s, from + 1);
    }
}

/// Find the end of the maximal digit run of `s` that starts at `from`.
pub fn find_digit_run_end(s: &str, from: usize) -> (r: usize)
    requires
        from <= s@.len(),
    ensures
        r == digit_run_end(s@, from as int),
{
    let n = s.unicode_len();
    let mut j = from;
    while j < n && is_digit_exec(s.get_char(j))
        invariant
            from <= j <= n,
            n == s@.len(),
            digit_run_end(s@, from as int) == digit_run_end(s@, j as int),
        decreases n - j,
    {
        j = j + 1;
    }
    j
}

/// Is `c` a decimal digit? (executable form)
pub fn is_digit_exec(c: char) -> (r: bool)
    ensures
        r == is_digit(c),
{
    let u = c as u32;
    '0' as u32 <= u && u <= '9' as u32
}

/// Is `c` a lowercase ASCII letter?
pub open spec fn is_lower(c: char) -> bool {
    'a' as u32 <= c as u32 && c as u32 <= 'z' as u32
}

/// Is `c` a lowercase ASCII letter or a space?
pub open spec fn is_lower_or_space(c: char) -> bool {
    is_lower(c) || c == ' '
}

/// The end of the maximal run of lowercase letters and spaces starting at
/// `from`.
pub open spec fn class_run_end(s: Seq<char>, from: int) -> int
    recommends
        0 <= from <= s.len(),
    decreases s.len() - from,
{
    if from < 0 || from >= s.len() {
        from
    } else if is_lower_or_space(s[from]) {
        class_run_end(s, from + 1)
    } else {
        from
    }
}

/// The maximal lowercase-or-space run: bounds, membership, maximality.
pub proof fn lemma_class_run_end(s: Seq<char>, from: int)
    requires
        0 <= from <= s.len(),
    ensures
        from <= class_run_end(s, from) <= s.len(),
        forall|i: int| from <= i < class_run_end(s, from) ==> is_lower_or_space(s[i]),
        class_run_end(s, from) < s.len() ==> !is_lower_or_space(s[class_run_end(s, from)]),
    decreases s.len() - from,
{
    if from < s.len() && is_lower_or_space(s[from]) {
        lemma_class_run_end(s, from + 1);
    }
}

/// The end of the maximal run of lowercase letters starting at `from`.
pub open spec fn lower_run_end(s: Seq<char>, from: int) -> int
    recommends
        0 <= from <= s.len(),
    decreases s.len() - from,
{
    if from < 0 || from >= s.len() {
        from
    } else if is_lower(s[from]) {
        lower_run_end(s, from + 1)
    } else {
        from
    }
}

/// Is `c` a lowercase ASCII letter? (executable form)
pub fn is_lower_exec(c: char) -> (r: bool)
    ensures
        r == is_lower(c),
{
    let u = c as u32;
    'a' as u32 <= u && u <= 'z' as u32
}

/// Is `c` a lowercase ASCII letter or a space? (executable form)
pub fn is_lower_or_space_exec(c: char) -> (r: bool)
    ensures
        r == is_lower_or_space(c),
{
    is_lower_exec(c) || c == ' '
}

/// Find the end of the maximal lowercase-or-space run starting at `from`.
pub fn find_class_run_end(s: &str, from: usize) -> (r: usize)
    requires
        from <= s@.len(),
    ensures
        r == class_run_end(s@, from as int),
{
    let n = s.unicode_len();
    let mut j = from;
    while j < n && is_lower_or_space_exec(s.get_char(j))
        invariant
            from <= j <= n,
            n == s@.len(),
            class_run_end(s@, from as int) == class_run_end(s@, j as int),
        decreases n - j,
    {
        j = j + 1;
    }
    j
}

/// Find the end of the maximal lowercase run starting at `from`.
pub fn find_lower_run_end(s: &str, from: usize) -> (r: usize)
    requires
        from <= s@.len(),
    ensures
        r == lower_run_end(s@, from as int),
{
    let n = s.unicode_len();
    let mut j = from;
    while j < n && is_lower_exec(s.get_char(j))
        invariant
            from <= j <= n,
            n == s@.len(),
            lower_run_end(s@, from as int) == lower_run_end(s@, j as int),
        decreases n - j,
    {
        j = j + 1;
    }
    j
}

/// Convert the digit run `s[from..to]` to a `u32`, most significant digit
/// first; `None` exactly when the value does not fit in a `u32`.
pub fn parse_u32(s: &str, from: usize, to: usize) -> (r: Option<u32>)
    requires
        from <= to <= s@.len(),
        forall|i: int| from <= i < to ==> is_digit(s@[i]),
    ensures
        match r {
            Some(v) => v == digits_val(s@.subrange(from as int, to as int)),
            None => digits_val(s@.subrange(from as int, to as int)) > u32::MAX,
        },
{
    let ghost run = s@.subrange(from as int, to as int);
    let mut acc: u32 = 0;
    let mut overflowed = false;
    let mut i = from;
    while i < to
        invariant
            from <= i <= to <= s@.len(),
            forall|j: int| from <= j < to ==> is_digit(s@[j]),
            run == s@.subrange(from as int, to as int),
            !overflowed ==> acc == digits_val(s@.subrange(from as int, i as int)),
            overflowed ==> digits_val(s@.subrange(from as int, i as int)) > u32::MAX,
        decreases to - i,
    {
        let c = s.get_char(i);
        let d: u32 = c as u32 - '0' as u32;
        proof {
            lemma_digits_val_step(s@.subrange(from as int, to as int), i - from);
            assert(s@.subrange(from as int, to as int).subrange(0, i - from) =~= s@.subrange(
                from as int,
                i as int,
            ));
            assert(s@.subrange(from as int, to as int).subrange(0, i - from + 1) =~= s@.subrange(
                from as int,
                i as int + 1,
            ));
            assert(s@.subrange(from as int, to as int)[i - from] == s@[i as int]);
        }
        if overflowed {
            assert(digits_val(s@.subrange(from as int, i as int + 1)) > u32::MAX);
        } else {
            let wide: u64 = 10 * (acc as u64) + (d as u64);
            if wide > u32::MAX as u64 {
                overflowed = true;
            } else {
                acc = wide as u32;
            }
        }
        i = i + 1;
    }
    proof {
        assert(s@.subrange(from as int, to as int) =~= s@.subrange(from as int, i as int));
    }
    if overflowed {
        None
    } else {
        Some(acc)
    }
}

} // verus!
