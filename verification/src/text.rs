//! Line-oriented text: decimal numbers, joining lines and splitting text back
//! into lines. Everything is stated over `Seq<char>`, the view of a string.

use vstd::prelude::*;
use vstd::string::*;

verus! {

/// The character that writes the digit `d` (`0 <= d <= 9`).
pub open spec fn digit_char(d: int) -> char {
    if d == 0 {
        '0'
    } else if d == 1 {
        '1'
    } else if d == 2 {
        '2'
    } else if d == 3 {
        '3'
    } else if d == 4 {
        '4'
    } else if d == 5 {
        '5'
    } else if d == 6 {
        '6'
    } else if d == 7 {
        '7'
    } else if d == 8 {
        '8'
    } else {
        '9'
    }
}

/// `n` written in base ten, most significant digit first, without leading zeros.
pub open spec fn decimal(n: nat) -> Seq<char>
    decreases n,
{
    if n < 10 {
        seq![digit_char(n as int)]
    } else {
        decimal(n / 10).push(digit_char((n % 10) as int))
    }
}

/// Every line followed by a line feed: `a`, `b` becomes `a\nb\n`.
pub open spec fn terminated(lines: Seq<Seq<char>>) -> Seq<char>
    decreases lines.len(),
{
    if lines.len() == 0 {
        Seq::empty()
    } else {
        terminated(lines.drop_last()) + lines.last().push('\n')
    }
}

/// The lines separated by a line feed: `a`, `b` becomes `a\nb`.
pub open spec fn joined(lines: Seq<Seq<char>>) -> Seq<char>
    decreases lines.len(),
{
    if lines.len() == 0 {
        Seq::empty()
    } else if lines.len() == 1 {
        lines[0]
    } else {
        joined(lines.drop_last()).push('\n') + lines.last()
    }
}

/// The index of the first line feed in `s`, or `s.len()` where it has none.
pub open spec fn first_newline(s: Seq<char>) -> int
    decreases s.len(),
{
    if s.len() == 0 {
        0
    } else if s[0] == '\n' {
        0
    } else {
        1 + first_newline(s.drop_first())
    }
}

/// A line without the carriage return that stood before its line feed.
pub open spec fn strip_cr(line: Seq<char>) -> Seq<char> {
    if line.len() > 0 && line.last() == '\r' {
        line.drop_last()
    } else {
        line
    }
}

/// The lines of `s`. A line ends at a line feed, or at a carriage return
/// directly followed by one; the terminator is not part of the line. The last
/// line needs no terminator, and a text that ends with one has no empty line
/// after it.
pub open spec fn split_lines(s: Seq<char>) -> Seq<Seq<char>>
    decreases s.len(),
{
    if s.len() == 0 {
        Seq::empty()
    } else {
        let p = first_newline(s);
        if p < 0 || p >= s.len() {
            seq![s]
        } else {
            seq![strip_cr(s.take(p))] + split_lines(s.skip(p + 1))
        }
    }
}

/// Line number `n` of `s`, counted from zero, if `s` has that many lines.
pub open spec fn nth_line(s: Seq<char>, n: nat) -> Option<Seq<char>> {
    if n < split_lines(s).len() {
        Some(split_lines(s)[n as int])
    } else {
        None
    }
}

/// No line feed occurs in `s`.
pub open spec fn single_line(s: Seq<char>) -> bool {
    forall|i: int| 0 <= i < s.len() ==> s[i] != '\n'
}

/// The view of an optional string.
pub open spec fn opt_view(o: Option<String>) -> Option<Seq<char>> {
    match o {
        Some(s) => Some(s@),
        None => None,
    }
}

/// The views of the strings of a vector, in order.
pub open spec fn views(v: Seq<String>) -> Seq<Seq<char>> {
    Seq::new(v.len(), |i: int| v[i]@)
}

/// The first line feed lies within the text, a line feed stands at it, and
/// none stands before it.
pub proof fn lemma_first_newline_bounds(s: Seq<char>)
    ensures
        0 <= first_newline(s) <= s.len(),
        first_newline(s) < s.len() ==> s[first_newline(s)] == '\n',
        forall|i: int| 0 <= i < first_newline(s) ==> s[i] != '\n',
    decreases s.len(),
{
    if s.len() > 0 && s[0] != '\n' {
        let t = s.drop_first();
        lemma_first_newline_bounds(t);
        assert forall|i: int| 0 <= i < first_newline(s) implies s[i] != '\n' by {
            if i > 0 {
                assert(s[i] == t[i - 1]);
            }
        }
    }
}

/// The first line feed is where the first line feed is: an index `p` with a
/// line feed at it and none before it, or the length where there is none.
pub proof fn lemma_first_newline_is(s: Seq<char>, p: int)
    requires
        0 <= p <= s.len(),
        forall|i: int| 0 <= i < p ==> s[i] != '\n',
        p < s.len() ==> s[p] == '\n',
    ensures
        first_newline(s) == p,
{
    lemma_first_newline_bounds(s);
}

/// A text that starts with a line without line feeds, then a line feed, splits
/// into that line (less its carriage return) and the lines of the rest.
pub proof fn lemma_split_lines_cons(line: Seq<char>, rest: Seq<char>)
    requires
        single_line(line),
    ensures
        split_lines(line.push('\n') + rest) == seq![strip_cr(line)] + split_lines(rest),
{
    let s = line.push('\n') + rest;
    let p = line.len() as int;
    assert(s[p] == '\n');
    assert forall|i: int| 0 <= i < p implies s[i] != '\n' by {
        assert(s[i] == line[i]);
    }
    lemma_first_newline_is(s, p);
    assert(s.take(p) =~= line);
    assert(s.skip(p + 1) =~= rest);
}

/// Lines that hold no line feed and do not end in a carriage return come back
/// unchanged when their terminated text is split.
pub proof fn lemma_split_terminated(lines: Seq<Seq<char>>)
    requires
        forall|i: int| 0 <= i < lines.len() ==> single_line(#[trigger] lines[i]),
        forall|i: int| 0 <= i < lines.len() ==> strip_cr(#[trigger] lines[i]) == lines[i],
    ensures
        split_lines(terminated(lines)) == lines,
    decreases lines.len(),
{
    if lines.len() == 0 {
        assert(lines =~= Seq::empty());
    } else {
        let first = lines[0];
        let tail = lines.drop_first();
        lemma_terminated_cons(first, tail);
        assert(seq![first] + tail =~= lines);
        lemma_split_terminated(tail);
        lemma_split_lines_cons(first, terminated(tail));
    }
}

/// `terminated` unfolds at the front as well as at the back.
pub proof fn lemma_terminated_cons(first: Seq<char>, tail: Seq<Seq<char>>)
    ensures
        terminated(seq![first] + tail) == first.push('\n') + terminated(tail),
    decreases tail.len(),
{
    let all = seq![first] + tail;
    if tail.len() == 0 {
        assert(all.drop_last() =~= Seq::<Seq<char>>::empty());
        assert(terminated(all.drop_last()) =~= Seq::<char>::empty());
        assert(terminated(all) =~= first.push('\n'));
        assert(first.push('\n') + terminated(tail) =~= first.push('\n'));
    } else {
        assert(all.drop_last() =~= seq![first] + tail.drop_last());
        assert(all.last() == tail.last());
        lemma_terminated_cons(first, tail.drop_last());
        assert(terminated(all) =~= first.push('\n') + terminated(tail));
    }
}

/// `std::string::String::push`: the character is appended at the end.
#[verifier::external_body]
pub(crate) fn push_char(s: &mut String, c: char)
    ensures
        final(s)@ == old(s)@.push(c),
{
    s.push(c)
}

/// The character of one decimal digit.
fn digit(d: usize) -> (c: char)
    requires
        d < 10,
    ensures
        c == digit_char(d as int),
{
    if d == 0 {
        '0'
    } else if d == 1 {
        '1'
    } else if d == 2 {
        '2'
    } else if d == 3 {
        '3'
    } else if d == 4 {
        '4'
    } else if d == 5 {
        '5'
    } else if d == 6 {
        '6'
    } else if d == 7 {
        '7'
    } else if d == 8 {
        '8'
    } else {
        '9'
    }
}

/// `n` in base ten.
pub fn decimal_string(n: usize) -> (s: String)
    ensures
        s@ == decimal(n as nat),
{
    let mut low: Vec<char> = Vec::new();
    let mut rest: usize = n;
    let ghost mut tail: Seq<char> = Seq::empty();
    while rest >= 10
        invariant
            decimal(n as nat) == decimal(rest as nat) + tail,
            tail.len() == low.len(),
            forall|i: int| 0 <= i < tail.len() ==> tail[i] == low[low.len() - 1 - i],
        decreases rest,
    {
        let d = digit(rest % 10);
        proof {
            let shorter = decimal((rest / 10) as nat);
            assert(decimal(rest as nat) == shorter.push(d));
            assert(shorter.push(d) + tail =~= shorter + (seq![d] + tail));
            tail = seq![d] + tail;
        }
        low.push(d);
        rest = rest / 10;
    }
    let mut s = String::new();
    push_char(&mut s, digit(rest));
    let mut j: usize = low.len();
    while j > 0
        invariant
            j <= low.len(),
            tail.len() == low.len(),
            forall|i: int| 0 <= i < tail.len() ==> tail[i] == low[low.len() - 1 - i],
            s@ == decimal(rest as nat) + tail.take(low.len() - j),
        decreases j,
    {
        j = j - 1;
        proof {
            let m = low.len() - 1 - j;
            assert(tail.take(m + 1) =~= tail.take(m).push(tail[m]));
            assert((decimal(rest as nat) + tail.take(m)).push(tail[m]) =~= decimal(rest as nat)
                + tail.take(m + 1));
        }
        push_char(&mut s, low[j]);
    }
    proof {
        assert(tail.take(low.len() as int) =~= tail);
    }
    s
}

/// The lines separated by line feeds, as one string.
pub fn join_lines(lines: &Vec<String>) -> (s: String)
    ensures
        s@ == joined(views(lines@)),
{
    let mut s = String::new();
    let mut i: usize = 0;
    while i < lines.len()
        invariant
            i <= lines.len(),
            s@ == joined(views(lines@).take(i as int)),
        decreases lines.len() - i,
    {
        proof {
            let before = views(lines@).take(i as int);
            let after = views(lines@).take(i + 1);
            assert(after.drop_last() =~= before);
            assert(after.last() == lines@[i as int]@);
            if i == 0 {
                assert(before =~= Seq::<Seq<char>>::empty());
                assert(Seq::<char>::empty() + lines@[0]@ =~= lines@[0]@);
            }
        }
        if i > 0 {
            push_char(&mut s, '\n');
        }
        s.append(lines[i].as_str());
        i = i + 1;
    }
    proof {
        assert(views(lines@).take(lines.len() as int) =~= views(lines@));
    }
    s
}

/// Every line followed by a line feed, as one string.
pub fn terminate_lines(lines: &Vec<String>) -> (s: String)
    ensures
        s@ == terminated(views(lines@)),
{
    let mut s = String::new();
    let mut i: usize = 0;
    while i < lines.len()
        invariant
            i <= lines.len(),
            s@ == terminated(views(lines@).take(i as int)),
        decreases lines.len() - i,
    {
        proof {
            let before = views(lines@).take(i as int);
            let after = views(lines@).take(i + 1);
            assert(after.drop_last() =~= before);
            assert(after.last() == lines@[i as int]@);
            assert((s@ + lines@[i as int]@).push('\n') =~= s@ + lines@[i as int]@.push('\n'));
        }
        s.append(lines[i].as_str());
        push_char(&mut s, '\n');
        i = i + 1;
    }
    proof {
        assert(views(lines@).take(lines.len() as int) =~= views(lines@));
    }
    s
}

/// Line number `n` of `s`, counted from zero, or `None` where `s` has fewer lines.
pub fn line_at(s: &str, n: usize) -> (line: Option<String>)
    ensures
        opt_view(line) == nth_line(s@, n as nat),
{
    let len = s.unicode_len();
    let mut start: usize = 0;
    let mut k: usize = 0;
    let mut i: usize = 0;
    let ghost mut done: Seq<Seq<char>> = Seq::empty();
    proof {
        assert(s@.skip(0) =~= s@);
        assert(done + split_lines(s@) =~= split_lines(s@));
    }
    for c in it: s.chars()
        invariant
            it.seq() == s@,
            len == s@.len(),
            i == it.index(),
            start <= i <= len,
            k <= n,
            done.len() == k,
            split_lines(s@) == done + split_lines(s@.skip(start as int)),
            forall|j: int| start <= j < i ==> s@[j] != '\n',
    {
        if c == '\n' {
            let ghost rest = s@.skip(start as int);
            let ghost p = i - start;
            proof {
                assert(rest[p] == s@[i as int]);
                assert forall|j: int| 0 <= j < p implies rest[j] != '\n' by {
                    assert(rest[j] == s@[start + j]);
                }
                lemma_first_newline_is(rest, p);
                assert(rest.take(p) =~= s@.subrange(start as int, i as int));
                assert(rest.skip(p + 1) =~= s@.skip(i + 1));
            }
            if k == n {
                let raw = s.substring_char(start, i);
                let raw_len = i - start;
                if raw_len > 0 && raw.get_char(raw_len - 1) == '\r' {
                    let line = raw.substring_char(0, raw_len - 1);
                    assert(line@ =~= strip_cr(raw@));
                    return Some(String::from_str(line));
                } else {
                    return Some(String::from_str(raw));
                }
            }
            proof {
                let line = strip_cr(rest.take(p));
                assert(done + (seq![line] + split_lines(rest.skip(p + 1))) =~= done.push(line)
                    + split_lines(rest.skip(p + 1)));
                done = done.push(line);
            }
            k = k + 1;
            start = i + 1;
        }
        i = i + 1;
    }
    proof {
        let rest = s@.skip(start as int);
        if start < len {
            assert forall|j: int| 0 <= j < rest.len() implies rest[j] != '\n' by {
                assert(rest[j] == s@[start + j]);
            }
            lemma_first_newline_is(rest, rest.len() as int);
            assert(split_lines(rest) =~= seq![rest]);
        }
    }
    if k == n && start < len {
        let raw = s.substring_char(start, len);
        assert(raw@ =~= s@.skip(start as int));
        Some(String::from_str(raw))
    } else {
        None
    }
}

} // verus!
