//! Lines of text and their on-disk form.
//!
//! A document is a sequence of lines; on disk it is every line followed
//! by one `'\n'`.  [`join_lines`] and [`split_lines`] specify the two
//! directions, [`lines_to_text`] and [`text_to_lines`] compute them, and
//! [`lemma_split_join_round_trip`] proves that writing a document out
//! and reading it back gives the same lines, as long as no line itself
//! contains a newline.  The module also holds the character-level string
//! edits the buffer operations are built from.

use vstd::prelude::*;
use vstd::string::StrSliceExecFns;
use vstd::string::StringExecFns;

use crate::term;

verus! {

/// The text that persisting `lines` produces: every line followed by a
/// newline, starting with `lines[i]`.
pub open spec fn join_from(lines: Seq<Seq<char>>, i: int) -> Seq<char>
    decreases lines.len() - i,
{
    if i < 0 || i >= lines.len() {
        Seq::empty()
    } else {
        lines[i] + seq!['\n'] + join_from(lines, i + 1)
    }
}

/// The text that persisting `lines` produces: every line followed by a
/// newline.
pub open spec fn join_lines(lines: Seq<Seq<char>>) -> Seq<char> {
    join_from(lines, 0)
}

/// Splitting `text` at newlines, with `cur` the partial line read so
/// far and `acc` the finished lines: each `'\n'` closes the current
/// line, and a nonempty final fragment counts as one more line.
pub open spec fn split_lines_from(
    text: Seq<char>,
    cur: Seq<char>,
    acc: Seq<Seq<char>>,
) -> Seq<Seq<char>>
    decreases text.len(),
{
    if text.len() == 0 {
        if cur.len() == 0 {
            acc
        } else {
            acc.push(cur)
        }
    } else if text[0] == '\n' {
        split_lines_from(text.drop_first(), Seq::empty(), acc.push(cur))
    } else {
        split_lines_from(text.drop_first(), cur.push(text[0]), acc)
    }
}

/// The lines of `text`: one line per newline-delimited segment, with a
/// trailing newline producing no extra empty line.
pub open spec fn split_lines(text: Seq<char>) -> Seq<Seq<char>> {
    split_lines_from(text, Seq::empty(), Seq::empty())
}

/// Reading one whole line out of the text to split: a stretch with no
/// newline followed by `'\n'` closes exactly one line.
proof fn lemma_split_line_step(l: Seq<char>, t: Seq<char>, cur: Seq<char>, acc: Seq<Seq<char>>)
    requires
        !l.contains('\n'),
    ensures
        split_lines_from(l + seq!['\n'] + t, cur, acc) == split_lines_from(
            t,
            Seq::empty(),
            acc.push(cur + l),
        ),
    decreases l.len(),
{
    let whole = l + seq!['\n'] + t;
    if l.len() == 0 {
        assert(whole =~= seq!['\n'] + t);
        assert(whole[0] == '\n');
        assert(whole.drop_first() =~= t);
        assert(cur + l =~= cur);
    } else {
        assert(whole[0] == l[0]);
        assert(l[0] != '\n') by {
            assert(l.contains(l[0]));
        }
        assert(whole.drop_first() =~= l.drop_first() + seq!['\n'] + t);
        assert(!l.drop_first().contains('\n')) by {
            if l.drop_first().contains('\n') {
                let j = choose|j: int| 0 <= j < l.drop_first().len() && l.drop_first()[j] == '\n';
                assert(l[j + 1] == '\n');
                assert(l.contains('\n'));
            }
        }
        lemma_split_line_step(l.drop_first(), t, cur.push(l[0]), acc);
        assert(cur.push(l[0]) + l.drop_first() =~= cur + l);
    }
}

/// Splitting the joined form of `lines` appends exactly `lines` to the
/// accumulator, as long as no line contains a newline.
proof fn lemma_split_join_from(lines: Seq<Seq<char>>, acc: Seq<Seq<char>>)
    requires
        forall|i: int| 0 <= i < lines.len() ==> !(#[trigger] lines[i]).contains('\n'),
    ensures
        split_lines_from(join_lines(lines), Seq::empty(), acc) == acc + lines,
    decreases lines.len(),
{
    if lines.len() == 0 {
        assert(join_lines(lines) =~= Seq::<char>::empty());
        assert(acc + lines =~= acc);
    } else {
        assert(join_lines(lines) == lines[0] + seq!['\n'] + join_from(lines, 1));
        lemma_split_line_step(lines[0], join_from(lines, 1), Seq::empty(), acc);
        assert(Seq::<char>::empty() + lines[0] =~= lines[0]);
        let rest = lines.drop_first();
        assert(join_from(lines, 1) =~= join_lines(rest)) by {
            lemma_join_from_shift(lines, 1);
        }
        lemma_split_join_from(rest, acc.push(lines[0]));
        assert(acc.push(lines[0]) + rest =~= acc + lines);
    }
}

/// Joining from position `i` of `lines` is joining the suffix from its
/// start.
proof fn lemma_join_from_shift(lines: Seq<Seq<char>>, i: int)
    requires
        0 <= i <= lines.len(),
    ensures
        join_from(lines, i) == join_lines(lines.subrange(i, lines.len() as int)),
    decreases lines.len() - i,
{
    let suffix = lines.subrange(i, lines.len() as int);
    if i == lines.len() {
        assert(join_lines(suffix) =~= Seq::<char>::empty());
    } else {
        lemma_join_from_shift(lines, i + 1);
        assert(suffix[0] == lines[i]);
        assert(lines.subrange(i + 1, lines.len() as int) =~= suffix.subrange(
            1,
            suffix.len() as int,
        ));
        assert(join_from(suffix, 1) == join_lines(suffix.subrange(1, suffix.len() as int))) by {
            lemma_join_from_shift(suffix, 1);
        }
    }
}

/// Round trip: splitting the text that joining `lines` produced yields
/// `lines` again, for every sequence of lines in which no line contains
/// a newline character.
pub proof fn lemma_split_join_round_trip(lines: Seq<Seq<char>>)
    requires
        forall|i: int| 0 <= i < lines.len() ==> !(#[trigger] lines[i]).contains('\n'),
    ensures
        split_lines(join_lines(lines)) == lines,
{
    lemma_split_join_from(lines, Seq::empty());
    assert(Seq::<Seq<char>>::empty() + lines =~= lines);
}

/// A new string equal to `line` with `c` inserted before character
/// offset `i`.
pub fn insert_char_at(line: &str, i: usize, c: char) -> (r: String)
    requires
        i <= line@.len(),
    ensures
        r@ == line@.insert(i as int, c),
{
    let n = line.unicode_len();
    let mut r = String::new();
    r.append(line.substring_char(0, i));
    term::push_char(&mut r, c);
    r.append(line.substring_char(i, n));
    proof {
        assert(r@ =~= line@.insert(i as int, c));
    }
    r
}

/// A new string equal to `line` with `t` spliced in before character
/// offset `i`.
pub fn insert_str_at(line: &str, i: usize, t: &str) -> (r: String)
    requires
        i <= line@.len(),
    ensures
        r@ == line@.subrange(0, i as int) + t@ + line@.subrange(i as int, line@.len() as int),
{
    let n = line.unicode_len();
    let mut r = String::new();
    r.append(line.substring_char(0, i));
    r.append(t);
    r.append(line.substring_char(i, n));
    r
}

/// A new string equal to `line` with its last character removed.
pub fn drop_last_char(line: &str) -> (r: String)
    requires
        line@.len() >= 1,
    ensures
        r@ == line@.drop_last(),
{
    let n = line.unicode_len();
    let r = String::from_str(line.substring_char(0, n - 1));
    proof {
        assert(r@ =~= line@.drop_last());
    }
    r
}

/// The number of characters in `line` (not its byte length).
pub fn line_len(line: &String) -> (n: usize)
    ensures
        n == line@.len(),
{
    line.as_str().unicode_len()
}

/// The persisted form of `lines`: every line followed by a newline.
pub fn lines_to_text(lines: &Vec<String>) -> (r: String)
    ensures
        r@ == join_lines(lines.deep_view()),
{
    let ghost all = lines.deep_view();
    let mut r = String::new();
    for i in 0..lines.len()
        invariant
            all == lines.deep_view(),
            all.len() == lines.len(),
            join_lines(all) == r@ + join_from(all, i as int),
    {
        assert(all[i as int] == lines@[i as int]@);
        r.append(lines[i].as_str());
        term::push_char(&mut r, '\n');
    }
    r
}

/// The lines of `text`, one per newline-delimited segment; a trailing
/// newline adds no extra empty line.
pub fn text_to_lines(text: &str) -> (r: Vec<String>)
    ensures
        r.deep_view() == split_lines(text@),
{
    let n = text.unicode_len();
    let mut acc: Vec<String> = Vec::new();
    let mut cur = String::new();
    proof {
        assert(text@.subrange(0, n as int) =~= text@);
        assert(acc.deep_view() =~= Seq::<Seq<char>>::empty());
    }
    for i in 0..n
        invariant
            n == text@.len(),
            split_lines(text@) == split_lines_from(
                text@.subrange(i as int, n as int),
                cur@,
                acc.deep_view(),
            ),
    {
        let ghost rest = text@.subrange(i as int, n as int);
        assert(rest[0] == text@[i as int]);
        let c = text.get_char(i);
        if c == '\n' {
            let ghost before = acc.deep_view();
            acc.push(cur);
            assert(acc.deep_view() =~= before.push(cur@));
            cur = String::new();
        } else {
            term::push_char(&mut cur, c);
        }
        assert(rest.drop_first() =~= text@.subrange(i + 1 as int, n as int));
    }
    assert(text@.subrange(n as int, n as int) =~= Seq::<char>::empty());
    if !cur.as_str().is_empty() {
        let ghost before = acc.deep_view();
        acc.push(cur);
        assert(acc.deep_view() =~= before.push(cur@));
    }
    acc
}

} // verus!
