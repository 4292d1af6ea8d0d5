//! Character-level string helpers shared by the command builders, the
//! migration checksums and the request validators.

use vstd::prelude::*;
use vstd::string::*;

verus! {

/// `s` with every trailing occurrence of `c` removed.
pub open spec fn trim_end_char(s: Seq<char>, c: char) -> Seq<char>
    decreases s.len(),
{
    if s.len() > 0 && s.last() == c {
        trim_end_char(s.drop_last(), c)
    } else {
        s
    }
}

/// `s` with every leading occurrence of `c` removed.
pub open spec fn trim_start_char(s: Seq<char>, c: char) -> Seq<char>
    decreases s.len(),
{
    if s.len() > 0 && s[0] == c {
        trim_start_char(s.drop_first(), c)
    } else {
        s
    }
}

/// `s` with every leading and trailing occurrence of `c` removed.
pub open spec fn trim_both_char(s: Seq<char>, c: char) -> Seq<char> {
    trim_start_char(trim_end_char(s, c), c)
}

/// The lines of `lines` joined by a newline, with no trailing newline.
pub open spec fn join_lines(lines: Seq<Seq<char>>) -> Seq<char>
    decreases lines.len(),
{
    if lines.len() == 0 {
        Seq::empty()
    } else if lines.len() == 1 {
        lines[0]
    } else {
        join_lines(lines.drop_last()) + seq!['\n'] + lines.last()
    }
}

/// The total number of characters of some lines.
pub open spec fn total_length(lines: Seq<Seq<char>>) -> nat
    decreases lines.len(),
{
    if lines.len() == 0 {
        0
    } else {
        total_length(lines.drop_last()) + lines.last().len()
    }
}

/// Where line `i` begins in a text of lines separated by single newlines:
/// after the characters of the lines before it and one newline each.
pub open spec fn line_start(lines: Seq<Seq<char>>, i: int) -> int {
    total_length(lines.take(i)) + i
}

proof fn lemma_line_start_step(lines: Seq<Seq<char>>, i: int)
    requires
        0 <= i < lines.len(),
    ensures
        line_start(lines, i + 1) == line_start(lines, i) + lines[i].len() + 1,
{
    assert(lines.take(i + 1).drop_last() =~= lines.take(i));
    assert(lines.take(i + 1).last() == lines[i]);
}

/// The layout of lines joined by newlines: the text is exactly as long as
/// the lines plus one newline between each two; line `i` stands, unchanged,
/// at `line_start(lines, i)`; and a newline follows every line but the last.
/// No text is empty of lines but the empty one.
pub proof fn lemma_joined_lines_layout(lines: Seq<Seq<char>>)
    ensures
        lines.len() == 0 ==> join_lines(lines).len() == 0,
        lines.len() > 0 ==> join_lines(lines).len() == total_length(lines) + lines.len() - 1,
        lines.len() > 0 ==> line_start(lines, lines.len() - 1) + lines.last().len() == join_lines(
            lines,
        ).len(),
        forall|i: int|
            0 <= i < lines.len() ==> #[trigger] line_start(lines, i) + lines[i].len() <= join_lines(
                lines,
            ).len(),
        forall|i: int|
            0 <= i < lines.len() ==> #[trigger] join_lines(lines).subrange(
                line_start(lines, i),
                line_start(lines, i) + lines[i].len(),
            ) == lines[i],
        forall|i: int|
            0 <= i < lines.len() - 1 ==> #[trigger] join_lines(lines)[line_start(lines, i)
                + lines[i].len()] == '\n',
    decreases lines.len(),
{
    let n = lines.len();
    let text = join_lines(lines);
    if n == 1 {
        assert(lines.take(0) =~= Seq::<Seq<char>>::empty());
        assert(line_start(lines, 0) == 0);
        assert(lines.drop_last() =~= Seq::<Seq<char>>::empty());
        assert(total_length(lines) == lines[0].len());
        assert(text == lines[0]);
        assert(text.subrange(0, lines[0].len() as int) =~= lines[0]);
        assert forall|i: int| 0 <= i < lines.len() implies #[trigger] line_start(lines, i)
            + lines[i].len() <= text.len() by {
            assert(i == 0);
        }
        assert forall|i: int| 0 <= i < lines.len() implies #[trigger] text.subrange(
            line_start(lines, i),
            line_start(lines, i) + lines[i].len(),
        ) == lines[i] by {
            assert(i == 0);
        }
    } else if n > 1 {
        let prev = lines.drop_last();
        let head = join_lines(prev);
        let last = lines.last();
        lemma_joined_lines_layout(prev);
        assert(text == head + seq!['\n'] + last);
        assert(lines.take(n - 1) =~= prev);
        assert forall|i: int| 0 <= i < n - 1 implies line_start(lines, i) == line_start(prev, i) by {
            assert(lines.take(i) =~= prev.take(i));
        }
        assert(line_start(lines, n - 1) == head.len() + 1);
        assert forall|i: int| 0 <= i < lines.len() implies #[trigger] line_start(lines, i)
            + lines[i].len() <= text.len() by {
            if i < n - 1 {
                assert(prev[i] == lines[i]);
                assert(line_start(prev, i) + prev[i].len() <= head.len());
            }
        }
        assert forall|i: int|
            0 <= i < lines.len() implies #[trigger] text.subrange(
            line_start(lines, i),
            line_start(lines, i) + lines[i].len(),
        ) == lines[i] by {
            if i < n - 1 {
                assert(prev[i] == lines[i]);
                assert(head.subrange(line_start(prev, i), line_start(prev, i) + prev[i].len())
                    == prev[i]);
                assert(line_start(prev, i) + prev[i].len() <= head.len());
                assert(text.subrange(line_start(lines, i), line_start(lines, i) + lines[i].len())
                    =~= head.subrange(line_start(prev, i), line_start(prev, i) + prev[i].len()));
            } else {
                assert(text.subrange(head.len() as int + 1, text.len() as int) =~= last);
            }
        }
        assert forall|i: int| 0 <= i < lines.len() - 1 implies #[trigger] text[line_start(lines, i)
            + lines[i].len()] == '\n' by {
            assert(prev[i] == lines[i]);
            if i < n - 2 {
                lemma_line_start_step(prev, i);
                assert(line_start(prev, i + 1) + prev[i + 1].len() <= head.len());
                assert(head[line_start(prev, i) + prev[i].len()] == '\n');
                assert(text[line_start(lines, i) + lines[i].len()] == head[line_start(prev, i)
                    + prev[i].len()]);
            } else {
                assert(line_start(prev, n - 2) + prev.last().len() == head.len());
            }
        }
    } else {
        assert(text.len() == 0);
    }
}

/// Adding a line to a non-empty list of lines adds a newline and that line
/// to the joined text, and nothing else: the text of the longer list is the
/// text of the shorter one, `\n`, then the new line.
pub proof fn lemma_join_lines_push(lines: Seq<Seq<char>>, line: Seq<char>)
    requires
        lines.len() > 0,
    ensures
        join_lines(lines.push(line)) == join_lines(lines) + seq!['\n'] + line,
{
    assert(lines.push(line).drop_last() =~= lines);
}

/// How many times `c` occurs in `s`.
pub open spec fn count_char(s: Seq<char>, c: char) -> nat
    decreases s.len(),
{
    if s.len() == 0 {
        0
    } else {
        count_char(s.drop_last(), c) + if s.last() == c {
            1nat
        } else {
            0nat
        }
    }
}

proof fn lemma_count_char_append(a: Seq<char>, b: Seq<char>, c: char)
    ensures
        count_char(a + b, c) == count_char(a, c) + count_char(b, c),
    decreases b.len(),
{
    if b.len() > 0 {
        assert((a + b).drop_last() =~= a + b.drop_last());
        lemma_count_char_append(a, b.drop_last(), c);
    } else {
        assert(a + b =~= a);
    }
}

proof fn lemma_count_char_absent(s: Seq<char>, c: char)
    requires
        !s.contains(c),
    ensures
        count_char(s, c) == 0,
    decreases s.len(),
{
    if s.len() > 0 {
        assert(s.last() == s[s.len() - 1]);
        assert(!s.drop_last().contains(c)) by {
            if s.drop_last().contains(c) {
                let k = choose|k: int| 0 <= k < s.drop_last().len() && s.drop_last()[k] == c;
                assert(s[k] == c);
            }
        }
        lemma_count_char_absent(s.drop_last(), c);
    }
}

/// Lines without newlines can be told apart again in their joined text:
/// its only newlines are the separators, one between each two lines.
pub proof fn lemma_join_lines_newline_count(lines: Seq<Seq<char>>)
    requires
        lines.len() > 0,
        forall|i: int| 0 <= i < lines.len() ==> !(#[trigger] lines[i]).contains('\n'),
    ensures
        count_char(join_lines(lines), '\n') == lines.len() - 1,
    decreases lines.len(),
{
    if lines.len() == 1 {
        lemma_count_char_absent(lines[0], '\n');
    } else {
        let prev = lines.drop_last();
        assert forall|i: int| 0 <= i < prev.len() implies !(#[trigger] prev[i]).contains('\n') by {
            assert(prev[i] == lines[i]);
        }
        lemma_join_lines_newline_count(prev);
        lemma_count_char_absent(lines.last(), '\n');
        lemma_count_char_append(join_lines(prev), seq!['\n'], '\n');
        lemma_count_char_append(join_lines(prev) + seq!['\n'], lines.last(), '\n');
        assert(seq!['\n'].drop_last() =~= Seq::<char>::empty());
        assert(count_char(Seq::<char>::empty(), '\n') == 0);
        assert(count_char(seq!['\n'], '\n') == 1);
        assert(join_lines(lines) == join_lines(prev) + seq!['\n'] + lines.last());
    }
}

/// Appends one character to a string (std's `String::push`).
#[verifier::external_body]
pub(crate) fn push_char(s: &mut String, c: char)
    ensures
        final(s)@ == old(s)@.push(c),
{
    s.push(c);
}

/// Compares two string slices for equality (std's `<str as PartialEq>::eq`).
#[verifier::external_body]
pub(crate) fn str_equal(a: &str, b: &str) -> (r: bool)
    ensures
        r == (a@ == b@),
{
    a == b
}

/// Copies a string slice into a new `String`.
pub(crate) fn owned(s: &str) -> (r: String)
    ensures
        r@ == s@,
{
    s.to_owned()
}

/// The concatenation of two string slices.
pub(crate) fn concat2(a: &str, b: &str) -> (r: String)
    ensures
        r@ == a@ + b@,
{
    let mut r = owned(a);
    r.append(b);
    r
}

/// The concatenation of three string slices.
pub(crate) fn concat3(a: &str, b: &str, c: &str) -> (r: String)
    ensures
        r@ == a@ + b@ + c@,
{
    let mut r = owned(a);
    r.append(b);
    r.append(c);
    r
}

/// The concatenation of four string slices.
pub(crate) fn concat4(a: &str, b: &str, c: &str, d: &str) -> (r: String)
    ensures
        r@ == a@ + b@ + c@ + d@,
{
    let mut r = owned(a);
    r.append(b);
    r.append(c);
    r.append(d);
    r
}

proof fn lemma_trim_end_prefix(s: Seq<char>, c: char, e: int)
    requires
        0 <= e <= s.len(),
        forall|k: int| e <= k < s.len() ==> s[k] == c,
    ensures
        trim_end_char(s, c) == trim_end_char(s.subrange(0, e), c),
    decreases s.len() - e,
{
    if e < s.len() {
        assert(s.drop_last() =~= s.subrange(0, s.len() - 1));
        lemma_trim_end_prefix(s.drop_last(), c, e);
        assert(s.drop_last().subrange(0, e) =~= s.subrange(0, e));
        assert(s.last() == c);
    } else {
        assert(s.subrange(0, e) =~= s);
    }
}

proof fn lemma_trim_start_suffix(s: Seq<char>, c: char, b: int)
    requires
        0 <= b <= s.len(),
        forall|k: int| 0 <= k < b ==> s[k] == c,
    ensures
        trim_start_char(s, c) == trim_start_char(s.subrange(b, s.len() as int), c),
    decreases b,
{
    if b > 0 {
        lemma_trim_start_suffix(s.drop_first(), c, b - 1);
        assert(s.drop_first().subrange(b - 1, s.drop_first().len() as int)
            =~= s.subrange(b, s.len() as int));
    } else {
        assert(s.subrange(0, s.len() as int) =~= s);
    }
}

/// Removes every trailing `c` from `s`.
pub fn trim_end_matching(s: &str, c: char) -> (r: String)
    ensures
        r@ == trim_end_char(s@, c),
{
    let n: usize = s.unicode_len();
    let mut e: usize = n;
    while e > 0 && s.get_char(e - 1) == c
        invariant
            n == s@.len(),
            e <= n,
            forall|k: int| e <= k < n ==> s@[k] == c,
        decreases e,
    {
        e = e - 1;
    }
    proof {
        lemma_trim_end_prefix(s@, c, e as int);
        let p = s@.subrange(0, e as int);
        if e > 0 {
            assert(p.last() == s@[e - 1]);
        }
    }
    owned(s.substring_char(0, e))
}

/// Removes every leading `c` from `s`.
pub fn trim_start_matching(s: &str, c: char) -> (r: String)
    ensures
        r@ == trim_start_char(s@, c),
{
    let n: usize = s.unicode_len();
    let mut b: usize = 0;
    while b < n && s.get_char(b) == c
        invariant
            n == s@.len(),
            b <= n,
            forall|k: int| 0 <= k < b ==> s@[k] == c,
        decreases n - b,
    {
        b = b + 1;
    }
    proof {
        lemma_trim_start_suffix(s@, c, b as int);
        let p = s@.subrange(b as int, n as int);
        if b < n {
            assert(p[0] == s@[b as int]);
        }
    }
    owned(s.substring_char(b, n))
}

/// Removes every leading and trailing `c` from `s`.
pub fn trim_matching(s: &str, c: char) -> (r: String)
    ensures
        r@ == trim_both_char(s@, c),
{
    let end_trimmed = trim_end_matching(s, c);
    trim_start_matching(end_trimmed.as_str(), c)
}

} // verus!
