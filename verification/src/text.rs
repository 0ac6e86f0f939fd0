//! Text as sequences of characters: splitting a text into lines and joining
//! lines back into a text.

use vstd::prelude::*;

verus! {

/// `String::push` of the standard library. Believed without proof: it
/// appends `ch` to the end of the string and changes nothing else.
pub assume_specification[ String::push ](s: &mut String, ch: char)
    ensures
        final(s)@ == old(s)@.push(ch),
;

/// The separator between two lines of a text.
pub open spec fn newline() -> Seq<char> {
    seq!['\n']
}

/// Index of the first `'\n'` of `text`, or `text.len()` where it has none.
pub open spec fn first_newline(text: Seq<char>) -> int
    decreases text.len(),
{
    if text.len() == 0 || text[0] == '\n' {
        0
    } else {
        1 + first_newline(text.skip(1))
    }
}

/// `line` without the carriage return that ends it, if one does.
pub open spec fn strip_carriage_return(line: Seq<char>) -> Seq<char> {
    if line.len() > 0 && line.last() == '\r' {
        line.drop_last()
    } else {
        line
    }
}

/// The lines of `text`. A line ends at a `'\n'`, or at the end of the text
/// for a last line that is not empty; the `'\n'` and a `'\r'` right before
/// it are not part of the line. The empty text has no lines.
pub open spec fn spec_lines(text: Seq<char>) -> Seq<Seq<char>>
    decreases text.len(),
{
    if text.len() == 0 {
        Seq::empty()
    } else {
        let k = first_newline(text);
        if 0 <= k < text.len() {
            seq![strip_carriage_return(text.take(k))] + spec_lines(text.skip(k + 1))
        } else {
            seq![text]
        }
    }
}

/// `parts` written one after the other with `separator` between each two.
pub open spec fn spec_join(parts: Seq<Seq<char>>, separator: Seq<char>) -> Seq<char>
    decreases parts.len(),
{
    if parts.len() == 0 {
        Seq::empty()
    } else if parts.len() == 1 {
        parts[0]
    } else {
        spec_join(parts.drop_last(), separator) + separator + parts.last()
    }
}

/// `text` without the newline that ends it, if one does.
pub open spec fn without_final_newline(text: Seq<char>) -> Seq<char> {
    if text.len() > 0 && text.last() == '\n' {
        text.drop_last()
    } else {
        text
    }
}

/// No newline of `text` has a carriage return right before it.
pub open spec fn no_carriage_return_before_newline(text: Seq<char>) -> bool {
    forall|i: int| 0 < i < text.len() && #[trigger] text[i] == '\n' ==> text[i - 1] != '\r'
}

/// The characters of `text`, in order.
fn chars_of(text: &str) -> (chars: Vec<char>)
    ensures
        chars@ == text@,
{
    let mut chars: Vec<char> = Vec::new();
    for c in it: text.chars()
        invariant
            chars@ == it.seq().take(it.index() as int),
            it.seq() == text@,
    {
        chars.push(c);
    }
    chars
}

/// The string made of `chars[from..to]`.
fn string_of(chars: &Vec<char>, from: usize, to: usize) -> (s: String)
    requires
        from <= to <= chars.len(),
    ensures
        s@ == chars@.subrange(from as int, to as int),
{
    let mut s = String::new();
    let mut i: usize = from;
    while i < to
        invariant
            from <= i <= to <= chars.len(),
            s@ == chars@.subrange(from as int, i as int),
        decreases to - i,
    {
        s.push(chars[i]);
        i += 1;
    }
    s
}

/// `first_newline` is within the text, nothing before it is a newline, and
/// it is a newline unless it is the end of the text.
pub proof fn lemma_first_newline(text: Seq<char>)
    ensures
        0 <= first_newline(text) <= text.len(),
        forall|j: int| 0 <= j < first_newline(text) ==> text[j] != '\n',
        first_newline(text) < text.len() ==> text[first_newline(text)] == '\n',
    decreases text.len(),
{
    if text.len() == 0 || text[0] == '\n' {
    } else {
        let rest = text.skip(1);
        lemma_first_newline(rest);
        assert forall|j: int| 0 <= j < first_newline(text) implies text[j] != '\n' by {
            if j > 0 {
                assert(text[j] == rest[j - 1]);
            }
        }
    }
}

/// An index with the properties of `first_newline` is `first_newline`.
pub proof fn lemma_first_newline_is(text: Seq<char>, k: int)
    requires
        0 <= k <= text.len(),
        forall|j: int| 0 <= j < k ==> text[j] != '\n',
        k < text.len() ==> text[k] == '\n',
    ensures
        first_newline(text) == k,
{
    lemma_first_newline(text);
}

/// Splits `text` into its lines.
pub fn split_lines(text: &str) -> (lines: Vec<String>)
    ensures
        lines.deep_view() == spec_lines(text@),
{
    let chars = chars_of(text);
    let n = chars.len();
    let mut lines: Vec<String> = Vec::new();
    let mut start: usize = 0;
    assert(chars@.skip(0) == chars@);
    while start < n
        invariant
            start <= n == chars.len(),
            chars@ == text@,
            spec_lines(text@) == lines.deep_view() + spec_lines(chars@.skip(start as int)),
        decreases n - start,
    {
        let ghost rest = chars@.skip(start as int);
        let mut end = start;
        while end < n && chars[end] != '\n'
            invariant
                start <= end <= n == chars.len(),
                forall|j: int| start <= j < end ==> chars@[j] != '\n',
            decreases n - end,
        {
            end += 1;
        }
        proof {
            lemma_first_newline_is(rest, end - start);
        }
        if end < n {
            let stop = if end > start && chars[end - 1] == '\r' {
                end - 1
            } else {
                end
            };
            let line = string_of(&chars, start, stop);
            assert(line@ == strip_carriage_return(rest.take(end - start)));
            lines.push(line);
            assert(rest.skip(end - start + 1) == chars@.skip(end + 1));
            start = end + 1;
        } else {
            let line = string_of(&chars, start, end);
            lines.push(line);
            start = end;
        }
    }
    lines
}

/// Joins `lines` into one text, with a single `'\n'` between each two.
pub fn join_lines(lines: &[String]) -> (text: String)
    ensures
        text@ == spec_join(lines.deep_view(), newline()),
{
    let mut text = String::new();
    let mut i: usize = 0;
    while i < lines.len()
        invariant
            i <= lines.len(),
            text@ == spec_join(lines.deep_view().take(i as int), newline()),
        decreases lines.len() - i,
    {
        let ghost before = lines.deep_view().take(i as int);
        let ghost after = lines.deep_view().take(i + 1);
        assert(after.drop_last() == before);
        if i > 0 {
            proof {
                reveal_strlit("\n");
            }
            text.append("\n");
        }
        text.append(lines[i].as_str());
        i += 1;
    }
    assert(lines.deep_view().take(i as int) == lines.deep_view());
    text
}

/// Joining a first part and at least one more part puts the separator
/// between the first part and the join of the others.
pub proof fn lemma_join_prepend(first: Seq<char>, rest: Seq<Seq<char>>, separator: Seq<char>)
    requires
        rest.len() > 0,
    ensures
        spec_join(seq![first] + rest, separator) == first + separator + spec_join(rest, separator),
    decreases rest.len(),
{
    let all = seq![first] + rest;
    assert(spec_join(all, separator) == spec_join(all.drop_last(), separator) + separator
        + rest.last());
    if rest.len() > 1 {
        lemma_join_prepend(first, rest.drop_last(), separator);
        assert(all.drop_last() == seq![first] + rest.drop_last());
        let inner = spec_join(rest.drop_last(), separator);
        assert((first + separator + inner) + separator + rest.last() == first + separator + (inner
            + separator + rest.last()));
    }
}

/// A text that has a newline is its first line, a newline, and the rest.
proof fn lemma_split_at_first_newline(text: Seq<char>)
    requires
        first_newline(text) < text.len(),
    ensures
        text == text.take(first_newline(text)) + newline() + text.skip(first_newline(text) + 1),
        spec_lines(text) == seq![strip_carriage_return(text.take(first_newline(text)))]
            + spec_lines(text.skip(first_newline(text) + 1)),
{
    lemma_first_newline(text);
}

/// Splitting a text into lines and joining the lines gives the text back,
/// but for one final newline, provided that no line of the text ended in a
/// carriage return and a newline.
pub proof fn lemma_join_of_lines(text: Seq<char>)
    requires
        no_carriage_return_before_newline(text),
    ensures
        spec_join(spec_lines(text), newline()) == without_final_newline(text),
    decreases text.len(),
{
    if text.len() > 0 {
        lemma_first_newline(text);
        let k = first_newline(text);
        if k < text.len() {
            let head = text.take(k);
            let rest = text.skip(k + 1);
            lemma_split_at_first_newline(text);
            assert(strip_carriage_return(head) == head);
            assert(no_carriage_return_before_newline(rest)) by {
                assert forall|i: int| 0 < i < rest.len() && #[trigger] rest[i] == '\n' implies rest[i
                    - 1] != '\r' by {
                    assert(text[i + k + 1] == '\n');
                }
            }
            lemma_join_of_lines(rest);
            if rest.len() > 0 {
                lemma_join_prepend(head, spec_lines(rest), newline());
            }
        }
    }
}

} // verus!
