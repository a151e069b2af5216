use vstd::prelude::*;

verus! {

/// The characters of `s`, in order.
pub fn chars_of(s: &str) -> (chars: Vec<char>)
    ensures
        chars@ == s@,
{
    let mut chars: Vec<char> = Vec::new();
    for c in it: s.chars()
        invariant
            chars@ == it.seq().take(it.index() as int),
    {
        chars.push(c);
    }
    chars
}

/// Builds a `String` from characters, with std's `FromIterator<char>` for `String`.
#[verifier::external_body]
pub(crate) fn string_from_chars(chars: &[char]) -> (s: String)
    ensures
        s@ == chars@,
{
    chars.iter().collect()
}

/// Whether `text` holds exactly the characters of `word`.
pub fn text_eq(text: &[char], word: &str) -> (equal: bool)
    ensures
        equal == (text@ == word@),
{
    let word_chars = chars_of(word);
    if text.len() != word_chars.len() {
        return false;
    }
    let mut i: usize = 0;
    while i < text.len()
        invariant
            text@.len() == word_chars@.len(),
            word_chars@ == word@,
            i <= text@.len(),
            forall|j: int| 0 <= j < i ==> text@[j] == word_chars@[j],
        decreases text@.len() - i,
    {
        if text[i] != word_chars[i] {
            return false;
        }
        i = i + 1;
    }
    assert(text@ =~= word@);
    true
}

// ---------------------------------------------------------------------------
// Lines

/// The state of splitting `text` at `'\n'`: the finished lines, and the
/// characters of the line still open.
pub open spec fn line_split(text: Seq<char>) -> (Seq<Seq<char>>, Seq<char>)
    decreases text.len(),
{
    if text.len() == 0 {
        (Seq::empty(), Seq::empty())
    } else {
        let (done, open) = line_split(text.drop_last());
        if text.last() == '\n' {
            (done.push(strip_carriage_return(open)), Seq::empty())
        } else {
            (done, open.push(text.last()))
        }
    }
}

/// A line that ended in `"\r\n"` loses its `'\r'`.
pub open spec fn strip_carriage_return(line: Seq<char>) -> Seq<char> {
    if line.len() > 0 && line.last() == '\r' {
        line.drop_last()
    } else {
        line
    }
}

/// The lines of `text` as `str::lines` yields them: split at `'\n'` or
/// `"\r\n"`, terminators removed, a final line terminator optional.
pub open spec fn lines_of(text: Seq<char>) -> Seq<Seq<char>> {
    let (done, open) = line_split(text);
    if open.len() == 0 {
        done
    } else {
        done.push(open)
    }
}

/// Splits `text` into lines, as `str::lines` does.
pub fn split_lines(text: &[char]) -> (lines: Vec<Vec<char>>)
    ensures
        lines@.len() == lines_of(text@).len(),
        forall|i: int| 0 <= i < lines@.len() ==> #[trigger] lines@[i]@ == lines_of(text@)[i],
{
    let mut lines: Vec<Vec<char>> = Vec::new();
    let mut open: Vec<char> = Vec::new();
    let mut i: usize = 0;
    while i < text.len()
        invariant
            i <= text@.len(),
            lines@.len() == line_split(text@.take(i as int)).0.len(),
            forall|k: int| 0 <= k < lines@.len() ==> #[trigger] lines@[k]@ == line_split(text@.take(i as int)).0[k],
            open@ == line_split(text@.take(i as int)).1,
        decreases text@.len() - i,
    {
        assert(text@.take(i + 1).drop_last() =~= text@.take(i as int));
        let c = text[i];
        if c == '\n' {
            let mut finished = open;
            let n = finished.len();
            if n > 0 && finished[n - 1] == '\r' {
                finished.pop();
            }
            assert(finished@ == strip_carriage_return(line_split(text@.take(i as int)).1));
            lines.push(finished);
            open = Vec::new();
        } else {
            open.push(c);
        }
        i = i + 1;
    }
    assert(text@.take(i as int) =~= text@);
    if open.len() > 0 {
        lines.push(open);
    }
    lines
}

// ---------------------------------------------------------------------------
// Comments, separators and tokens

/// Whether `c` has the Unicode `White_Space` property, as `char::is_whitespace`
/// tests it.
pub open spec fn is_whitespace(c: char) -> bool {
    ||| c == ' '
    ||| ('\t' <= c && c <= '\r')
    ||| c == '\u{85}'
    ||| c == '\u{a0}'
    ||| c == '\u{1680}'
    ||| ('\u{2000}' <= c && c <= '\u{200a}')
    ||| c == '\u{2028}'
    ||| c == '\u{2029}'
    ||| c == '\u{202f}'
    ||| c == '\u{205f}'
    ||| c == '\u{3000}'
}

/// Exec version of `is_whitespace`.
pub fn char_is_whitespace(c: char) -> (b: bool)
    ensures
        b == is_whitespace(c),
{
    c == ' ' || ('\t' <= c && c <= '\r') || c == '\u{85}' || c == '\u{a0}' || c == '\u{1680}'
        || ('\u{2000}' <= c && c <= '\u{200a}') || c == '\u{2028}' || c == '\u{2029}'
        || c == '\u{202f}' || c == '\u{205f}' || c == '\u{3000}'
}

/// The length of the part of `line` before its first `'#'` (the whole line if
/// it has none).
pub open spec fn comment_start(line: Seq<char>) -> int {
    if exists|k: int| 0 <= k < line.len() && line[k] == '#' && (forall|j: int| 0 <= j < k ==> line[j] != '#') {
        choose|k: int| 0 <= k < line.len() && line[k] == '#' && (forall|j: int| 0 <= j < k ==> line[j] != '#')
    } else {
        line.len() as int
    }
}

/// `line` without its comment (from the first `'#'` on), with every comma
/// turned into a space.
pub open spec fn normalized(line: Seq<char>) -> Seq<char> {
    Seq::new(comment_start(line) as nat, |i: int| if line[i] == ',' { ' ' } else { line[i] })
}

/// Drops the comment of a scene line and turns commas into spaces.
pub fn normalize_input_line(raw_line: &[char]) -> (line: Vec<char>)
    ensures
        line@ == normalized(raw_line@),
{
    let mut line: Vec<char> = Vec::new();
    let mut i: usize = 0;
    while i < raw_line.len() && raw_line[i] != '#'
        invariant
            i <= raw_line@.len(),
            forall|j: int| 0 <= j < i ==> raw_line@[j] != '#',
            line@ == Seq::new(i as nat, |k: int| if raw_line@[k] == ',' { ' ' } else { raw_line@[k] }),
        decreases raw_line@.len() - i,
    {
        let c = raw_line[i];
        line.push(if c == ',' { ' ' } else { c });
        i = i + 1;
        assert(line@ =~= Seq::new(i as nat, |k: int| if raw_line@[k] == ',' { ' ' } else { raw_line@[k] }));
    }
    proof {
        if i < raw_line@.len() {
            let k = choose|k: int| 0 <= k < raw_line@.len() && raw_line@[k] == '#' && (forall|j: int| 0 <= j < k ==> raw_line@[j] != '#');
            assert(raw_line@[i as int] == '#');
            if k < i {
                assert(raw_line@[k] != '#');
            }
            if k > i {
                assert(raw_line@[i as int] != '#');
            }
            assert(comment_start(raw_line@) == i);
        } else {
            assert(comment_start(raw_line@) == i);
        }
        assert(line@ =~= normalized(raw_line@));
    }
    line
}

/// The state of splitting `s` at whitespace: the finished tokens, and the
/// characters of the token still open.
pub open spec fn token_split(s: Seq<char>) -> (Seq<Seq<char>>, Seq<char>)
    decreases s.len(),
{
    if s.len() == 0 {
        (Seq::empty(), Seq::empty())
    } else {
        let (done, open) = token_split(s.drop_last());
        if is_whitespace(s.last()) {
            if open.len() == 0 {
                (done, open)
            } else {
                (done.push(open), Seq::empty())
            }
        } else {
            (done, open.push(s.last()))
        }
    }
}

/// The maximal runs of non-whitespace characters of `s`, in order, as
/// `str::split_whitespace` yields them.
pub open spec fn tokens_of(s: Seq<char>) -> Seq<Seq<char>> {
    let (done, open) = token_split(s);
    if open.len() == 0 {
        done
    } else {
        done.push(open)
    }
}

/// Splits `line` into whitespace-separated tokens.
pub fn split_tokens(line: &[char]) -> (tokens: Vec<Vec<char>>)
    ensures
        tokens@.len() == tokens_of(line@).len(),
        forall|i: int| 0 <= i < tokens@.len() ==> #[trigger] tokens@[i]@ == tokens_of(line@)[i],
{
    let mut tokens: Vec<Vec<char>> = Vec::new();
    let mut open: Vec<char> = Vec::new();
    let mut i: usize = 0;
    while i < line.len()
        invariant
            i <= line@.len(),
            tokens@.len() == token_split(line@.take(i as int)).0.len(),
            forall|k: int| 0 <= k < tokens@.len() ==> #[trigger] tokens@[k]@ == token_split(line@.take(i as int)).0[k],
            open@ == token_split(line@.take(i as int)).1,
        decreases line@.len() - i,
    {
        assert(line@.take(i + 1).drop_last() =~= line@.take(i as int));
        let c = line[i];
        if char_is_whitespace(c) {
            if open.len() > 0 {
                tokens.push(open);
                open = Vec::new();
            }
        } else {
            open.push(c);
        }
        i = i + 1;
    }
    assert(line@.take(i as int) =~= line@);
    if open.len() > 0 {
        tokens.push(open);
    }
    tokens
}

} // verus!
