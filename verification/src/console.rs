//! The lines of an interactive session: folding the lines of one input, and
//! the separators of the log.

use vstd::prelude::*;
use vstd::utf8::encode_utf8;

verus! {

/// The width of a separator where none is given.
pub const SEPARATOR_WIDTH: usize = 100;

/// The character of a separator where none is given.
pub const SEPARATOR_MARK: &'static str = "-";

/// What a line that was read adds to the input so far, and whether another
/// line is to be read.
///
/// A line that ends with a backslash and a line break goes on: it is taken
/// without the backslash, and more is read. A line that ends with a line
/// break is the last: it is taken whole. A line without a line break, as at
/// the end of the input, is dropped, and the input ends.
pub open spec fn folded(answer: Seq<char>, line: Seq<char>) -> (Seq<char>, bool) {
    let n = line.len() as int;
    if n >= 2 && line[n - 2] == '\\' && line[n - 1] == '\n' {
        (answer + line.subrange(0, n - 2) + seq!['\n'], true)
    } else if n >= 1 && line[n - 1] == '\n' {
        (answer + line, false)
    } else {
        (answer, false)
    }
}

/// `mark` written `n` times.
pub open spec fn repeated(mark: Seq<char>, n: nat) -> Seq<char>
    decreases n,
{
    if n == 0 {
        Seq::empty()
    } else {
        repeated(mark, (n - 1) as nat) + mark
    }
}

/// The title of a log section as the separator shows it.
pub open spec fn log_title(title: Seq<char>) -> Seq<char> {
    " [LOG: "@ + title + "] "@
}

/// The separator that begins a log section: two line breaks, the marks, the
/// title, the marks again, a line break.
pub open spec fn begin_separator_of(title: Seq<char>, mark: Seq<char>, width: int) -> Seq<char> {
    let shown = log_title(title);
    let n = ((width - encode_utf8(shown).len()) / 2) as nat;
    "\n\n"@ + repeated(mark, n) + shown + repeated(mark, n) + seq!['\n']
}

/// The separator that ends a log section.
pub open spec fn end_separator_of(mark: Seq<char>, width: nat) -> Seq<char> {
    "\n\n"@ + repeated(mark, width) + seq!['\n']
}

/// Takes a line that was read to the input so far; says whether another line
/// is to be read.
pub fn fold_line(answer: &mut String, line: &str) -> (more: bool)
    ensures
        (final(answer)@, more) == folded(old(answer)@, line@),
{
    let v = crate::text::chars_of(line);
    let n = v.len();
    if n >= 2 && v[n - 2] == '\\' && v[n - 1] == '\n' {
        let kept = crate::text::string_of(&v, 0, n - 2);
        answer.append(kept.as_str());
        answer.push('\n');
        assert(answer@ =~= old(answer)@ + line@.subrange(0, n - 2) + seq!['\n']);
        true
    } else if n >= 1 && v[n - 1] == '\n' {
        answer.append(line);
        false
    } else {
        false
    }
}

/// `mark` written `n` times.
pub fn repeat_text(mark: &str, n: usize) -> (r: String)
    ensures
        r@ == repeated(mark@, n as nat),
{
    let mut out = String::new();
    let mut i: usize = 0;
    while i < n
        invariant
            i <= n,
            out@ == repeated(mark@, i as nat),
        decreases n - i,
    {
        out.append(mark);
        i = i + 1;
    }
    out
}

/// The separator that begins the log section `title`, and its width.
/// `None` exactly when the title as shown, counted in bytes, is wider than
/// the separator.
pub fn log_begin_separator(title: &str, ch: Option<&str>, len: Option<usize>) -> (r: Option<
    (String, usize),
>)
    ensures
        ({
            let width = match len {
                Some(n) => n,
                None => SEPARATOR_WIDTH,
            };
            let mark = match ch {
                Some(m) => m@,
                None => SEPARATOR_MARK@,
            };
            match r {
                Some((text, total)) => encode_utf8(log_title(title@)).len() <= width && total
                    == width && text@ == begin_separator_of(title@, mark, width as int),
                None => encode_utf8(log_title(title@)).len() > width,
            }
        }),
{
    let mut shown = String::from_str(" [LOG: ");
    shown.append(title);
    shown.append("] ");
    let total_len: usize = match len {
        Some(n) => n,
        None => SEPARATOR_WIDTH,
    };
    let shown_bytes = shown.as_str().as_bytes();
    let title_len = shown_bytes.len();
    assert(shown@ =~= log_title(title@));
    assert(title_len == encode_utf8(log_title(title@)).len());
    if title_len > total_len {
        return None;
    }
    let separator_len: usize = (total_len - title_len) / 2;
    let mark = match ch {
        Some(m) => m,
        None => SEPARATOR_MARK,
    };
    let marks = repeat_text(mark, separator_len);
    let mut separator = String::from_str("\n\n");
    separator.append(marks.as_str());
    separator.append(shown.as_str());
    separator.append(marks.as_str());
    separator.push('\n');
    assert(separator@ =~= begin_separator_of(title@, mark@, total_len as int));
    Some((separator, total_len))
}

/// The separator that ends a log section.
pub fn log_end_separator(ch: Option<&str>, len: Option<usize>) -> (r: String)
    ensures
        r@ == end_separator_of(
            match ch {
                Some(m) => m@,
                None => SEPARATOR_MARK@,
            },
            match len {
                Some(n) => n as nat,
                None => SEPARATOR_WIDTH as nat,
            },
        ),
{
    let mark = match ch {
        Some(m) => m,
        None => SEPARATOR_MARK,
    };
    let width: usize = match len {
        Some(n) => n,
        None => SEPARATOR_WIDTH,
    };
    let marks = repeat_text(mark, width);
    let mut separator = String::from_str("\n\n");
    separator.append(marks.as_str());
    separator.push('\n');
    separator
}

} // verus!
