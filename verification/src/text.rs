//! Text: decimal numbers, line endings, and the text of raw bytes.

use vstd::prelude::*;
use vstd::string::*;
use vstd::utf8::*;

verus! {

/// The decimal digits of `n`, most significant first.
pub open spec fn decimal(n: nat) -> Seq<char>
    decreases n,
{
    if n < 10 {
        seq![digit(n)]
    } else {
        decimal(n / 10).push(digit(n % 10))
    }
}

/// The character of one decimal digit.
pub open spec fn digit(d: nat) -> char {
    ('0' as nat + d) as char
}

/// `text` with every `\r\n` replaced by `\n`.
pub open spec fn unix_newlines(text: Seq<char>) -> Seq<char>
    decreases text.len(),
{
    if text.len() == 0 {
        text
    } else if text.len() > 1 && text[0] == '\r' && text[1] == '\n' {
        seq!['\n'] + unix_newlines(text.skip(2))
    } else {
        seq![text[0]] + unix_newlines(text.skip(1))
    }
}

/// `text` with a final `\n`, unless it has one or is empty.
pub open spec fn terminated(text: Seq<char>) -> Seq<char> {
    if text.len() == 0 || text.last() == '\n' {
        text
    } else {
        text.push('\n')
    }
}

/// `text` as lines that each end in a single `\n`.
pub open spec fn normalised(text: Seq<char>) -> Seq<char> {
    terminated(unix_newlines(text))
}

/// The text that `String::from_utf8_lossy` gives for `bytes`.
pub uninterp spec fn lossy_text(bytes: Seq<u8>) -> Seq<char>;

/// Calls `String::from_utf8_lossy`. Its result depends on the bytes alone; on
/// valid UTF-8 it is the text that the bytes encode. An invalid sequence is
/// replaced, never dropped, so some bytes always give some text; what it is
/// replaced by is not stated.
#[verifier::external_body]
pub(crate) fn text_from_bytes(bytes: &Vec<u8>) -> (text: String)
    ensures
        text@ == lossy_text(bytes@),
        valid_utf8(bytes@) ==> text@ == decode_utf8(bytes@),
        bytes@.len() > 0 ==> text@.len() > 0,
{
    String::from_utf8_lossy(bytes).into_owned()
}

/// `String::push` appends the character to the end of the string.
pub assume_specification[ String::push ](text: &mut String, c: char)
    ensures
        final(text)@ == old(text)@.push(c),
;

/// Appends `n` in decimal to `text`.
pub fn append_decimal(text: &mut String, n: u32)
    ensures
        final(text)@ == old(text)@ + decimal(n as nat),
    decreases n,
{
    if n >= 10 {
        append_decimal(text, n / 10);
    }
    let d: u32 = n % 10;
    let c: char = if d == 0 {
        '0'
    } else if d == 1 {
        '1'
    } else if d == 2 {
        '2'
    } else if d == 3 {
        '3'
    } else if d == 4 {
        '4'
    } else if d == 5 {
        '5'
    } else if d == 6 {
        '6'
    } else if d == 7 {
        '7'
    } else if d == 8 {
        '8'
    } else {
        '9'
    };
    assert(c == digit(d as nat));
    text.push(c);
    assert(text@ =~= old(text)@ + decimal(n as nat));
}

/// Normalises line endings: every `\r\n` becomes `\n`, and a last line without
/// an ending gets one.
pub fn normalise(text: &str) -> (out: String)
    ensures
        out@ == normalised(text@),
{
    let mut chars: Vec<char> = Vec::new();
    for c in iter: text.chars()
        invariant
            chars@ == text@.take(iter.index()),
            iter.seq() == text@,
    {
        chars.push(c);
    }
    assert(chars@ =~= text@);
    let mut out = String::new();
    let mut i: usize = 0;
    assert(text@.skip(0) =~= text@);
    while i < chars.len()
        invariant
            i <= chars.len(),
            chars@ == text@,
            out@ + unix_newlines(text@.skip(i as int)) == unix_newlines(text@),
            i > 0 ==> out@.len() > 0 && out@.last() == text@[i - 1],
            i == 0 ==> out@.len() == 0,
        decreases chars.len() - i,
    {
        let ghost rest = text@.skip(i as int);
        if chars[i] == '\r' && i + 1 < chars.len() && chars[i + 1] == '\n' {
            out.push('\n');
            assert(rest.skip(2) =~= text@.skip(i + 2));
            i = i + 2;
        } else {
            out.push(chars[i]);
            assert(rest.skip(1) =~= text@.skip(i + 1));
            i = i + 1;
        }
        assert(out@ + unix_newlines(text@.skip(i as int)) =~= unix_newlines(text@));
    }
    assert(out@ =~= unix_newlines(text@));
    if chars.len() > 0 && chars[chars.len() - 1] != '\n' {
        out.push('\n');
    }
    out
}

/// How many characters of `text` come before its first `\n`.
pub open spec fn line_length(text: Seq<char>) -> nat
    decreases text.len(),
{
    if text.len() == 0 || text[0] == '\n' {
        0
    } else {
        1 + line_length(text.skip(1))
    }
}

/// `line` without the `\r` that it ends in, if it ends in one.
pub open spec fn without_return(line: Seq<char>) -> Seq<char> {
    if line.len() > 0 && line.last() == '\r' {
        line.drop_last()
    } else {
        line
    }
}

/// The lines of `text`, without their endings. A line ends in `\n` or `\r\n`;
/// the last one may have no ending, and then keeps a final `\r`.
pub open spec fn lines(text: Seq<char>) -> Seq<Seq<char>>
    decreases text.len(),
{
    let length = line_length(text) as int;
    if text.len() == 0 {
        Seq::empty()
    } else if length >= text.len() {
        seq![text]
    } else {
        seq![without_return(text.take(length))] + lines(text.skip(length + 1))
    }
}

/// The given lines, each followed by `\n`.
pub open spec fn joined(lines: Seq<Seq<char>>) -> Seq<char>
    decreases lines.len(),
{
    if lines.len() == 0 {
        Seq::empty()
    } else {
        lines[0].push('\n') + joined(lines.skip(1))
    }
}

/// `text` with every `\n` replaced by `\r\n`.
pub open spec fn dos_newlines(text: Seq<char>) -> Seq<char>
    decreases text.len(),
{
    if text.len() == 0 {
        text
    } else if text[0] == '\n' {
        seq!['\r', '\n'] + dos_newlines(text.skip(1))
    } else {
        seq![text[0]] + dos_newlines(text.skip(1))
    }
}

/// No `\n` of `text` comes directly after a `\r`.
pub open spec fn only_unix_newlines(text: Seq<char>) -> bool {
    forall|i: int| 0 < i < text.len() && #[trigger] text[i] == '\n' ==> text[i - 1] != '\r'
}

proof fn lemma_line_length(text: Seq<char>)
    ensures
        line_length(text) <= text.len(),
        line_length(text) < text.len() ==> text[line_length(text) as int] == '\n',
    decreases text.len(),
{
    if text.len() > 0 && text[0] != '\n' {
        lemma_line_length(text.skip(1));
    }
}

/// Replacing the line endings of a text is replacing that of its first line,
/// and those of the rest.
proof fn lemma_first_line(text: Seq<char>)
    ensures
        line_length(text) == text.len() ==> unix_newlines(text) == text,
        line_length(text) < text.len() ==> unix_newlines(text) == without_return(
            text.take(line_length(text) as int),
        ).push('\n') + unix_newlines(text.skip(line_length(text) as int + 1)),
    decreases text.len(),
{
    lemma_line_length(text);
    if text.len() > 0 {
        let rest = text.skip(1);
        let length = line_length(text) as int;
        lemma_line_length(rest);
        if text[0] == '\n' {
            assert(text.take(0) =~= Seq::<char>::empty());
            assert(unix_newlines(text) =~= without_return(text.take(0)).push('\n')
                + unix_newlines(text.skip(1)));
        } else {
            lemma_first_line(rest);
            if length == text.len() {
                assert(seq![text[0]] + rest =~= text);
            } else {
                assert(rest.skip(length) =~= text.skip(length + 1));
                if text.len() > 1 && text[0] == '\r' && text[1] == '\n' {
                    assert(line_length(rest) == 0);
                    assert(text.take(1) =~= seq!['\r']);
                    assert(without_return(text.take(1)) =~= Seq::<char>::empty());
                    assert(unix_newlines(text) =~= without_return(text.take(length)).push('\n')
                        + unix_newlines(text.skip(length + 1)));
                } else {
                    assert(text.take(length) =~= seq![text[0]] + rest.take(length - 1));
                    assert(without_return(text.take(length)) =~= seq![text[0]] + without_return(
                        rest.take(length - 1),
                    ));
                    assert(unix_newlines(text) =~= without_return(text.take(length)).push('\n')
                        + unix_newlines(text.skip(length + 1)));
                }
            }
        }
    }
}

/// Normalising a text is taking its lines and ending each of them in `\n`.
pub proof fn normalised_is_joined_lines(text: Seq<char>)
    ensures
        normalised(text) == joined(lines(text)),
    decreases text.len(),
{
    lemma_line_length(text);
    lemma_first_line(text);
    let length = line_length(text) as int;
    if text.len() == 0 {
    } else if length == text.len() {
        assert forall|i: int| 0 <= i < text.len() implies text[i] != '\n' by {
            lemma_no_newline_before(text, i);
        }
        assert(lines(text) =~= seq![text]);
        assert(joined(seq![text]) =~= text.push('\n')) by {
            assert(seq![text].skip(1) =~= Seq::<Seq<char>>::empty());
            assert(joined(seq![text].skip(1)) =~= Seq::<char>::empty());
        }
    } else {
        let rest = text.skip(length + 1);
        normalised_is_joined_lines(rest);
        assert(lines(text).skip(1) =~= lines(rest));
        assert(normalised(text) =~= joined(lines(text)));
    }
}

proof fn lemma_no_newline_before(text: Seq<char>, i: int)
    requires
        0 <= i < line_length(text),
    ensures
        i < text.len(),
        text[i] != '\n',
    decreases text.len(),
{
    if i > 0 {
        lemma_no_newline_before(text.skip(1), i - 1);
    }
}

/// Normalised text is empty, or ends in `\n`; it is empty only for the empty
/// text.
pub proof fn normalised_is_terminated(text: Seq<char>)
    ensures
        (normalised(text).len() == 0) == (text.len() == 0),
        text.len() > 0 ==> normalised(text).last() == '\n',
{
}

/// Text whose line endings are all `\n`, the last line's included, is left as
/// it is.
pub proof fn normalised_keeps_unix_text(text: Seq<char>)
    requires
        only_unix_newlines(text),
        text.len() > 0 ==> text.last() == '\n',
    ensures
        normalised(text) == text,
{
    lemma_unix_newlines_keep(text);
}

proof fn lemma_unix_newlines_keep(text: Seq<char>)
    requires
        only_unix_newlines(text),
    ensures
        unix_newlines(text) == text,
    decreases text.len(),
{
    if text.len() > 0 {
        let rest = text.skip(1);
        assert forall|i: int| 0 < i < rest.len() && #[trigger] rest[i] == '\n' implies rest[i - 1]
            != '\r' by {
            assert(text[i + 1] == '\n');
        }
        lemma_unix_newlines_keep(rest);
        assert(unix_newlines(text) =~= text);
    }
}

/// A text reads the same whether its lines were sent with `\n` or with
/// `\r\n` endings.
pub proof fn normalised_ignores_dos_newlines(text: Seq<char>)
    requires
        only_unix_newlines(text),
    ensures
        normalised(dos_newlines(text)) == normalised(text),
{
    lemma_unix_newlines_keep(text);
    lemma_unix_newlines_undo_dos(text);
}

proof fn lemma_unix_newlines_undo_dos(text: Seq<char>)
    requires
        only_unix_newlines(text),
    ensures
        unix_newlines(dos_newlines(text)) == text,
    decreases text.len(),
{
    if text.len() > 0 {
        let rest = text.skip(1);
        assert forall|i: int| 0 < i < rest.len() && #[trigger] rest[i] == '\n' implies rest[i - 1]
            != '\r' by {
            assert(text[i + 1] == '\n');
        }
        lemma_unix_newlines_undo_dos(rest);
        let dos = dos_newlines(text);
        if text[0] == '\n' {
            assert(dos.skip(2) =~= dos_newlines(rest));
        } else {
            assert(dos.skip(1) =~= dos_newlines(rest));
        }
        assert(unix_newlines(dos) =~= text);
    }
}

/// The number that a sequence of decimal digits stands for.
pub open spec fn decimal_value(digits: Seq<char>) -> int
    decreases digits.len(),
{
    if digits.len() == 0 {
        0
    } else {
        decimal_value(digits.drop_last()) * 10 + (digits.last() as int - '0' as int)
    }
}

/// The decimal form of a number consists of digits, reads back as that number,
/// and has no leading zero, but for zero itself.
pub proof fn decimal_reads_back(n: nat)
    ensures
        decimal_value(decimal(n)) == n,
        forall|i: int| 0 <= i < decimal(n).len() ==> '0' <= #[trigger] decimal(n)[i] <= '9',
        decimal(n).len() > 0,
        decimal(n)[0] == '0' ==> n == 0 && decimal(n).len() == 1,
    decreases n,
{
    reveal_with_fuel(decimal_value, 2);
    if n < 10 {
        assert(decimal(n).drop_last() =~= Seq::<char>::empty());
    } else {
        decimal_reads_back(n / 10);
        assert(decimal(n).drop_last() =~= decimal(n / 10));
        assert(decimal(n)[0] == decimal(n / 10)[0]);
    }
}

/// Normalisation, line by line. A line that ends in `\r\n` ends in `\n`
/// afterwards; one that ends in `\n` alone is kept as it is; in both cases the
/// rest is normalised on its own. A last line without an ending gets `\n`, and
/// keeps all its characters. Nothing stays nothing.
pub proof fn normalised_line_by_line(line: Seq<char>, rest: Seq<char>)
    requires
        forall|i: int| 0 <= i < line.len() ==> line[i] != '\n',
    ensures
        normalised(line + seq!['\r', '\n'] + rest) == line + seq!['\n'] + normalised(rest),
        (line.len() == 0 || line.last() != '\r') ==> normalised(line + seq!['\n'] + rest) == line
            + seq!['\n'] + normalised(rest),
        line.len() > 0 ==> normalised(line) == line + seq!['\n'],
        normalised(Seq::<char>::empty()) == Seq::<char>::empty(),
{
    let dos = line + seq!['\r', '\n'] + rest;
    lemma_line_before_newline(line.push('\r'), rest);
    assert(dos =~= line.push('\r').push('\n') + rest);
    assert(without_return(line.push('\r')) =~= line);
    assert(normalised(dos) =~= line + seq!['\n'] + normalised(rest));
    let unix = line + seq!['\n'] + rest;
    lemma_line_before_newline(line, rest);
    assert(unix =~= line.push('\n') + rest);
    if line.len() == 0 || line.last() != '\r' {
        assert(normalised(unix) =~= line + seq!['\n'] + normalised(rest));
    }
    lemma_unix_newlines_keep(line);
    assert(line.len() > 0 ==> normalised(line) =~= line + seq!['\n']);
}

proof fn lemma_line_before_newline(line: Seq<char>, rest: Seq<char>)
    requires
        forall|i: int| 0 <= i < line.len() ==> line[i] != '\n',
    ensures
        unix_newlines(line.push('\n') + rest) == without_return(line).push('\n') + unix_newlines(
            rest,
        ),
{
    let text = line.push('\n') + rest;
    lemma_line_length_is(line, rest);
    lemma_first_line(text);
    assert(text.take(line.len() as int) =~= line);
    assert(text.skip(line.len() as int + 1) =~= rest);
}

proof fn lemma_line_length_is(line: Seq<char>, rest: Seq<char>)
    requires
        forall|i: int| 0 <= i < line.len() ==> line[i] != '\n',
    ensures
        line_length(line.push('\n') + rest) == line.len(),
    decreases line.len(),
{
    let text = line.push('\n') + rest;
    if line.len() > 0 {
        assert(text.skip(1) =~= line.skip(1).push('\n') + rest);
        assert(text[0] == line[0]);
        lemma_line_length_is(line.skip(1), rest);
    }
}

} // verus!
