//! Text normalization `norm-v1`.
//!
//! 1. strip a byte-order mark at the start of the document;
//! 2. turn CRLF and lone CR into LF;
//! 3. drop control characters other than `\n` and `\t`;
//! 4. trim trailing whitespace on each line.
//!
//! Unicode composition is untouched: text outside these rules passes
//! through unchanged.
use vstd::prelude::*;
use crate::text;
use crate::text::{chars_of, is_control_char, push_all, string_of, subvec, trim_end_vec};

verus! {

/// The byte-order mark.
pub open spec fn bom() -> char {
    '\u{FEFF}'
}

/// `s` without one leading byte-order mark.
pub open spec fn strip_bom(s: Seq<char>) -> Seq<char> {
    if s.len() > 0 && s[0] == bom() {
        s.drop_first()
    } else {
        s
    }
}

/// The normalizer as a left-to-right machine: `out` holds the finished
/// lines, `line` the current line, `i` the next input position.
pub open spec fn norm_from(s: Seq<char>, i: nat, out: Seq<char>, line: Seq<char>) -> Seq<char>
    decreases s.len() - i,
{
    if i >= s.len() {
        if line.len() > 0 {
            out + text::trim_end(line)
        } else {
            out
        }
    } else {
        let c = s[i as int];
        if c == '\r' {
            let j: nat = if i + 1 < s.len() && s[i + 1int] == '\n' {
                i + 2
            } else {
                i + 1
            };
            norm_from(s, j, out + text::trim_end(line).push('\n'), Seq::<char>::empty())
        } else if c == '\n' {
            norm_from(s, i + 1, out + text::trim_end(line).push('\n'), Seq::<char>::empty())
        } else if c == '\t' {
            norm_from(s, i + 1, out, line.push('\t'))
        } else if text::is_control(c) {
            norm_from(s, i + 1, out, line)
        } else {
            norm_from(s, i + 1, out, line.push(c))
        }
    }
}

/// norm-v1 applied to a whole document.
pub open spec fn normalized(input: Seq<char>) -> Seq<char> {
    norm_from(strip_bom(input), 0, Seq::<char>::empty(), Seq::<char>::empty())
}

/// A character that may appear inside a normalized line.
pub open spec fn line_char_ok(c: char) -> bool {
    c == '\t' || !text::is_control(c)
}

/// Position `i` of `t` respects normal form: the character is a newline
/// or allowed inside a line, and a line ending at `i` (before a newline
/// or at the end of the text) does not end in whitespace.
pub open spec fn normal_at(t: Seq<char>, i: int) -> bool {
    &&& (t[i] == '\n' || line_char_ok(t[i]))
    &&& (0 < i && t[i] == '\n' && t[i - 1] != '\n') ==> !text::is_ws(t[i - 1])
    &&& (i == t.len() - 1 && t[i] != '\n') ==> !text::is_ws(t[i])
}

/// Text in normal form: no carriage returns, no control characters but
/// `\n` and `\t`, and no whitespace at the end of any line.
pub open spec fn is_normal(t: Seq<char>) -> bool {
    forall|i: int| 0 <= i < t.len() ==> #[trigger] normal_at(t, i)
}

/// Append the trimmed current line and a newline to `out`, then clear
/// the line.
pub fn flush_line(out: &mut Vec<char>, line: &mut Vec<char>)
    ensures
        final(out)@ == old(out)@ + text::trim_end(old(line)@).push('\n'),
        final(line)@ == Seq::<char>::empty(),
{
    let t = trim_end_vec(line);
    push_all(out, &t);
    out.push('\n');
    line.clear();
}

/// Apply norm-v1 to a whole document.
pub fn normalize_document(input: &str) -> (r: String)
    ensures
        r@ == normalized(input@),
{
    let all = chars_of(input);
    let start: usize = if all.len() > 0 && all[0] == '\u{FEFF}' {
        1
    } else {
        0
    };
    let s = subvec(&all, start, all.len());
    assert(s@ =~= strip_bom(input@));
    let mut out: Vec<char> = Vec::new();
    let mut line: Vec<char> = Vec::new();
    let mut i: usize = 0;
    while i < s.len()
        invariant
            i <= s.len(),
            norm_from(s@, i as nat, out@, line@) == normalized(input@),
        decreases s.len() - i,
    {
        let c = s[i];
        if c == '\r' {
            if i + 1 < s.len() && s[i + 1] == '\n' {
                i += 2;
            } else {
                i += 1;
            }
            flush_line(&mut out, &mut line);
        } else if c == '\n' {
            flush_line(&mut out, &mut line);
            i += 1;
        } else if c == '\t' {
            line.push('\t');
            i += 1;
        } else if is_control_char(c) {
            i += 1;
        } else {
            line.push(c);
            i += 1;
        }
    }
    if line.len() > 0 {
        let t = trim_end_vec(&line);
        push_all(&mut out, &t);
    }
    string_of(&out)
}

// ------------------------------------------------------------------ laws

proof fn lemma_norm_from_len(s: Seq<char>, i: nat, out: Seq<char>, line: Seq<char>)
    requires
        i <= s.len(),
    ensures
        norm_from(s, i, out, line).len() <= out.len() + line.len() + (s.len() - i),
    decreases s.len() - i,
{
    text::lemma_trim_end_is_prefix(line);
    if i < s.len() {
        let c = s[i as int];
        if c == '\r' {
            let j: nat = if i + 1 < s.len() && s[i as int + 1] == '\n' {
                i + 2
            } else {
                i + 1
            };
            lemma_norm_from_len(s, j, out + text::trim_end(line).push('\n'), Seq::<char>::empty());
        } else if c == '\n' {
            lemma_norm_from_len(s, i + 1, out + text::trim_end(line).push('\n'), Seq::<char>::empty());
        } else if c == '\t' {
            lemma_norm_from_len(s, i + 1, out, line.push('\t'));
        } else if text::is_control(c) {
            lemma_norm_from_len(s, i + 1, out, line);
        } else {
            lemma_norm_from_len(s, i + 1, out, line.push(c));
        }
    }
}

/// Normalization never lengthens a text.
pub proof fn lemma_normalized_len(input: Seq<char>)
    ensures
        normalized(input).len() <= input.len(),
{
    lemma_norm_from_len(strip_bom(input), 0, Seq::<char>::empty(), Seq::<char>::empty());
}

/// Invariant of the machine that yields normal output: finished text is
/// normal and ends at a line boundary; the current line holds only
/// allowed characters.
spec fn machine_ok(out: Seq<char>, line: Seq<char>) -> bool {
    &&& is_normal(out)
    &&& (out.len() == 0 || out.last() == '\n')
    &&& forall|k: int| 0 <= k < line.len() ==> line_char_ok(#[trigger] line[k])
}

proof fn lemma_append_line(out: Seq<char>, line: Seq<char>)
    requires
        machine_ok(out, line),
    ensures
        is_normal(out + text::trim_end(line)),
        machine_ok(out + text::trim_end(line).push('\n'), Seq::<char>::empty()),
{
    text::lemma_trim_end_is_prefix(line);
    let t = text::trim_end(line);
    let a = out + t;
    assert forall|k: int| 0 <= k < t.len() implies line_char_ok(#[trigger] t[k]) && t[k] != '\n' by {
        assert(t[k] == line[k]);
        assert(line_char_ok(line[k]));
    }
    assert forall|i: int| 0 <= i < a.len() implies #[trigger] normal_at(a, i) by {
        if i >= out.len() {
            assert(a[i] == t[i - out.len()]);
            assert(line_char_ok(t[i - out.len()]));
            if i == a.len() - 1 {
                assert(t[i - out.len()] == t.last());
            }
        } else {
            assert(normal_at(out, i));
            assert(a[i] == out[i]);
            if i > 0 {
                assert(a[i - 1] == out[i - 1]);
            }
            if i == a.len() - 1 {
                assert(t.len() == 0);
                assert(out.last() == '\n');
            }
        }
    }
    let b = a.push('\n');
    assert forall|i: int| 0 <= i < b.len() implies #[trigger] normal_at(b, i) by {
        if i < a.len() {
            assert(normal_at(a, i));
            assert(b[i] == a[i]);
            if i > 0 {
                assert(b[i - 1] == a[i - 1]);
            }
        } else {
            if i > 0 {
                assert(normal_at(a, i - 1));
                assert(b[i - 1] == a[i - 1]);
            }
        }
    }
    assert(out + text::trim_end(line).push('\n') =~= b);
}

proof fn lemma_norm_from_normal(s: Seq<char>, i: nat, out: Seq<char>, line: Seq<char>)
    requires
        machine_ok(out, line),
    ensures
        is_normal(norm_from(s, i, out, line)),
    decreases s.len() - i,
{
    if i >= s.len() {
        if line.len() > 0 {
            lemma_append_line(out, line);
        }
    } else {
        let c = s[i as int];
        if c == '\r' || c == '\n' {
            lemma_append_line(out, line);
            let j: nat = if c == '\r' && i + 1 < s.len() && s[i + 1int] == '\n' {
                i + 2
            } else {
                i + 1
            };
            lemma_norm_from_normal(s, j, out + text::trim_end(line).push('\n'), Seq::<char>::empty());
        } else if c == '\t' {
            assert forall|k: int| 0 <= k < line.push('\t').len() implies line_char_ok(
                #[trigger] line.push('\t')[k],
            ) by {
                if k < line.len() {
                    assert(line.push('\t')[k] == line[k]);
                }
            }
            lemma_norm_from_normal(s, i + 1, out, line.push('\t'));
        } else if text::is_control(c) {
            lemma_norm_from_normal(s, i + 1, out, line);
        } else {
            assert forall|k: int| 0 <= k < line.push(c).len() implies line_char_ok(
                #[trigger] line.push(c)[k],
            ) by {
                if k < line.len() {
                    assert(line.push(c)[k] == line[k]);
                }
            }
            lemma_norm_from_normal(s, i + 1, out, line.push(c));
        }
    }
}

/// Normalized text is in normal form: no carriage return survives, no
/// control character but `\n` and `\t`, and no line ends in whitespace.
pub proof fn law_normalized_is_normal(input: Seq<char>)
    ensures
        is_normal(normalized(input)),
{
    lemma_norm_from_normal(strip_bom(input), 0, Seq::<char>::empty(), Seq::<char>::empty());
}

proof fn lemma_normal_at(x: Seq<char>, i: int)
    requires
        is_normal(x),
        0 <= i < x.len(),
    ensures
        x[i] == '\n' || line_char_ok(x[i]),
        (0 < i && x[i] == '\n' && x[i - 1] != '\n') ==> !text::is_ws(x[i - 1]),
        (i == x.len() - 1 && x[i] != '\n') ==> !text::is_ws(x[i]),
{
    assert(normal_at(x, i));
}

proof fn lemma_fixed_point(x: Seq<char>, i: nat, start: nat)
    requires
        is_normal(x),
        start <= i <= x.len(),
        start == 0 || x[start - 1] == '\n',
        forall|k: int| start <= k < i ==> #[trigger] x[k] != '\n',
    ensures
        norm_from(x, i, x.take(start as int), x.subrange(start as int, i as int)) == x,
    decreases x.len() - i,
{
    let out = x.take(start as int);
    let line = x.subrange(start as int, i as int);
    if i > start {
        // the line so far ends in a non-whitespace character when it is
        // followed by a newline or the end of the text
        assert(line.last() == x[i - 1]);
    }
    if i >= x.len() {
        if line.len() > 0 {
            lemma_normal_at(x, i - 1);
            assert(x.last() == x[i - 1]);
            assert(x.last() != '\n');
            assert(!text::is_ws(line.last()));
            assert(text::trim_end(line) == line);
            assert(out + line =~= x);
        } else {
            assert(out =~= x);
        }
    } else {
        let c = x[i as int];
        lemma_normal_at(x, i as int);
        assert(c != '\r');
        if c == '\n' {
            if line.len() > 0 {
                assert(x[i - 1] != '\n');
                assert(!text::is_ws(x[i - 1]));
                assert(text::trim_end(line) == line);
            } else {
                assert(text::trim_end(line) == line);
            }
            assert(out + text::trim_end(line).push('\n') =~= x.take(i + 1int));
            assert(x.subrange(i + 1int, i + 1int) =~= Seq::<char>::empty());
            lemma_fixed_point(x, i + 1, i + 1);
        } else {
            assert(c == '\t' || !text::is_control(c));
            assert(line.push(c) =~= x.subrange(start as int, i + 1int));
            lemma_fixed_point(x, i + 1, start);
        }
    }
}

/// Text already in normal form (and not starting with a byte-order mark)
/// passes through normalization unchanged.
pub proof fn law_normal_text_unchanged(x: Seq<char>)
    requires
        is_normal(x),
        x.len() == 0 || x[0] != bom(),
    ensures
        normalized(x) == x,
{
    assert(strip_bom(x) == x);
    assert(x.take(0) =~= Seq::<char>::empty());
    assert(x.subrange(0, 0) =~= Seq::<char>::empty());
    lemma_fixed_point(x, 0, 0);
}

/// Normalizing twice equals normalizing once, unless the first pass
/// leaves a byte-order mark at the start (the second pass strips it).
pub proof fn law_normalize_idempotent(input: Seq<char>)
    requires
        normalized(input).len() == 0 || normalized(input)[0] != bom(),
    ensures
        normalized(normalized(input)) == normalized(input),
{
    law_normalized_is_normal(input);
    law_normal_text_unchanged(normalized(input));
}

/// Position `i` of `s` ends a line: a `\n`, or a `\r` not followed by
/// `\n` (the `\r` of a CRLF pair does not end the line; its `\n` does).
pub open spec fn ends_line(s: Seq<char>, i: int) -> bool {
    s[i] == '\n' || (s[i] == '\r' && !(i + 1 < s.len() && s[i + 1] == '\n'))
}

/// The number of line ends in `s` at position `i` or later.
pub open spec fn line_ends_from(s: Seq<char>, i: nat) -> nat
    decreases s.len() - i,
{
    if i >= s.len() {
        0
    } else {
        (if ends_line(s, i as int) {
            1nat
        } else {
            0nat
        }) + line_ends_from(s, i + 1)
    }
}

/// The number of `\n` in `s`.
pub open spec fn newline_count(s: Seq<char>) -> nat
    decreases s.len(),
{
    if s.len() == 0 {
        0
    } else {
        newline_count(s.drop_last()) + if s.last() == '\n' {
            1nat
        } else {
            0nat
        }
    }
}

proof fn lemma_newline_count_concat(a: Seq<char>, b: Seq<char>)
    ensures
        newline_count(a + b) == newline_count(a) + newline_count(b),
    decreases b.len(),
{
    if b.len() > 0 {
        assert((a + b).drop_last() =~= a + b.drop_last());
        lemma_newline_count_concat(a, b.drop_last());
    } else {
        assert(a + b =~= a);
    }
}

proof fn lemma_newline_free(s: Seq<char>)
    requires
        forall|k: int| 0 <= k < s.len() ==> s[k] != '\n',
    ensures
        newline_count(s) == 0,
    decreases s.len(),
{
    if s.len() > 0 {
        lemma_newline_free(s.drop_last());
    }
}

proof fn lemma_flushed_line(out: Seq<char>, line: Seq<char>)
    requires
        forall|k: int| 0 <= k < line.len() ==> line[k] != '\n',
    ensures
        newline_count(out + text::trim_end(line).push('\n')) == newline_count(out) + 1,
        newline_count(out + text::trim_end(line)) == newline_count(out),
{
    text::lemma_trim_end_is_prefix(line);
    let t = text::trim_end(line);
    assert forall|k: int| 0 <= k < t.len() implies t[k] != '\n' by {
        assert(t[k] == line[k]);
    }
    lemma_newline_free(t);
    lemma_newline_count_concat(out, t.push('\n'));
    lemma_newline_count_concat(out, t);
    assert(t.push('\n').drop_last() =~= t);
}

proof fn lemma_norm_from_newlines(s: Seq<char>, i: nat, out: Seq<char>, line: Seq<char>)
    requires
        i <= s.len(),
        forall|k: int| 0 <= k < line.len() ==> line[k] != '\n',
    ensures
        newline_count(norm_from(s, i, out, line)) == newline_count(out) + line_ends_from(s, i),
    decreases s.len() - i,
{
    lemma_flushed_line(out, line);
    if i < s.len() {
        let c = s[i as int];
        if c == '\r' {
            if i + 1 < s.len() && s[i + 1int] == '\n' {
                assert(line_ends_from(s, i) == line_ends_from(s, i + 1));
                assert(line_ends_from(s, i + 1) == 1 + line_ends_from(s, i + 2));
                lemma_norm_from_newlines(s, i + 2, out + text::trim_end(line).push('\n'), Seq::<char>::empty());
            } else {
                lemma_norm_from_newlines(s, i + 1, out + text::trim_end(line).push('\n'), Seq::<char>::empty());
            }
        } else if c == '\n' {
            lemma_norm_from_newlines(s, i + 1, out + text::trim_end(line).push('\n'), Seq::<char>::empty());
        } else if c == '\t' {
            assert forall|k: int| 0 <= k < line.push('\t').len() implies line.push('\t')[k] != '\n' by {
                if k < line.len() {
                    assert(line.push('\t')[k] == line[k]);
                }
            }
            lemma_norm_from_newlines(s, i + 1, out, line.push('\t'));
        } else if text::is_control(c) {
            lemma_norm_from_newlines(s, i + 1, out, line);
        } else {
            assert(c != '\n');
            assert forall|k: int| 0 <= k < line.push(c).len() implies line.push(c)[k] != '\n' by {
                if k < line.len() {
                    assert(line.push(c)[k] == line[k]);
                }
            }
            lemma_norm_from_newlines(s, i + 1, out, line.push(c));
        }
    }
}

/// Normalization keeps every line: each line end of the input (a `\n`,
/// a CRLF pair or a lone `\r`, after the byte-order mark is dropped)
/// becomes exactly one `\n` of the output, so no line is dropped or
/// merged, blank and whitespace-only lines included, and line numbers
/// carry over unchanged.
pub proof fn law_normalization_keeps_lines(input: Seq<char>)
    ensures
        newline_count(normalized(input)) == line_ends_from(strip_bom(input), 0),
{
    lemma_norm_from_newlines(strip_bom(input), 0, Seq::<char>::empty(), Seq::<char>::empty());
}

/// The characters of `s` that may stay inside a line: tabs and every
/// character that is not a control character.
pub open spec fn kept_chars(s: Seq<char>) -> Seq<char>
    decreases s.len(),
{
    if s.len() == 0 {
        Seq::<char>::empty()
    } else if line_char_ok(s.last()) {
        kept_chars(s.drop_last()).push(s.last())
    } else {
        kept_chars(s.drop_last())
    }
}

/// An input line as norm-v1 writes it: control characters other than the
/// tab dropped, trailing whitespace trimmed.
pub open spec fn clean_line(l: Seq<char>) -> Seq<char> {
    text::trim_end(kept_chars(l))
}

/// The lines of `s` from position `i` on, the current one holding `cur`:
/// `s` is cut at every line end, which belongs to no line (the `\r` of a
/// CRLF pair stays on its line, as a control character).
pub open spec fn input_lines_from(s: Seq<char>, i: nat, cur: Seq<char>) -> Seq<Seq<char>>
    decreases s.len() - i,
{
    if i >= s.len() {
        seq![cur]
    } else if ends_line(s, i as int) {
        seq![cur] + input_lines_from(s, i + 1, Seq::<char>::empty())
    } else {
        input_lines_from(s, i + 1, cur.push(s[i as int]))
    }
}

/// The lines of a text, cut at its line ends.
pub open spec fn input_lines(s: Seq<char>) -> Seq<Seq<char>> {
    input_lines_from(s, 0, Seq::<char>::empty())
}

proof fn lemma_input_lines_nonempty(s: Seq<char>, i: nat, cur: Seq<char>)
    ensures
        input_lines_from(s, i, cur).len() >= 1,
    decreases s.len() - i,
{
    if i < s.len() {
        if ends_line(s, i as int) {
            lemma_input_lines_nonempty(s, i + 1, Seq::<char>::empty());
        } else {
            lemma_input_lines_nonempty(s, i + 1, cur.push(s[i as int]));
        }
    }
}

proof fn lemma_render_front(x: Seq<char>, rest: Seq<Seq<char>>)
    requires
        rest.len() >= 1,
    ensures
        text::join((seq![x] + rest).map_values(|l: Seq<char>| clean_line(l)), "\n"@) == clean_line(x)
            + "\n"@ + text::join(rest.map_values(|l: Seq<char>| clean_line(l)), "\n"@),
{
    let ps = (seq![x] + rest).map_values(|l: Seq<char>| clean_line(l));
    text::lemma_join_front(ps, "\n"@);
    assert(ps.drop_first() =~= rest.map_values(|l: Seq<char>| clean_line(l)));
    assert(ps[0] == clean_line(x));
}

proof fn lemma_norm_from_lines(s: Seq<char>, i: nat, out: Seq<char>, line: Seq<char>, cur: Seq<char>)
    requires
        i <= s.len(),
        line == kept_chars(cur),
    ensures
        norm_from(s, i, out, line) == out + text::join(
            input_lines_from(s, i, cur).map_values(|l: Seq<char>| clean_line(l)),
            "\n"@,
        ),
    decreases s.len() - i,
{
    reveal_strlit("\n");
    let e = Seq::<char>::empty();
    assert(kept_chars(e) =~= e);
    if i >= s.len() {
        assert(input_lines_from(s, i, cur).map_values(|l: Seq<char>| clean_line(l)) =~= seq![clean_line(cur)]);
        if line.len() == 0 {
            assert(text::trim_end(line) =~= line);
            assert(out + line =~= out);
        }
    } else {
        let c = s[i as int];
        assert(cur.push(c).drop_last() =~= cur);
        if c == '\r' && i + 1 < s.len() && s[i + 1int] == '\n' {
            assert(!ends_line(s, i as int));
            assert(ends_line(s, i + 1int));
            let cur1 = cur.push(c);
            assert(kept_chars(cur1) == line);
            assert(input_lines_from(s, i, cur) == input_lines_from(s, i + 1, cur1));
            assert(input_lines_from(s, i + 1, cur1) == seq![cur1] + input_lines_from(s, i + 2, e));
            lemma_input_lines_nonempty(s, i + 2, e);
            lemma_render_front(cur1, input_lines_from(s, i + 2, e));
            lemma_norm_from_lines(s, i + 2, out + text::trim_end(line).push('\n'), e, e);
            assert(text::trim_end(line).push('\n') =~= text::trim_end(line) + "\n"@);
            assert(out + text::trim_end(line).push('\n') + text::join(
                input_lines_from(s, i + 2, e).map_values(|l: Seq<char>| clean_line(l)),
                "\n"@,
            ) =~= out + (clean_line(cur1) + "\n"@ + text::join(
                input_lines_from(s, i + 2, e).map_values(|l: Seq<char>| clean_line(l)),
                "\n"@,
            )));
        } else if c == '\r' || c == '\n' {
            assert(ends_line(s, i as int));
            lemma_input_lines_nonempty(s, i + 1, e);
            lemma_render_front(cur, input_lines_from(s, i + 1, e));
            lemma_norm_from_lines(s, i + 1, out + text::trim_end(line).push('\n'), e, e);
            assert(out + text::trim_end(line).push('\n') + text::join(
                input_lines_from(s, i + 1, e).map_values(|l: Seq<char>| clean_line(l)),
                "\n"@,
            ) =~= out + (clean_line(cur) + "\n"@ + text::join(
                input_lines_from(s, i + 1, e).map_values(|l: Seq<char>| clean_line(l)),
                "\n"@,
            )));
        } else {
            assert(!ends_line(s, i as int));
            if c == '\t' {
                lemma_norm_from_lines(s, i + 1, out, line.push('\t'), cur.push(c));
            } else if text::is_control(c) {
                lemma_norm_from_lines(s, i + 1, out, line, cur.push(c));
            } else {
                lemma_norm_from_lines(s, i + 1, out, line.push(c), cur.push(c));
            }
        }
    }
}

/// norm-v1 line by line: the output is the input's lines (cut at each
/// `\n`, CRLF pair or lone `\r`, after the byte-order mark is dropped),
/// each with its control characters other than the tab dropped and its
/// trailing whitespace trimmed, joined by `\n`. The k-th output line is
/// the cleaned k-th input line; blank lines stay, as empty lines.
pub proof fn law_normalized_lines(input: Seq<char>)
    ensures
        normalized(input) == text::join(
            input_lines(strip_bom(input)).map_values(|l: Seq<char>| clean_line(l)),
            "\n"@,
        ),
{
    let e = Seq::<char>::empty();
    assert(kept_chars(e) =~= e);
    lemma_norm_from_lines(strip_bom(input), 0, e, e, e);
    assert(e + text::join(
        input_lines(strip_bom(input)).map_values(|l: Seq<char>| clean_line(l)),
        "\n"@,
    ) =~= text::join(input_lines(strip_bom(input)).map_values(|l: Seq<char>| clean_line(l)), "\n"@));
}

} // verus!
