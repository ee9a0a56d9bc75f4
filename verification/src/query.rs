//! Safe FTS5 MATCH expression building: user input is data, never query
//! syntax.
//!
//! Each whitespace-separated term becomes a double-quoted phrase with
//! embedded quotes doubled, the phrases joined by spaces (implicit AND).
//! FTS5 operators in user input (`OR`, `NEAR`, `-`, `^`, column filters)
//! thereby turn into literal phrases.
use vstd::prelude::*;
use crate::text;
use crate::text::{chars_of, is_whitespace, join_vecs, lit, push_all, string_of};

verus! {

/// The whitespace-separated words of `s` (`str::split_whitespace`).
pub open spec fn words(s: Seq<char>) -> Seq<Seq<char>>
    decreases s.len(),
{
    if s.len() == 0 {
        Seq::empty()
    } else {
        let w = words(s.drop_last());
        let c = s.last();
        if text::is_ws(c) {
            w
        } else if s.len() > 1 && !text::is_ws(s[s.len() - 2]) {
            w.update(w.len() - 1, w.last().push(c))
        } else {
            w.push(seq![c])
        }
    }
}

/// `w` with every double quote doubled.
pub open spec fn escape_quotes(w: Seq<char>) -> Seq<char>
    decreases w.len(),
{
    if w.len() == 0 {
        Seq::empty()
    } else if w.last() == '"' {
        escape_quotes(w.drop_last()) + seq!['"', '"']
    } else {
        escape_quotes(w.drop_last()).push(w.last())
    }
}

/// A term as a quoted FTS5 phrase.
pub open spec fn phrase(w: Seq<char>) -> Seq<char> {
    seq!['"'] + escape_quotes(w) + seq!['"']
}

/// The MATCH expression for a raw query: `None` without searchable
/// terms.
pub open spec fn match_expression(raw: Seq<char>) -> Option<Seq<char>> {
    let ws = words(raw);
    if ws.len() == 0 {
        None
    } else {
        Some(text::join(ws.map_values(|w: Seq<char>| phrase(w)), " "@))
    }
}

proof fn lemma_words_shape(s: Seq<char>)
    ensures
        (s.len() > 0 && !text::is_ws(s.last())) ==> words(s).len() > 0,
        words(s).len() == 0 <==> text::all_ws(s),
        forall|k: int| 0 <= k < words(s).len() ==> (#[trigger] words(s)[k]).len() > 0,
    decreases s.len(),
{
    if s.len() > 0 {
        let p = s.drop_last();
        lemma_words_shape(p);
        if !text::is_ws(s.last()) {
            assert(!text::all_ws(s)) by {
                assert(!text::is_ws(s[s.len() - 1]));
            }
        } else {
            if text::all_ws(p) {
                assert forall|i: int| 0 <= i < s.len() implies text::is_ws(#[trigger] s[i]) by {
                    if i < s.len() - 1 {
                        assert(s[i] == p[i]);
                    }
                }
            } else {
                let i = choose|i: int| 0 <= i < p.len() && !text::is_ws(p[i]);
                assert(s[i] == p[i]);
            }
        }
        if s.len() > 1 && !text::is_ws(s[s.len() - 2]) {
            assert(p.last() == s[s.len() - 2]);
        }
    }
}

// ------------------------------------------------------------- reading back

/// The reading of a string literal's body, `s` being the text after its
/// opening double quote: `""` stands for one quote and a lone `"` closes
/// the literal. Gives the text read and the number of characters
/// consumed, closing quote included; `None` when the literal is never
/// closed.
pub open spec fn read_literal(s: Seq<char>) -> Option<(Seq<char>, nat)>
    decreases s.len(),
{
    if s.len() == 0 {
        None
    } else if s[0] == '"' {
        if s.len() > 1 && s[1] == '"' {
            match read_literal(s.skip(2)) {
                Some(r) => Some((seq!['"'] + r.0, r.1 + 2)),
                None => None,
            }
        } else {
            Some((Seq::empty(), 1))
        }
    } else {
        match read_literal(s.drop_first()) {
            Some(r) => Some((seq![s[0]] + r.0, r.1 + 1)),
            None => None,
        }
    }
}

pub proof fn lemma_read_literal_len(s: Seq<char>)
    ensures
        read_literal(s) matches Some(r) ==> 1 <= r.1 <= s.len(),
    decreases s.len(),
{
    if s.len() > 0 {
        if s[0] == '"' {
            if s.len() > 1 && s[1] == '"' {
                lemma_read_literal_len(s.skip(2));
            }
        } else {
            lemma_read_literal_len(s.drop_first());
        }
    }
}

/// The phrases of a MATCH expression read as FTS5 reads string
/// literals: quoted literals separated by single spaces. `None` when the
/// text is not of that shape.
pub open spec fn read_phrases(e: Seq<char>) -> Option<Seq<Seq<char>>>
    decreases e.len(),
{
    if e.len() == 0 || e[0] != '"' {
        None
    } else {
        match read_literal(e.drop_first()) {
            None => None,
            Some(r) => {
                proof {
                    lemma_read_literal_len(e.drop_first());
                }
                let rest = e.skip(r.1 + 1int);
                if rest.len() == 0 {
                    Some(seq![r.0])
                } else if rest[0] == ' ' {
                    match read_phrases(rest.drop_first()) {
                        Some(ps) => Some(seq![r.0] + ps),
                        None => None,
                    }
                } else {
                    None
                }
            },
        }
    }
}

proof fn lemma_escape_append(a: Seq<char>, b: Seq<char>)
    ensures
        escape_quotes(a + b) == escape_quotes(a) + escape_quotes(b),
    decreases b.len(),
{
    if b.len() == 0 {
        assert(a + b =~= a);
        assert(escape_quotes(a) + escape_quotes(b) =~= escape_quotes(a));
    } else {
        lemma_escape_append(a, b.drop_last());
        assert((a + b).drop_last() =~= a + b.drop_last());
        assert((a + b).last() == b.last());
        if b.last() == '"' {
            assert(escape_quotes(a) + escape_quotes(b) =~= escape_quotes(a) + escape_quotes(
                b.drop_last(),
            ) + seq!['"', '"']);
        } else {
            assert(escape_quotes(a) + escape_quotes(b) =~= (escape_quotes(a) + escape_quotes(
                b.drop_last(),
            )).push(b.last()));
        }
    }
}

/// An escaped text followed by a closing quote reads back as the text,
/// whatever follows the quote as long as it does not start with a quote.
proof fn lemma_read_escaped(w: Seq<char>, rest: Seq<char>)
    requires
        rest.len() == 0 || rest[0] != '"',
    ensures
        read_literal(escape_quotes(w) + seq!['"'] + rest) == Some((w, escape_quotes(w).len() + 1)),
    decreases w.len(),
{
    let s = escape_quotes(w) + seq!['"'] + rest;
    if w.len() == 0 {
        assert(escape_quotes(w) =~= Seq::<char>::empty());
        assert(s[0] == '"');
        if s.len() > 1 {
            assert(s[1] == rest[0]);
        }
        assert(w =~= Seq::<char>::empty());
    } else {
        let c = w[0];
        let t = w.drop_first();
        assert(w =~= seq![c] + t);
        lemma_escape_append(seq![c], t);
        assert(seq![c].drop_last() =~= Seq::<char>::empty());
        assert(seq![c].last() == c);
        assert(escape_quotes(Seq::<char>::empty()) =~= Seq::<char>::empty());
        lemma_read_escaped(t, rest);
        let tail = escape_quotes(t) + seq!['"'] + rest;
        if c == '"' {
            assert(escape_quotes(seq![c]) =~= seq!['"', '"']);
            assert(s =~= seq!['"', '"'] + tail);
            assert(s.skip(2) =~= tail);
            assert(seq!['"'] + t =~= w);
        } else {
            assert(escape_quotes(seq![c]) =~= seq![c]);
            assert(s =~= seq![c] + tail);
            assert(s.drop_first() =~= tail);
            assert(seq![c] + t =~= w);
        }
    }
}

/// The MATCH expression of a list of words reads back as those words.
proof fn lemma_read_joined(ws: Seq<Seq<char>>)
    requires
        ws.len() >= 1,
    ensures
        read_phrases(text::join(ws.map_values(|w: Seq<char>| phrase(w)), " "@)) == Some(ws),
    decreases ws.len(),
{
    reveal_strlit(" ");
    let ps = ws.map_values(|w: Seq<char>| phrase(w));
    let w0 = ws[0];
    let e = text::join(ps, " "@);
    let rest: Seq<char> = if ws.len() == 1 {
        Seq::empty()
    } else {
        " "@ + text::join(ps.drop_first(), " "@)
    };
    if ws.len() == 1 {
        assert(e == ps[0]);
    } else {
        text::lemma_join_front(ps, " "@);
        assert(e =~= ps[0] + rest);
        assert(ps.drop_first() =~= ws.drop_first().map_values(|w: Seq<char>| phrase(w)));
        lemma_read_joined(ws.drop_first());
    }
    assert(ps[0] == phrase(w0));
    assert(e =~= seq!['"'] + (escape_quotes(w0) + seq!['"'] + rest));
    assert(e.drop_first() =~= escape_quotes(w0) + seq!['"'] + rest);
    lemma_read_escaped(w0, rest);
    assert(e.skip(escape_quotes(w0).len() + 2int) =~= rest);
    if ws.len() == 1 {
        assert(seq![w0] =~= ws);
    } else {
        assert(rest.drop_first() =~= text::join(ps.drop_first(), " "@));
        assert(seq![w0] + ws.drop_first() =~= ws);
    }
}

/// User input is data, never query syntax: reading the MATCH expression
/// back as FTS5 string literals gives exactly the query's
/// whitespace-separated terms, quotes included.
pub proof fn law_match_expression_reads_back(raw: Seq<char>)
    requires
        match_expression(raw) is Some,
    ensures
        read_phrases(match_expression(raw)->0) == Some(words(raw)),
{
    lemma_read_joined(words(raw));
}

/// Double every quote in `w`.
fn escape_quotes_vec(w: &Vec<char>) -> (r: Vec<char>)
    ensures
        r@ == escape_quotes(w@),
{
    let mut r: Vec<char> = Vec::new();
    let mut i: usize = 0;
    while i < w.len()
        invariant
            i <= w.len(),
            r@ == escape_quotes(w@.take(i as int)),
        decreases w.len() - i,
    {
        assert(w@.take(i + 1).drop_last() =~= w@.take(i as int));
        if w[i] == '"' {
            r.push('"');
            r.push('"');
            assert(r@ =~= escape_quotes(w@.take(i as int)) + seq!['"', '"']);
        } else {
            r.push(w[i]);
        }
        i += 1;
    }
    assert(w@.take(w.len() as int) =~= w@);
    r
}

/// The whitespace-separated words of `s`.
fn words_vec(s: &Vec<char>) -> (r: Vec<Vec<char>>)
    ensures
        text::views(r@) == words(s@),
{
    let mut done: Vec<Vec<char>> = Vec::new();
    let mut cur: Vec<char> = Vec::new();
    let mut i: usize = 0;
    assert(s@.take(0) =~= Seq::<char>::empty());
    while i < s.len()
        invariant
            i <= s.len(),
            cur.len() > 0 <==> (i > 0 && !text::is_ws(s@[i - 1])),
            words(s@.take(i as int)) =~= if cur.len() > 0 {
                text::views(done@).push(cur@)
            } else {
                text::views(done@)
            },
        decreases s.len() - i,
    {
        let c = s[i];
        let ghost t = s@.take(i + 1);
        assert(t.drop_last() =~= s@.take(i as int));
        assert(t.last() == c);
        if i > 0 {
            assert(t[t.len() - 2] == s@[i - 1]);
        }
        proof {
            lemma_words_shape(s@.take(i as int));
        }
        let ghost w0 = words(s@.take(i as int));
        if is_whitespace(c) {
            assert(words(t) == w0);
            if cur.len() > 0 {
                let ghost before = text::views(done@);
                done.push(cur);
                assert(text::views(done@) =~= before.push(cur@));
                cur = Vec::new();
            }
        } else {
            if cur.len() > 0 {
                assert(words(t) == w0.update(w0.len() - 1, w0.last().push(c)));
                let ghost before = text::views(done@);
                cur.push(c);
                assert(words(t) =~= before.push(cur@));
            } else {
                assert(words(t) == w0.push(seq![c]));
                cur.push(c);
                assert(cur@ =~= seq![c]);
            }
        }
        i += 1;
    }
    if cur.len() > 0 {
        let ghost before = text::views(done@);
        done.push(cur);
        assert(text::views(done@) =~= before.push(cur@));
    }
    assert(s@.take(s.len() as int) =~= s@);
    done
}

/// Build an FTS5 MATCH expression from a raw user query; `None` when the
/// query holds no searchable term (it is empty or all whitespace).
pub fn build_match_expression(raw: &str) -> (r: Option<String>)
    ensures
        match r {
            Some(e) => match_expression(raw@) == Some(e@),
            None => match_expression(raw@) is None,
        },
        r is None <==> text::all_ws(raw@),
{
    proof {
        lemma_words_shape(raw@);
    }
    let chars = chars_of(raw);
    let terms = words_vec(&chars);
    let ghost ws = words(raw@);
    let mut phrases: Vec<Vec<char>> = Vec::new();
    let mut k: usize = 0;
    while k < terms.len()
        invariant
            text::views(terms@) == ws,
            k <= terms.len(),
            text::views(phrases@) =~= ws.map_values(|w: Seq<char>| phrase(w)).take(k as int),
        decreases terms.len() - k,
    {
        let cleaned = escape_quotes_vec(&terms[k]);
        assert(terms@[k as int]@ == ws[k as int]);
        let mut p: Vec<char> = Vec::new();
        p.push('"');
        push_all(&mut p, &cleaned);
        p.push('"');
        assert(p@ =~= phrase(ws[k as int]));
        let ghost before = text::views(phrases@);
        phrases.push(p);
        assert(text::views(phrases@) =~= before.push(p@));
        k += 1;
    }
    assert(ws.map_values(|w: Seq<char>| phrase(w)).take(terms.len() as int) =~= ws.map_values(
        |w: Seq<char>| phrase(w),
    ));
    if phrases.len() == 0 {
        None
    } else {
        let sep = lit(" ");
        let joined = join_vecs(&phrases, &sep);
        Some(string_of(&joined))
    }
}

} // verus!
