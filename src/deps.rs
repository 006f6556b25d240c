//! Dependency extraction: the crate names that a script declares with
//! `extern crate NAME;` statements.
//!
//! The scan is lexical. A declaration is the keyword `extern`, one or more
//! whitespace characters, the keyword `crate`, one or more whitespace
//! characters, a name of one or more Unicode word characters, any whitespace,
//! and `;`. It is found wherever it stands in the text, also
//! inside a comment or a string literal.

use crate::unique::{dedup, dedup_names, lemma_dedup_props, texts};
use vstd::prelude::*;
use vstd::std_specs::iter::IteratorSpec;
use vstd::string::StrSliceExecFns;

verus! {

broadcast use vstd::string::group_string_axioms;

/// A whitespace character: one with the Unicode `White_Space` property.
pub open spec fn is_space(c: char) -> bool {
    ||| c == ' '
    ||| ('\t' <= c && c <= '\r')
    ||| c == '\u{85}'
    ||| c == '\u{a0}'
    ||| c == '\u{1680}'
    ||| ('\u{2000}' <= c && c <= '\u{200a}')
    ||| c == '\u{2028}'
    ||| c == '\u{2029}'
    ||| c == '\u{202f}'
    ||| c == '\u{205f}'
    ||| c == '\u{3000}'
}

/// Whether a character is a Unicode word character: `Alphabetic`,
/// `Join_Control`, or of the general category `Decimal_Number`, `Mark` or
/// `Connector_Punctuation`.
pub uninterp spec fn word_char(c: char) -> bool;

/// Relies on `regex_syntax::is_word_character`: the Unicode word class `\w`. It
/// panics only where the crate's `unicode-perl` feature is off, and that
/// feature is on by default.
#[verifier::external_body]
fn is_word_char(c: char) -> (r: bool)
    ensures
        r == word_char(c),
{
    regex_syntax::is_word_character(c)
}

/// A character of a declared name.
pub open spec fn is_name_char(c: char) -> bool {
    word_char(c)
}

pub open spec fn in_class(c: char, name: bool) -> bool {
    if name {
        is_name_char(c)
    } else {
        is_space(c)
    }
}

/// The length of the run of characters of one class that starts at `j`.
pub open spec fn run_len(t: Seq<char>, j: int, name: bool) -> nat
    decreases t.len() - j,
{
    if 0 <= j < t.len() && in_class(t[j], name) {
        1 + run_len(t, j + 1, name)
    } else {
        0
    }
}

pub open spec fn extern_keyword() -> Seq<char> {
    seq!['e', 'x', 't', 'e', 'r', 'n']
}

pub open spec fn crate_keyword() -> Seq<char> {
    seq!['c', 'r', 'a', 't', 'e']
}

/// Whether `w` stands in `t` at position `i`.
pub open spec fn word_at(t: Seq<char>, i: int, w: Seq<char>) -> bool {
    0 <= i && i + w.len() <= t.len() && t.subrange(i, i + w.len()) == w
}

/// Where the name of a declaration that starts at `i` stands, if one starts there.
pub open spec fn decl_span(t: Seq<char>, i: int) -> Option<(int, int)> {
    let a = i + 6;
    let b = a + run_len(t, a, false);
    let c = b + 5 + run_len(t, b + 5, false);
    let d = c + run_len(t, c, true);
    let e = d + run_len(t, d, false);
    if word_at(t, i, extern_keyword()) && b > a && word_at(t, b, crate_keyword()) && c > b + 5
        && d > c && e < t.len() && t[e] == ';' {
        Some((c, d))
    } else {
        None
    }
}

/// The names of the declarations that start at `i` or later, in order.
pub open spec fn decl_names_from(t: Seq<char>, i: int) -> Seq<Seq<char>>
    decreases t.len() - i,
{
    if i < 0 || i >= t.len() {
        Seq::empty()
    } else {
        let rest = decl_names_from(t, i + 1);
        match decl_span(t, i) {
            Some((c, d)) => seq![t.subrange(c, d)] + rest,
            None => rest,
        }
    }
}

/// The names of all declarations of a text, in order, repeats included.
pub open spec fn declared_names(t: Seq<char>) -> Seq<Seq<char>> {
    decl_names_from(t, 0)
}

/// The characters of a string, in order.
pub fn chars_of(text: &str) -> (r: Vec<char>)
    ensures
        r@ == text@,
{
    let n = text.unicode_len();
    let mut it = text.chars();
    let mut out: Vec<char> = Vec::new();
    assert(it.remaining() == text@);
    while out.len() < n
        invariant
            n == text@.len(),
            out@ + it.remaining() == text@,
            it.obeys_prophetic_iter_laws(),
        decreases n - out.len(),
    {
        let ghost before = it.remaining();
        match it.next() {
            Some(c) => {
                out.push(c);
                assert(out@ + it.remaining() =~= text@) by {
                    assert(before =~= seq![c] + it.remaining());
                }
            },
            None => {
                assert(false);
            },
        }
    }
    assert(it.remaining().len() == 0);
    assert(out@ =~= text@);
    out
}


fn in_class_exec(c: char, name: bool) -> (r: bool)
    ensures
        r == in_class(c, name),
{
    if name {
        is_word_char(c)
    } else {
        c == ' ' || ('\t' <= c && c <= '\r') || c == '\u{85}' || c == '\u{a0}' || c == '\u{1680}'
            || ('\u{2000}' <= c && c <= '\u{200a}') || c == '\u{2028}' || c == '\u{2029}'
            || c == '\u{202f}' || c == '\u{205f}' || c == '\u{3000}'
    }
}

/// The end of the run of characters of one class that starts at `j`.
fn run_end(t: &Vec<char>, j: usize, name: bool) -> (r: usize)
    requires
        j <= t@.len(),
    ensures
        r == j + run_len(t@, j as int, name),
        r <= t@.len(),
{
    let mut k = j;
    while k < t.len() && in_class_exec(t[k], name)
        invariant
            j <= k <= t@.len(),
            run_len(t@, j as int, name) == (k - j) + run_len(t@, k as int, name),
        decreases t@.len() - k,
    {
        k += 1;
    }
    k
}

/// Whether `w` stands in `t` at position `i`.
fn word_at_exec(t: &Vec<char>, i: usize, w: &Vec<char>) -> (r: bool)
    ensures
        r == word_at(t@, i as int, w@),
{
    if i > t.len() || w.len() > t.len() - i {
        return false;
    }
    let n = t.len();
    let mut k: usize = 0;
    while k < w.len()
        invariant
            n == t@.len(),
            i + w@.len() <= t@.len(),
            k <= w@.len(),
            forall|m: int| 0 <= m < k ==> t@[i + m] == w@[m],
        decreases w@.len() - k,
    {
        if t[i + k] != w[k] {
            assert(t@.subrange(i as int, i + w@.len())[k as int] != w@[k as int]);
            return false;
        }
        k += 1;
    }
    assert(t@.subrange(i as int, i + w@.len()) =~= w@);
    true
}

/// Where the name of a declaration that starts at `i` stands, if one starts there.
fn decl_span_exec(t: &Vec<char>, i: usize, kw_extern: &Vec<char>, kw_crate: &Vec<char>) -> (r:
    Option<(usize, usize)>)
    requires
        i < t@.len(),
        kw_extern@ == extern_keyword(),
        kw_crate@ == crate_keyword(),
    ensures
        match decl_span(t@, i as int) {
            Some((c, d)) => r == Some((c as usize, d as usize)),
            None => r is None,
        },
{
    let n = t.len();
    if !word_at_exec(t, i, kw_extern) {
        return None;
    }
    let a = i + 6;
    let b = run_end(t, a, false);
    if b == a || !word_at_exec(t, b, kw_crate) {
        return None;
    }
    let c = run_end(t, b + 5, false);
    if c == b + 5 {
        return None;
    }
    let d = run_end(t, c, true);
    if d == c {
        return None;
    }
    let e = run_end(t, d, false);
    if e < t.len() && t[e] == ';' {
        Some((c, d))
    } else {
        None
    }
}

/// The names of all `extern crate NAME;` declarations of a text, in order,
/// repeats included.
pub fn declarations(text: &str) -> (r: Vec<String>)
    ensures
        texts(r@) == declared_names(text@),
{
    let t = chars_of(text);
    let kw_extern: Vec<char> = vec!['e', 'x', 't', 'e', 'r', 'n'];
    let kw_crate: Vec<char> = vec!['c', 'r', 'a', 't', 'e'];
    assert(kw_extern@ =~= extern_keyword());
    assert(kw_crate@ =~= crate_keyword());
    let mut out: Vec<String> = Vec::new();
    let mut i: usize = 0;
    while i < t.len()
        invariant
            t@ == text@,
            i <= t@.len(),
            kw_extern@ == extern_keyword(),
            kw_crate@ == crate_keyword(),
            texts(out@) + decl_names_from(t@, i as int) == declared_names(t@),
        decreases t@.len() - i,
    {
        let ghost rest = decl_names_from(t@, i + 1);
        match decl_span_exec(&t, i, &kw_extern, &kw_crate) {
            Some((c, d)) => {
                let ghost before = out@;
                let name = text.substring_char(c, d).to_owned();
                out.push(name);
                assert(texts(out@) =~= texts(before).push(t@.subrange(c as int, d as int)));
                assert(texts(out@) + rest =~= texts(before) + (seq![t@.subrange(c as int, d as int)]
                    + rest));
            },
            None => {},
        }
        i += 1;
    }
    assert(decl_names_from(t@, i as int) =~= Seq::<Seq<char>>::empty());
    assert(texts(out@) =~= texts(out@) + Seq::<Seq<char>>::empty());
    out
}

/// The crate names that a script declares, each once, in order of first declaration.
pub fn extract_dependencies(text: &str) -> (r: Vec<String>)
    ensures
        texts(r@) == dedup(declared_names(text@)),
        texts(r@).no_duplicates(),
        forall|n: Seq<char>| texts(r@).contains(n) <==> declared_names(text@).contains(n),
{
    let all = declarations(text);
    let r = dedup_names(&all);
    proof {
        lemma_dedup_props(declared_names(text@));
    }
    r
}

} // verus!
