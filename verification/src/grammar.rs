//! The template grammar: literal text interleaved with `{name}` placeholders.
//!
//! A template is a sequence of characters in which `'{'` opens a placeholder
//! and the next `'}'` closes it; the characters between the two braces are
//! the placeholder's name.  Brace characters cannot occur inside literal
//! text or inside a name, so an opening brace that is never closed (or that
//! runs into a second opening brace) and a closing brace with no opening
//! brace before it are the two compile-time faults of the grammar.

use vstd::prelude::*;

verus! {

/// A delimiter character of the placeholder grammar.
pub open spec fn is_delim(c: char) -> bool {
    c == '{' || c == '}'
}

/// Text with no delimiter character in it.
pub open spec fn brace_free(s: Seq<char>) -> bool {
    forall|j: int| 0 <= j < s.len() ==> !is_delim(s[j])
}

/// One compiled element of a template: a run of literal text, or a
/// placeholder to be replaced by the named field's text.
pub enum Seg {
    Lit(Seq<char>),
    Field(Seq<char>),
}

/// The executable counterpart of [`Seg`], holding the same text as owned
/// strings.
#[derive(Debug)]
pub enum Piece {
    Lit(String),
    Field(String),
}

impl View for Piece {
    type V = Seg;

    open spec fn view(&self) -> Seg {
        match self {
            Piece::Lit(s) => Seg::Lit(s@),
            Piece::Field(s) => Seg::Field(s@),
        }
    }
}

/// The segments of a sequence of pieces.
pub open spec fn piece_views(pieces: Seq<Piece>) -> Seq<Seg> {
    pieces.map_values(|p: Piece| p@)
}

/// The index of the first delimiter at or after `i`, or the text's length
/// when no delimiter follows.
pub open spec fn scan_plain(t: Seq<char>, i: int) -> int
    decreases t.len() - i,
{
    if !(0 <= i < t.len()) {
        t.len() as int
    } else if is_delim(t[i]) {
        i
    } else {
        scan_plain(t, i + 1)
    }
}

pub proof fn lemma_scan_plain(t: Seq<char>, i: int)
    requires
        0 <= i <= t.len(),
    ensures
        i <= scan_plain(t, i) <= t.len(),
        forall|j: int| i <= j < scan_plain(t, i) ==> !is_delim(t[j]),
        scan_plain(t, i) < t.len() ==> is_delim(t[scan_plain(t, i)]),
    decreases t.len() - i,
{
    if i < t.len() && !is_delim(t[i]) {
        lemma_scan_plain(t, i + 1);
    }
}

/// What parsing a template text yields: its segments, or the first grammar
/// fault found reading left to right.
pub enum Parsed {
    Segs(Seq<Seg>),
    UnmatchedOpen,
    UnmatchedClose,
}

/// Parses the text from position `i` onward.
pub open spec fn parse_from(t: Seq<char>, i: int) -> Parsed
    decreases t.len() - i
        when 0 <= i <= t.len()
        via parse_from_decreases
{
    if i >= t.len() {
        Parsed::Segs(Seq::empty())
    } else if t[i] == '}' {
        Parsed::UnmatchedClose
    } else if t[i] == '{' {
        let j = scan_plain(t, i + 1);
        if j < t.len() && t[j] == '}' {
            match parse_from(t, j + 1) {
                Parsed::Segs(rest) => Parsed::Segs(seq![Seg::Field(t.subrange(i + 1, j))] + rest),
                Parsed::UnmatchedOpen => Parsed::UnmatchedOpen,
                Parsed::UnmatchedClose => Parsed::UnmatchedClose,
            }
        } else {
            Parsed::UnmatchedOpen
        }
    } else {
        let j = scan_plain(t, i);
        match parse_from(t, j) {
            Parsed::Segs(rest) => Parsed::Segs(seq![Seg::Lit(t.subrange(i, j))] + rest),
            Parsed::UnmatchedOpen => Parsed::UnmatchedOpen,
            Parsed::UnmatchedClose => Parsed::UnmatchedClose,
        }
    }
}

#[via_fn]
proof fn parse_from_decreases(t: Seq<char>, i: int) {
    if 0 <= i && i < t.len() && t[i] != '}' {
        if t[i] == '{' {
            lemma_scan_plain(t, i + 1);
        } else {
            lemma_scan_plain(t, i);
        }
    }
}

/// The whole template's parse.
pub open spec fn parse_text(t: Seq<char>) -> Parsed {
    parse_from(t, 0)
}

/// Every segment's text is free of delimiter characters.
pub open spec fn seg_brace_free(s: Seg) -> bool {
    match s {
        Seg::Lit(text) => brace_free(text),
        Seg::Field(name) => brace_free(name),
    }
}

pub open spec fn segs_brace_free(segs: Seq<Seg>) -> bool {
    forall|k: int| 0 <= k < segs.len() ==> seg_brace_free(#[trigger] segs[k])
}

/// Whatever a template text parses into holds no delimiter character: a
/// parsed literal run stops at the first brace, and a parsed name sits
/// strictly between its two braces.
pub proof fn lemma_parse_brace_free(t: Seq<char>, i: int)
    requires
        0 <= i <= t.len(),
        parse_from(t, i) is Segs,
    ensures
        segs_brace_free(parse_from(t, i)->Segs_0),
    decreases t.len() - i,
{
    if i >= t.len() {
    } else if t[i] == '}' {
    } else if t[i] == '{' {
        let j = scan_plain(t, i + 1);
        lemma_scan_plain(t, i + 1);
        if j < t.len() && t[j] == '}' {
            lemma_parse_brace_free(t, j + 1);
            let name = t.subrange(i + 1, j);
            assert(brace_free(name));
            let rest = parse_from(t, j + 1)->Segs_0;
            let segs = parse_from(t, i)->Segs_0;
            assert(segs == seq![Seg::Field(name)] + rest);
            assert forall|k: int| 0 <= k < segs.len() implies seg_brace_free(#[trigger] segs[k]) by {
                if k > 0 {
                    assert(segs[k] == rest[k - 1]);
                }
            }
        }
    } else {
        let j = scan_plain(t, i);
        lemma_scan_plain(t, i);
        lemma_parse_brace_free(t, j);
        let lit = t.subrange(i, j);
        assert(brace_free(lit));
        let rest = parse_from(t, j)->Segs_0;
        let segs = parse_from(t, i)->Segs_0;
        assert(segs == seq![Seg::Lit(lit)] + rest);
        assert forall|k: int| 0 <= k < segs.len() implies seg_brace_free(#[trigger] segs[k]) by {
            if k > 0 {
                assert(segs[k] == rest[k - 1]);
            }
        }
    }
}

/// The two grammar faults, as values an executable parse can return.
pub enum TemplateFault {
    UnmatchedOpen,
    UnmatchedClose,
}

fn scan_from(text: &str, start: usize) -> (j: usize)
    requires
        start <= text@.len(),
    ensures
        j == scan_plain(text@, start as int),
        start <= j <= text@.len(),
{
    let n = text.unicode_len();
    let mut j: usize = start;
    while j < n
        invariant
            start <= j <= n,
            n == text@.len(),
            scan_plain(text@, start as int) == scan_plain(text@, j as int),
        decreases n - j,
    {
        let c = text.get_char(j);
        if c == '{' || c == '}' {
            assert(scan_plain(text@, j as int) == j);
            return j;
        }
        assert(scan_plain(text@, j as int) == scan_plain(text@, j + 1));
        j = j + 1;
    }
    assert(scan_plain(text@, j as int) == j);
    j
}

/// Parses a template text into its pieces, or reports the first grammar
/// fault.
pub fn parse_template(text: &str) -> (r: Result<Vec<Piece>, TemplateFault>)
    ensures
        match r {
            Ok(pieces) => parse_text(text@) == Parsed::Segs(piece_views(pieces@)),
            Err(fault) => match fault {
                TemplateFault::UnmatchedOpen => parse_text(text@) == Parsed::UnmatchedOpen,
                TemplateFault::UnmatchedClose => parse_text(text@) == Parsed::UnmatchedClose,
            },
        },
{
    let ghost t = text@;
    let n = text.unicode_len();
    let mut pieces: Vec<Piece> = Vec::new();
    let mut i: usize = 0;
    proof {
        if parse_from(t, 0) is Segs {
            assert(piece_views(pieces@) + parse_from(t, 0)->Segs_0 =~= parse_from(t, 0)->Segs_0);
        }
    }
    while i < n
        invariant
            i <= n,
            n == t.len(),
            t == text@,
            parse_from(t, i as int) is Segs ==> parse_text(t) == Parsed::Segs(
                piece_views(pieces@) + parse_from(t, i as int)->Segs_0,
            ),
            !(parse_from(t, i as int) is Segs) ==> parse_text(t) == parse_from(t, i as int),
        decreases n - i,
    {
        let c = text.get_char(i);
        if c == '}' {
            assert(parse_from(t, i as int) == Parsed::UnmatchedClose);
            return Err(TemplateFault::UnmatchedClose);
        } else if c == '{' {
            let j = scan_from(text, i + 1);
            if j < n && text.get_char(j) == '}' {
                let name = text.substring_char(i + 1, j).to_owned();
                let ghost seg = Seg::Field(t.subrange(i as int + 1, j as int));
                let ghost old_pieces = pieces@;
                pieces.push(Piece::Field(name));
                proof {
                    assert(piece_views(pieces@) =~= piece_views(old_pieces) + seq![seg]);
                    if parse_from(t, j + 1) is Segs {
                        let rest = parse_from(t, j + 1)->Segs_0;
                        assert(parse_from(t, i as int) == Parsed::Segs(seq![seg] + rest));
                        assert(piece_views(old_pieces) + (seq![seg] + rest) =~= piece_views(
                            pieces@,
                        ) + rest);
                    } else {
                        assert(parse_from(t, i as int) == parse_from(t, j + 1));
                    }
                }
                i = j + 1;
            } else {
                assert(parse_from(t, i as int) == Parsed::UnmatchedOpen);
                return Err(TemplateFault::UnmatchedOpen);
            }
        } else {
            let j = scan_from(text, i);
            assert(j > i) by {
                lemma_scan_plain(t, i as int + 1);
                assert(scan_plain(t, i as int) == scan_plain(t, i as int + 1));
            }
            let lit = text.substring_char(i, j).to_owned();
            let ghost seg = Seg::Lit(t.subrange(i as int, j as int));
            let ghost old_pieces = pieces@;
            pieces.push(Piece::Lit(lit));
            proof {
                assert(piece_views(pieces@) =~= piece_views(old_pieces) + seq![seg]);
                if parse_from(t, j as int) is Segs {
                    let rest = parse_from(t, j as int)->Segs_0;
                    assert(parse_from(t, i as int) == Parsed::Segs(seq![seg] + rest));
                    assert(piece_views(old_pieces) + (seq![seg] + rest) =~= piece_views(pieces@)
                        + rest);
                } else {
                    assert(parse_from(t, i as int) == parse_from(t, j as int));
                }
            }
            i = j;
        }
    }
    proof {
        assert(parse_from(t, i as int) == Parsed::Segs(Seq::<Seg>::empty()));
        assert(piece_views(pieces@) + Seq::<Seg>::empty() =~= piece_views(pieces@));
    }
    Ok(pieces)
}

} // verus!
