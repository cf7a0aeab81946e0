//! The flat token representation that the extractor and the re-emitter work
//! on.  A token is an identifier, a single punctuation character, a literal
//! (kept in its source form, quotes included), or one side of a delimited
//! group.  A balanced run `Open(d) ... Close(d)` plays the role of one
//! delimited group; the extractor never descends into a group except to find
//! its matching close.

use vstd::prelude::*;

verus! {

/// The three delimiter shapes of a token group.
#[derive(Clone, Copy, PartialEq, Eq, Structural, Debug)]
pub enum Delim {
    Paren,
    Bracket,
    Brace,
}

/// One lexical token.
#[derive(Clone, PartialEq, Eq, Debug)]
pub enum Tok {
    Ident(String),
    Punct(char),
    Lit(String),
    Open(Delim),
    Close(Delim),
}

/// The mathematical value of a token: identifier and literal text as
/// character sequences.
pub enum TokV {
    Ident(Seq<char>),
    Punct(char),
    Lit(Seq<char>),
    Open(Delim),
    Close(Delim),
}

impl View for Tok {
    type V = TokV;

    open spec fn view(&self) -> TokV {
        match self {
            Tok::Ident(s) => TokV::Ident(s@),
            Tok::Punct(c) => TokV::Punct(*c),
            Tok::Lit(s) => TokV::Lit(s@),
            Tok::Open(d) => TokV::Open(*d),
            Tok::Close(d) => TokV::Close(*d),
        }
    }
}

impl DeepView for Tok {
    type V = TokV;

    open spec fn deep_view(&self) -> TokV {
        self.view()
    }
}

pub open spec fn is_open(t: TokV) -> bool {
    t matches TokV::Open(_)
}

pub open spec fn is_close(t: TokV) -> bool {
    t matches TokV::Close(_)
}

/// Contribution of one token to the nesting depth of a scan.
pub open spec fn depth_delta(t: TokV) -> int {
    if is_open(t) {
        1
    } else if is_close(t) {
        -1
    } else {
        0
    }
}

pub open spec fn is_punct_char(t: TokV, c: char) -> bool {
    t matches TokV::Punct(p) && p == c
}

pub open spec fn is_semi(t: TokV) -> bool {
    is_punct_char(t, ';')
}

pub open spec fn is_ident_named(t: TokV, s: Seq<char>) -> bool {
    t matches TokV::Ident(n) && n == s
}

pub open spec fn is_any_ident(t: TokV) -> bool {
    t matches TokV::Ident(_)
}

/// The text of an identifier token; the empty sequence on any other token.
pub open spec fn ident_text(t: TokV) -> Seq<char> {
    match t {
        TokV::Ident(n) => n,
        _ => Seq::empty(),
    }
}

impl Tok {
    /// An explicit copy whose mathematical value equals the original's.
    pub fn dup(&self) -> (t: Tok)
        ensures
            t@ == self@,
    {
        match self {
            Tok::Ident(s) => Tok::Ident(s.clone()),
            Tok::Punct(c) => Tok::Punct(*c),
            Tok::Lit(s) => Tok::Lit(s.clone()),
            Tok::Open(d) => Tok::Open(*d),
            Tok::Close(d) => Tok::Close(*d),
        }
    }
}

/// Appends one token, tracked on the deep view.
pub fn push_tok(out: &mut Vec<Tok>, t: Tok)
    ensures
        final(out).deep_view() == old(out).deep_view().push(t@),
{
    let ghost before = out.deep_view();
    out.push(t);
    proof {
        assert(out.deep_view() =~= before.push(t@));
    }
}

/// Appends a copy of every token of `src`.
pub fn extend_toks(out: &mut Vec<Tok>, src: &Vec<Tok>)
    ensures
        final(out).deep_view() == old(out).deep_view() + src.deep_view(),
{
    let ghost before = out.deep_view();
    let mut k: usize = 0;
    while k < src.len()
        invariant
            k <= src.len(),
            out.deep_view() == before + src.deep_view().subrange(0, k as int),
        decreases src.len() - k,
    {
        push_tok(out, src[k].dup());
        proof {
            assert(before + src.deep_view().subrange(0, k as int) + seq![src.deep_view()[k as int]]
                =~= before + src.deep_view().subrange(0, k as int + 1));
        }
        k = k + 1;
    }
    proof {
        assert(src.deep_view().subrange(0, src.len() as int) =~= src.deep_view());
    }
}

/// A copy of the tokens of `src` between `from` (inclusive) and `to`
/// (exclusive).
pub fn dup_range(src: &Vec<Tok>, from: usize, to: usize) -> (r: Vec<Tok>)
    requires
        from <= to <= src.len(),
    ensures
        r.deep_view() == src.deep_view().subrange(from as int, to as int),
{
    let mut r: Vec<Tok> = Vec::new();
    let mut k: usize = from;
    while k < to
        invariant
            from <= k <= to <= src.len(),
            r.deep_view() == src.deep_view().subrange(from as int, k as int),
        decreases to - k,
    {
        push_tok(&mut r, src[k].dup());
        proof {
            assert(src.deep_view().subrange(from as int, k as int).push(src.deep_view()[k as int])
                =~= src.deep_view().subrange(from as int, k as int + 1));
        }
        k = k + 1;
    }
    r
}

/// Whether two string slices hold the same characters.
pub fn str_eq(a: &str, b: &str) -> (r: bool)
    ensures
        r == (a@ == b@),
{
    a.to_owned() == b.to_owned()
}

/// An identifier token with the given text.
pub fn id(s: &str) -> (t: Tok)
    ensures
        t@ == TokV::Ident(s@),
{
    Tok::Ident(s.to_owned())
}

/// A punctuation token.
pub fn pt(c: char) -> (t: Tok)
    ensures
        t@ == TokV::Punct(c),
{
    Tok::Punct(c)
}

/// A literal token with the given source text.
pub fn lit(s: &str) -> (t: Tok)
    ensures
        t@ == TokV::Lit(s@),
{
    Tok::Lit(s.to_owned())
}

/// An opening delimiter token.
pub fn opn(d: Delim) -> (t: Tok)
    ensures
        t@ == TokV::Open(d),
{
    Tok::Open(d)
}

/// A closing delimiter token.
pub fn cls(d: Delim) -> (t: Tok)
    ensures
        t@ == TokV::Close(d),
{
    Tok::Close(d)
}

/// Whether `t` is the punctuation character `c`.
pub fn tok_is_punct(t: &Tok, c: char) -> (r: bool)
    ensures
        r == is_punct_char(t@, c),
{
    match t {
        Tok::Punct(p) => *p == c,
        _ => false,
    }
}

/// Whether `t` is an identifier with exactly the text `kw`.
pub fn tok_is_kw(t: &Tok, kw: &str) -> (r: bool)
    ensures
        r == is_ident_named(t@, kw@),
{
    match t {
        Tok::Ident(s) => str_eq(s.as_str(), kw),
        _ => false,
    }
}

/// Whether `t` is any identifier.
pub fn tok_is_ident(t: &Tok) -> (r: bool)
    ensures
        r == is_any_ident(t@),
{
    match t {
        Tok::Ident(_) => true,
        _ => false,
    }
}

/// Whether `t` opens a group with delimiter `d`.
pub fn tok_is_open(t: &Tok, d: Delim) -> (r: bool)
    ensures
        r == (t@ == TokV::Open(d)),
{
    match t {
        Tok::Open(e) => *e == d,
        _ => false,
    }
}

/// Whether `t` closes a group with delimiter `d`.
pub fn tok_is_close(t: &Tok, d: Delim) -> (r: bool)
    ensures
        r == (t@ == TokV::Close(d)),
{
    match t {
        Tok::Close(e) => *e == d,
        _ => false,
    }
}

/// Whether `t` opens a group of any delimiter.
pub fn tok_is_any_open(t: &Tok) -> (r: bool)
    ensures
        r == is_open(t@),
{
    match t {
        Tok::Open(_) => true,
        _ => false,
    }
}

/// Whether `t` closes a group of any delimiter.
pub fn tok_is_any_close(t: &Tok) -> (r: bool)
    ensures
        r == is_close(t@),
{
    match t {
        Tok::Close(_) => true,
        _ => false,
    }
}

} // verus!
