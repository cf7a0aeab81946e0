//! The formal grammar subset that the extractor accepts, stated over token
//! sequences: {outer attributes} {visibility} `fn` name `(` parameters `)`
//! return-type tokens `{` body `}`, where the body is {inner attributes}
//! followed by statements.  A statement is a run of tokens up to and including
//! the next semicolon that stands outside every delimited group, or a trailing
//! run without one.

use vstd::prelude::*;
use crate::token::{TokV, Delim, is_open, is_close, is_punct_char, is_semi, is_ident_named,
    is_any_ident, ident_text, depth_delta};

verus! {

/// Index of the close token that matches an imagined open just before
/// position `i`, scanning with `depth` groups already open; `None` when the
/// sequence ends first.
pub open spec fn match_close(t: Seq<TokV>, i: int, depth: nat) -> Option<int>
    decreases t.len() - i,
{
    if i >= t.len() {
        None
    } else if is_close(t[i]) {
        if depth == 0 {
            Some(i)
        } else {
            match_close(t, i + 1, (depth - 1) as nat)
        }
    } else if is_open(t[i]) {
        match_close(t, i + 1, depth + 1)
    } else {
        match_close(t, i + 1, depth)
    }
}

pub proof fn lemma_match_close_bounds(t: Seq<TokV>, i: int, depth: nat)
    ensures
        match_close(t, i, depth) matches Some(j) ==> i <= j < t.len() && is_close(t[j]),
    decreases t.len() - i,
{
    if i >= t.len() {
    } else if is_close(t[i]) {
        if depth == 0 {
        } else {
            lemma_match_close_bounds(t, i + 1, (depth - 1) as nat);
        }
    } else if is_open(t[i]) {
        lemma_match_close_bounds(t, i + 1, depth + 1);
    } else {
        lemma_match_close_bounds(t, i + 1, depth);
    }
}

/// End position (exclusive) of a single outer attribute `# [ ... ]` starting
/// at `i`, or `None` when none starts there.
pub open spec fn outer_attr_end(t: Seq<TokV>, i: int) -> Option<int> {
    if i + 2 <= t.len() && is_punct_char(t[i], '#') && t[i + 1] == TokV::Open(Delim::Bracket) {
        match match_close(t, i + 2, 0) {
            Some(j) => if t[j] == TokV::Close(Delim::Bracket) {
                Some(j + 1)
            } else {
                None
            },
            None => None,
        }
    } else {
        None
    }
}

/// End of the run of outer attributes that starts at `i`.
pub open spec fn outer_attrs_end(t: Seq<TokV>, i: int) -> int
    decreases t.len() - i,
{
    match outer_attr_end(t, i) {
        Some(j) => if i < j <= t.len() {
            outer_attrs_end(t, j)
        } else {
            i
        },
        None => i,
    }
}

pub proof fn lemma_outer_attrs_end_bounds(t: Seq<TokV>, i: int)
    requires
        0 <= i <= t.len(),
    ensures
        i <= outer_attrs_end(t, i) <= t.len(),
    decreases t.len() - i,
{
    match outer_attr_end(t, i) {
        Some(j) => {
            if i < j <= t.len() {
                lemma_outer_attrs_end_bounds(t, j);
            }
        },
        None => {},
    }
}

/// End position (exclusive) of the visibility marker that starts at `i`:
/// nothing, `pub`, or `pub ( ... )`.
pub open spec fn vis_end(t: Seq<TokV>, i: int) -> int {
    if 0 <= i < t.len() && is_ident_named(t[i], "pub"@) {
        if i + 1 < t.len() && t[i + 1] == TokV::Open(Delim::Paren) {
            match match_close(t, i + 2, 0) {
                Some(j) => if t[j] == TokV::Close(Delim::Paren) {
                    j + 1
                } else {
                    i + 1
                },
                None => i + 1,
            }
        } else {
            i + 1
        }
    } else {
        i
    }
}

pub proof fn lemma_vis_end_bounds(t: Seq<TokV>, i: int)
    requires
        0 <= i <= t.len(),
    ensures
        i <= vis_end(t, i) <= t.len(),
{
    if 0 <= i < t.len() && is_ident_named(t[i], "pub"@) {
        if i + 1 < t.len() && t[i + 1] == TokV::Open(Delim::Paren) {
            lemma_match_close_bounds(t, i + 2, 0);
        }
    }
}

/// Where the outer attributes stop and the visibility marker begins.
pub open spec fn vis_at(t: Seq<TokV>) -> int {
    outer_attrs_end(t, 0)
}

/// Where the `fn` keyword is expected.
pub open spec fn fn_at(t: Seq<TokV>) -> int {
    vis_end(t, vis_at(t))
}

pub open spec fn has_fn_kw(t: Seq<TokV>) -> bool {
    fn_at(t) < t.len() && is_ident_named(t[fn_at(t)], "fn"@)
}

pub open spec fn has_name(t: Seq<TokV>) -> bool {
    has_fn_kw(t) && fn_at(t) + 1 < t.len() && is_any_ident(t[fn_at(t) + 1])
}

/// Index of the close of the parameter list, when the signature up to there
/// is well formed.
pub open spec fn params_close_at(t: Seq<TokV>) -> Option<int> {
    if has_name(t) && fn_at(t) + 2 < t.len() && t[fn_at(t) + 2] == TokV::Open(Delim::Paren) {
        match match_close(t, fn_at(t) + 3, 0) {
            Some(j) => if t[j] == TokV::Close(Delim::Paren) {
                Some(j)
            } else {
                None
            },
            None => None,
        }
    } else {
        None
    }
}

pub open spec fn has_params(t: Seq<TokV>) -> bool {
    params_close_at(t) is Some
}

/// First position at or after `i` that opens a brace group standing outside
/// every other group; `None` when a stray close or the end of the sequence
/// comes first.
pub open spec fn find_body_open(t: Seq<TokV>, i: int) -> Option<int>
    decreases t.len() - i,
{
    if i >= t.len() {
        None
    } else if t[i] == TokV::Open(Delim::Brace) {
        Some(i)
    } else if is_open(t[i]) {
        match match_close(t, i + 1, 0) {
            Some(j) => if i < j + 1 <= t.len() {
                find_body_open(t, j + 1)
            } else {
                None
            },
            None => None,
        }
    } else if is_close(t[i]) {
        None
    } else {
        find_body_open(t, i + 1)
    }
}

pub proof fn lemma_find_body_open_bounds(t: Seq<TokV>, i: int)
    ensures
        find_body_open(t, i) matches Some(b) ==> i <= b < t.len() && t[b] == TokV::Open(
            Delim::Brace,
        ),
    decreases t.len() - i,
{
    if i >= t.len() {
    } else if t[i] == TokV::Open(Delim::Brace) {
    } else if is_open(t[i]) {
        match match_close(t, i + 1, 0) {
            Some(j) => {
                if i < j + 1 <= t.len() {
                    lemma_find_body_open_bounds(t, j + 1);
                }
            },
            None => {},
        }
    } else if is_close(t[i]) {
    } else {
        lemma_find_body_open_bounds(t, i + 1);
    }
}

/// Index of the token that opens the function body.
pub open spec fn body_open_at(t: Seq<TokV>) -> Option<int> {
    match params_close_at(t) {
        Some(p) => find_body_open(t, p + 1),
        None => None,
    }
}

/// Index of the token that closes the function body.
pub open spec fn body_close_at(t: Seq<TokV>) -> Option<int> {
    match body_open_at(t) {
        Some(b) => match match_close(t, b + 1, 0) {
            Some(c) => if t[c] == TokV::Close(Delim::Brace) {
                Some(c)
            } else {
                None
            },
            None => None,
        },
        None => None,
    }
}

/// Whether the whole sequence is a function item of the accepted grammar:
/// the body's closing brace exists and is the last token.
pub open spec fn parse_ok(t: Seq<TokV>) -> bool {
    body_close_at(t) matches Some(c) && c == t.len() - 1
}

/// The tokens between the body's braces.
pub open spec fn spec_body(t: Seq<TokV>) -> Seq<TokV> {
    match body_open_at(t) {
        Some(b) => t.subrange(b + 1, t.len() - 1),
        None => Seq::empty(),
    }
}

/// End position (exclusive) of a single inner attribute `# ! [ ... ]`
/// starting at `i` of the body.
pub open spec fn inner_attr_end(b: Seq<TokV>, i: int) -> Option<int> {
    if i + 3 <= b.len() && is_punct_char(b[i], '#') && is_punct_char(b[i + 1], '!') && b[i + 2]
        == TokV::Open(Delim::Bracket) {
        match match_close(b, i + 3, 0) {
            Some(j) => if b[j] == TokV::Close(Delim::Bracket) {
                Some(j + 1)
            } else {
                None
            },
            None => None,
        }
    } else {
        None
    }
}

/// End of the run of inner attributes that starts at `i` of the body.
pub open spec fn inner_attrs_end(b: Seq<TokV>, i: int) -> int
    decreases b.len() - i,
{
    match inner_attr_end(b, i) {
        Some(j) => if i < j <= b.len() {
            inner_attrs_end(b, j)
        } else {
            i
        },
        None => i,
    }
}

pub proof fn lemma_inner_attrs_end_bounds(b: Seq<TokV>, i: int)
    requires
        0 <= i <= b.len(),
    ensures
        i <= inner_attrs_end(b, i) <= b.len(),
    decreases b.len() - i,
{
    match inner_attr_end(b, i) {
        Some(j) => {
            if i < j <= b.len() {
                lemma_inner_attrs_end_bounds(b, j);
            }
        },
        None => {},
    }
}

/// Index of the first semicolon at or after `i` that stands outside every
/// delimited group, taking `depth` groups as already open; the sequence's
/// length when there is none.
pub open spec fn scan_semi(s: Seq<TokV>, i: int, depth: int) -> int
    decreases s.len() - i,
{
    if i >= s.len() {
        s.len() as int
    } else if is_semi(s[i]) && depth == 0 {
        i
    } else {
        scan_semi(s, i + 1, depth + depth_delta(s[i]))
    }
}

pub proof fn lemma_scan_semi_bounds(s: Seq<TokV>, i: int, depth: int)
    requires
        0 <= i <= s.len(),
    ensures
        i <= scan_semi(s, i, depth) <= s.len(),
        scan_semi(s, i, depth) < s.len() ==> is_semi(s[scan_semi(s, i, depth)]),
    decreases s.len() - i,
{
    if i >= s.len() {
    } else if is_semi(s[i]) && depth == 0 {
    } else {
        lemma_scan_semi_bounds(s, i + 1, depth + depth_delta(s[i]));
    }
}

/// The statement partition of a body: each statement runs up to and including
/// the next semicolon outside every group; a trailing run without one is the
/// final statement.
pub open spec fn spec_split(s: Seq<TokV>) -> Seq<Seq<TokV>>
    decreases s.len(),
{
    if s.len() == 0 {
        Seq::empty()
    } else {
        let j = scan_semi(s, 0, 0);
        if 0 <= j < s.len() {
            seq![s.subrange(0, j + 1)] + spec_split(s.subrange(j + 1, s.len() as int))
        } else {
            seq![s]
        }
    }
}

/// Splitting loses, reorders and duplicates nothing: the concatenation of the
/// statements is the body, for every token sequence.
pub proof fn lemma_split_round_trip(s: Seq<TokV>)
    ensures
        spec_split(s).flatten() == s,
    decreases s.len(),
{
    if s.len() == 0 {
        assert(spec_split(s) =~= Seq::<Seq<TokV>>::empty());
        assert(Seq::<Seq<TokV>>::empty().flatten() =~= s);
    } else {
        let j = scan_semi(s, 0, 0);
        lemma_scan_semi_bounds(s, 0, 0);
        if 0 <= j < s.len() {
            let hd = s.subrange(0, j + 1);
            let tl = s.subrange(j + 1, s.len() as int);
            lemma_split_round_trip(tl);
            let ss = seq![hd] + spec_split(tl);
            assert(spec_split(s) == ss);
            assert(ss.first() == hd);
            assert(ss.drop_first() =~= spec_split(tl));
            assert(ss.flatten() == hd + spec_split(tl).flatten());
            assert(hd + tl =~= s);
        } else {
            let ss = seq![s];
            assert(spec_split(s) == ss);
            assert(ss.first() == s);
            assert(ss.drop_first() =~= Seq::<Seq<TokV>>::empty());
            assert(Seq::<Seq<TokV>>::empty().flatten() =~= Seq::<TokV>::empty());
            assert(ss.flatten() == s + Seq::<TokV>::empty());
            assert(s + Seq::<TokV>::empty() =~= s);
        }
    }
}

/// The parsed representation of a function item, as mathematical values:
/// attribute runs are flattened to their tokens, the parameter and
/// return-type regions are kept verbatim, and the body is the statement
/// partition.
pub struct ItemFnV {
    pub outer_attrs: Seq<TokV>,
    pub vis: Seq<TokV>,
    pub name: Seq<char>,
    pub params: Seq<TokV>,
    pub ret: Seq<TokV>,
    pub inner_attrs: Seq<TokV>,
    pub stmts: Seq<Seq<TokV>>,
}

/// The parse result of a sequence accepted by the grammar (meaningful under
/// [`parse_ok`]).
pub open spec fn spec_parse(t: Seq<TokV>) -> ItemFnV {
    let a = vis_at(t);
    let v = fn_at(t);
    let p = match params_close_at(t) {
        Some(p) => p,
        None => v + 3,
    };
    let b = match body_open_at(t) {
        Some(b) => b,
        None => p + 1,
    };
    let body = spec_body(t);
    let ie = inner_attrs_end(body, 0);
    ItemFnV {
        outer_attrs: t.subrange(0, a),
        vis: t.subrange(a, v),
        name: ident_text(t[v + 1]),
        params: t.subrange(v + 3, p),
        ret: t.subrange(p + 1, b),
        inner_attrs: body.subrange(0, ie),
        stmts: spec_split(body.subrange(ie, body.len() as int)),
    }
}

/// The extractor loses, reorders and duplicates nothing: on every accepted
/// input, the inner attributes followed by the concatenation of the
/// statements are exactly the tokens between the body's braces.
pub proof fn lemma_extraction_lossless(t: Seq<TokV>)
    requires
        parse_ok(t),
    ensures
        spec_parse(t).inner_attrs + spec_parse(t).stmts.flatten() == spec_body(t),
{
    let body = spec_body(t);
    let ie = inner_attrs_end(body, 0);
    lemma_inner_attrs_end_bounds(body, 0);
    lemma_split_round_trip(body.subrange(ie, body.len() as int));
    assert(body.subrange(0, ie) + body.subrange(ie, body.len() as int) =~= body);
}

} // verus!
