//! The syntax extractor: parses a token sequence as a function item of the
//! grammar in [`crate::grammar`] without descending into expression grammar,
//! and the entry point that either re-emits the wrapped function or hands the
//! input back with a diagnostic appended.

use vstd::prelude::*;
use crate::token::{Tok, TokV, Delim, is_semi, ident_text, depth_delta, push_tok, extend_toks,
    dup_range, tok_is_punct, tok_is_kw, tok_is_ident, tok_is_open, tok_is_close, tok_is_any_open,
    tok_is_any_close, id, pt, opn, cls};
use vstd::string::StringExecFns;
use crate::grammar::{match_close, lemma_match_close_bounds, outer_attr_end, outer_attrs_end,
    vis_end, vis_at, fn_at, has_fn_kw, has_name, params_close_at, has_params, find_body_open,
    body_open_at, body_close_at, parse_ok, spec_body,
    inner_attr_end, inner_attrs_end, scan_semi, spec_split, ItemFnV, spec_parse};

verus! {

/// Why a token sequence was rejected by the extractor.
#[derive(Clone, Copy, PartialEq, Eq, Structural, Debug)]
pub enum ParseError {
    ExpectedFn,
    ExpectedName,
    ExpectedParams,
    ExpectedBody,
}

/// The error that the extractor reports on a rejected sequence.
pub open spec fn spec_error(t: Seq<TokV>) -> ParseError {
    if !has_fn_kw(t) {
        ParseError::ExpectedFn
    } else if !has_name(t) {
        ParseError::ExpectedName
    } else if !has_params(t) {
        ParseError::ExpectedParams
    } else {
        ParseError::ExpectedBody
    }
}

impl ParseError {
    /// The diagnostic text of this error.
    pub open spec fn text(self) -> Seq<char> {
        match self {
            ParseError::ExpectedFn => "expected the `fn` keyword"@,
            ParseError::ExpectedName => "expected a function name"@,
            ParseError::ExpectedParams => "expected a parenthesised parameter list"@,
            ParseError::ExpectedBody => "expected a brace-delimited function body"@,
        }
    }

    pub fn message(&self) -> (r: &'static str)
        ensures
            r@ == self.text(),
    {
        match self {
            ParseError::ExpectedFn => "expected the `fn` keyword",
            ParseError::ExpectedName => "expected a function name",
            ParseError::ExpectedParams => "expected a parenthesised parameter list",
            ParseError::ExpectedBody => "expected a brace-delimited function body",
        }
    }
}

/// Finds the close token that [`match_close`] names, starting at `start`
/// with no group open.
fn find_match(input: &Vec<Tok>, start: usize) -> (r: Option<usize>)
    requires
        start <= input.len(),
    ensures
        r matches Some(j) ==> start <= j < input.len() && match_close(
            input.deep_view(),
            start as int,
            0,
        ) == Some(j as int),
        r is None ==> match_close(input.deep_view(), start as int, 0) is None,
{
    let ghost t = input.deep_view();
    let n = input.len();
    let mut j = start;
    let mut opens: usize = 0;
    let mut closes: usize = 0;
    loop
        invariant
            start <= j <= n,
            n == input.len(),
            t == input.deep_view(),
            t.len() == n,
            closes <= opens <= j,
            match_close(t, start as int, 0) == match_close(t, j as int, (opens - closes) as nat),
        decreases n - j,
    {
        if j >= n {
            proof {
                assert(match_close(t, j as int, (opens - closes) as nat) is None);
            }
            return None;
        }
        let cur = &input[j];
        proof {
            assert(t[j as int] == cur@);
        }
        if tok_is_any_close(cur) {
            if opens == closes {
                proof {
                    assert(match_close(t, j as int, 0) == Some(j as int));
                }
                return Some(j);
            } else {
                closes = closes + 1;
                j = j + 1;
            }
        } else if tok_is_any_open(cur) {
            opens = opens + 1;
            j = j + 1;
        } else {
            j = j + 1;
        }
    }
}

/// Finds the body-opening brace that [`find_body_open`] names.
fn find_body(input: &Vec<Tok>, start: usize) -> (r: Option<usize>)
    requires
        start <= input.len(),
    ensures
        r matches Some(b) ==> start <= b < input.len() && find_body_open(
            input.deep_view(),
            start as int,
        ) == Some(b as int),
        r is None ==> find_body_open(input.deep_view(), start as int) is None,
{
    let ghost t = input.deep_view();
    let n = input.len();
    let mut j = start;
    loop
        invariant
            start <= j <= n,
            n == input.len(),
            t == input.deep_view(),
            t.len() == n,
            find_body_open(t, start as int) == find_body_open(t, j as int),
        decreases n - j,
    {
        if j >= n {
            return None;
        }
        let cur = &input[j];
        proof {
            assert(t[j as int] == cur@);
        }
        if tok_is_open(cur, Delim::Brace) {
            return Some(j);
        } else if tok_is_any_open(cur) {
            match find_match(input, j + 1) {
                Some(k) => {
                    proof {
                        lemma_match_close_bounds(t, j as int + 1, 0);
                    }
                    j = k + 1;
                },
                None => {
                    return None;
                },
            }
        } else if tok_is_any_close(cur) {
            return None;
        } else {
            j = j + 1;
        }
    }
}

/// Splits a body into its statements: tokens are accumulated into a pending
/// statement, and each semicolon outside every delimited group seals it.  The
/// concatenation of the result is exactly the input (see
/// [`crate::grammar::lemma_split_round_trip`]).
pub fn split_stmts(body: &Vec<Tok>) -> (r: Vec<Vec<Tok>>)
    ensures
        r.deep_view() == spec_split(body.deep_view()),
{
    let ghost t = body.deep_view();
    let n = body.len();
    let mut stmts: Vec<Vec<Tok>> = Vec::new();
    let mut buf: Vec<Tok> = Vec::new();
    let mut seg_start: usize = 0;
    let mut i: usize = 0;
    let mut opens: usize = 0;
    let mut closes: usize = 0;
    proof {
        assert(t.subrange(0, n as int) =~= t);
        assert(stmts.deep_view() =~= Seq::<Seq<TokV>>::empty());
        assert(Seq::<Seq<TokV>>::empty() + spec_split(t) =~= spec_split(t));
        assert(buf.deep_view() =~= t.subrange(0, 0));
    }
    while i < n
        invariant
            seg_start <= i <= n,
            n == body.len(),
            t == body.deep_view(),
            t.len() == n,
            opens <= i,
            closes <= i,
            buf.deep_view() == t.subrange(seg_start as int, i as int),
            spec_split(t) == stmts.deep_view() + spec_split(
                t.subrange(seg_start as int, n as int),
            ),
            scan_semi(t.subrange(seg_start as int, n as int), 0, 0) == scan_semi(
                t.subrange(seg_start as int, n as int),
                i - seg_start,
                opens as int - closes as int,
            ),
        decreases n - i,
    {
        let cur = &body[i];
        let ghost rest = t.subrange(seg_start as int, n as int);
        let ghost k = i - seg_start;
        proof {
            assert(rest[k] == t[i as int]);
            assert(t[i as int] == cur@);
        }
        if tok_is_punct(cur, ';') && opens == closes {
            push_tok(&mut buf, cur.dup());
            let ghost sealed = buf.deep_view();
            proof {
                assert(scan_semi(rest, k, 0) == k);
                assert(sealed =~= rest.subrange(0, k + 1));
                assert(rest.subrange(k + 1, rest.len() as int) =~= t.subrange(
                    i + 1,
                    n as int,
                ));
                assert(spec_split(rest) == seq![rest.subrange(0, k + 1)] + spec_split(
                    rest.subrange(k + 1, rest.len() as int),
                ));
            }
            let ghost stmts_before = stmts.deep_view();
            stmts.push(buf);
            proof {
                assert(stmts.deep_view() =~= stmts_before.push(sealed));
                assert(stmts_before.push(sealed) =~= stmts_before + seq![sealed]);
                assert((stmts_before + seq![rest.subrange(0, k + 1)]) + spec_split(
                    t.subrange(i + 1, n as int),
                ) =~= stmts_before + (seq![rest.subrange(0, k + 1)] + spec_split(
                    t.subrange(i + 1, n as int),
                )));
            }
            buf = Vec::new();
            i = i + 1;
            seg_start = i;
            opens = 0;
            closes = 0;
            proof {
                assert(buf.deep_view() =~= t.subrange(seg_start as int, i as int));
            }
        } else {
            let ghost d = opens as int - closes as int;
            push_tok(&mut buf, cur.dup());
            if tok_is_any_open(cur) {
                opens = opens + 1;
            } else if tok_is_any_close(cur) {
                closes = closes + 1;
            }
            proof {
                assert(!(is_semi(rest[k]) && d == 0));
                assert(scan_semi(rest, k, d) == scan_semi(rest, k + 1, d + depth_delta(rest[k])));
                assert(opens as int - closes as int == d + depth_delta(rest[k]));
                assert(buf.deep_view() =~= t.subrange(seg_start as int, i + 1));
            }
            i = i + 1;
        }
    }
    let ghost rest = t.subrange(seg_start as int, n as int);
    if buf.len() > 0 {
        proof {
            assert(rest.len() > 0);
            assert(scan_semi(rest, rest.len() as int, opens as int - closes as int)
                == rest.len() as int);
            assert(spec_split(rest) == seq![rest]);
        }
        let ghost stmts_before = stmts.deep_view();
        let ghost sealed = buf.deep_view();
        stmts.push(buf);
        proof {
            assert(stmts.deep_view() =~= stmts_before.push(sealed));
            assert(sealed == rest);
            assert(stmts_before.push(rest) =~= stmts_before + seq![rest]);
        }
    } else {
        proof {
            assert(rest.len() == 0);
            assert(spec_split(rest) =~= Seq::<Seq<TokV>>::empty());
            assert(stmts.deep_view() + Seq::<Seq<TokV>>::empty() =~= stmts.deep_view());
        }
    }
    stmts
}

/// Recognises one outer attribute `# [ ... ]` starting at `i`, returning the
/// position just past it.
fn try_outer_attr(input: &Vec<Tok>, i: usize) -> (r: Option<usize>)
    requires
        i <= input.len(),
    ensures
        r matches Some(j) ==> i < j <= input.len() && outer_attr_end(input.deep_view(), i as int)
            == Some(j as int),
        r is None ==> outer_attr_end(input.deep_view(), i as int) is None,
{
    let ghost t = input.deep_view();
    let n = input.len();
    if n - i > 1 && tok_is_punct(&input[i], '#') && tok_is_open(&input[i + 1], Delim::Bracket) {
        match find_match(input, i + 2) {
            Some(j) => {
                if tok_is_close(&input[j], Delim::Bracket) {
                    Some(j + 1)
                } else {
                    None
                }
            },
            None => None,
        }
    } else {
        None
    }
}

/// Recognises one inner attribute `# ! [ ... ]` starting at `i` of the body,
/// returning the position just past it.
fn try_inner_attr(body: &Vec<Tok>, i: usize) -> (r: Option<usize>)
    requires
        i <= body.len(),
    ensures
        r matches Some(j) ==> i < j <= body.len() && inner_attr_end(body.deep_view(), i as int)
            == Some(j as int),
        r is None ==> inner_attr_end(body.deep_view(), i as int) is None,
{
    let ghost t = body.deep_view();
    let n = body.len();
    if n - i > 2 && tok_is_punct(&body[i], '#') && tok_is_punct(&body[i + 1], '!') && tok_is_open(
        &body[i + 2],
        Delim::Bracket,
    ) {
        match find_match(body, i + 3) {
            Some(j) => {
                if tok_is_close(&body[j], Delim::Bracket) {
                    Some(j + 1)
                } else {
                    None
                }
            },
            None => None,
        }
    } else {
        None
    }
}

/// Appends every statement's tokens, in order.
pub fn extend_flat(out: &mut Vec<Tok>, stmts: &Vec<Vec<Tok>>)
    ensures
        final(out).deep_view() == old(out).deep_view() + stmts.deep_view().flatten(),
{
    let ghost before = out.deep_view();
    let ghost sv = stmts.deep_view();
    proof {
        assert(sv.subrange(0, 0) =~= Seq::<Seq<TokV>>::empty());
        assert(Seq::<Seq<TokV>>::empty().flatten() =~= Seq::<TokV>::empty());
        assert(before + Seq::<TokV>::empty() =~= before);
    }
    let mut k: usize = 0;
    while k < stmts.len()
        invariant
            k <= stmts.len(),
            sv == stmts.deep_view(),
            out.deep_view() == before + sv.subrange(0, k as int).flatten(),
        decreases stmts.len() - k,
    {
        extend_toks(out, &stmts[k]);
        proof {
            let a = sv.subrange(0, k as int);
            assert(sv.subrange(0, k as int + 1) =~= a.push(sv[k as int]));
            a.lemma_flatten_push(sv[k as int]);
            assert(stmts[k as int].deep_view() == sv[k as int]);
            assert(before + a.flatten() + sv[k as int] =~= before + (a.flatten() + sv[k as int]));
        }
        k = k + 1;
    }
    proof {
        assert(sv.subrange(0, sv.len() as int) =~= sv);
    }
}

/// The parsed representation of the annotated function: attributes outside
/// and inside the body, visibility and signature pieces kept verbatim, and
/// the body's statement sequence.
#[derive(PartialEq, Eq, Debug)]
pub struct ItemFn {
    pub outer_attrs: Vec<Vec<Tok>>,
    pub vis: Vec<Tok>,
    pub name: String,
    pub params: Vec<Tok>,
    pub ret: Vec<Tok>,
    pub inner_attrs: Vec<Vec<Tok>>,
    pub stmts: Vec<Vec<Tok>>,
}

impl View for ItemFn {
    type V = ItemFnV;

    open spec fn view(&self) -> ItemFnV {
        ItemFnV {
            outer_attrs: self.outer_attrs.deep_view().flatten(),
            vis: self.vis.deep_view(),
            name: self.name@,
            params: self.params.deep_view(),
            ret: self.ret.deep_view(),
            inner_attrs: self.inner_attrs.deep_view().flatten(),
            stmts: self.stmts.deep_view(),
        }
    }
}

/// A view over the statement sequence used to re-surround it with braces
/// during re-emission.
pub struct Body<'a> {
    pub stmts: &'a Vec<Vec<Tok>>,
}

impl<'a> Body<'a> {
    /// Appends `{`, the statements in order, and `}`.
    pub fn to_tokens(&self, tokens: &mut Vec<Tok>)
        ensures
            final(tokens).deep_view() == old(tokens).deep_view() + seq![
                TokV::Open(Delim::Brace),
            ] + self.stmts.deep_view().flatten() + seq![TokV::Close(Delim::Brace)],
    {
        push_tok(tokens, Tok::Open(Delim::Brace));
        extend_flat(tokens, self.stmts);
        push_tok(tokens, Tok::Close(Delim::Brace));
        proof {
            assert(tokens.deep_view() =~= old(tokens).deep_view() + seq![
                TokV::Open(Delim::Brace),
            ] + self.stmts.deep_view().flatten() + seq![TokV::Close(Delim::Brace)]);
        }
    }
}

impl ItemFn {
    /// All attributes of the function item, outer then inner.
    pub fn attrs(&self) -> (r: Vec<Vec<Tok>>)
        ensures
            r.deep_view() == self.outer_attrs.deep_view() + self.inner_attrs.deep_view(),
    {
        let mut r: Vec<Vec<Tok>> = Vec::new();
        let ghost ov = self.outer_attrs.deep_view();
        let ghost iv = self.inner_attrs.deep_view();
        let mut k: usize = 0;
        while k < self.outer_attrs.len()
            invariant
                k <= self.outer_attrs.len(),
                ov == self.outer_attrs.deep_view(),
                r.deep_view() == ov.subrange(0, k as int),
            decreases self.outer_attrs.len() - k,
        {
            let mut one: Vec<Tok> = Vec::new();
            extend_toks(&mut one, &self.outer_attrs[k]);
            r.push(one);
            proof {
                assert(r.deep_view() =~= ov.subrange(0, k as int).push(ov[k as int]));
                assert(ov.subrange(0, k as int).push(ov[k as int]) =~= ov.subrange(
                    0,
                    k as int + 1,
                ));
            }
            k = k + 1;
        }
        proof {
            assert(ov.subrange(0, ov.len() as int) =~= ov);
        }
        let mut k2: usize = 0;
        while k2 < self.inner_attrs.len()
            invariant
                k2 <= self.inner_attrs.len(),
                ov == self.outer_attrs.deep_view(),
                iv == self.inner_attrs.deep_view(),
                r.deep_view() == ov + iv.subrange(0, k2 as int),
            decreases self.inner_attrs.len() - k2,
        {
            let mut one: Vec<Tok> = Vec::new();
            extend_toks(&mut one, &self.inner_attrs[k2]);
            r.push(one);
            proof {
                assert(r.deep_view() =~= (ov + iv.subrange(0, k2 as int)).push(iv[k2 as int]));
                assert((ov + iv.subrange(0, k2 as int)).push(iv[k2 as int]) =~= ov + iv.subrange(
                    0,
                    k2 as int + 1,
                ));
            }
            k2 = k2 + 1;
        }
        proof {
            assert(iv.subrange(0, iv.len() as int) =~= iv);
            assert(r.deep_view() =~= ov + iv);
        }
        r
    }

    /// The body of the function item, ready for re-emission between braces.
    pub fn body(&self) -> (r: Body<'_>)
        ensures
            r.stmts.deep_view() == self.stmts.deep_view(),
    {
        Body { stmts: &self.stmts }
    }

    /// Parses a token sequence as a function item.  Succeeds exactly on the
    /// sequences the grammar accepts, and then returns their parse; rejected
    /// sequences yield the error that `spec_error` names.
    pub fn parse(input: &Vec<Tok>) -> (r: Result<ItemFn, ParseError>)
        ensures
            r matches Ok(f) ==> parse_ok(input.deep_view()) && f@ == spec_parse(
                input.deep_view(),
            ),
            r matches Err(e) ==> !parse_ok(input.deep_view()) && e == spec_error(
                input.deep_view(),
            ),
    {
        let ghost t = input.deep_view();
        let n = input.len();

        // outer attributes
        let mut outer_attrs: Vec<Vec<Tok>> = Vec::new();
        let mut i: usize = 0;
        proof {
            assert(outer_attrs.deep_view() =~= Seq::<Seq<TokV>>::empty());
            assert(Seq::<Seq<TokV>>::empty().flatten() =~= Seq::<TokV>::empty());
            assert(Seq::<TokV>::empty() =~= t.subrange(0, 0));
        }
        loop
            invariant
                i <= n,
                n == input.len(),
                t == input.deep_view(),
                t.len() == n,
                outer_attrs_end(t, 0) == outer_attrs_end(t, i as int),
                outer_attrs.deep_view().flatten() == t.subrange(0, i as int),
            ensures
                i <= n,
                i as int == outer_attrs_end(t, 0),
                outer_attrs.deep_view().flatten() == t.subrange(0, i as int),
            decreases n - i,
        {
            match try_outer_attr(input, i) {
                Some(j) => {
                    let attr = dup_range(input, i, j);
                    let ghost before = outer_attrs.deep_view();
                    outer_attrs.push(attr);
                    proof {
                        assert(outer_attrs.deep_view() =~= before.push(
                            t.subrange(i as int, j as int),
                        ));
                        before.lemma_flatten_push(t.subrange(i as int, j as int));
                        assert(t.subrange(0, i as int) + t.subrange(i as int, j as int)
                            =~= t.subrange(0, j as int));
                    }
                    i = j;
                },
                None => {
                    proof {
                        assert(outer_attrs_end(t, i as int) == i as int);
                    }
                    break;
                },
            }
        }
        let ghost a = i as int;
        proof {
            assert(a == vis_at(t));
        }

        // visibility
        let mut vis: Vec<Tok> = Vec::new();
        if i < n && tok_is_kw(&input[i], "pub") {
            let mut took_group = false;
            if i + 1 < n && tok_is_open(&input[i + 1], Delim::Paren) {
                match find_match(input, i + 2) {
                    Some(j) => {
                        if tok_is_close(&input[j], Delim::Paren) {
                            vis = dup_range(input, i, j + 1);
                            i = j + 1;
                            took_group = true;
                        }
                    },
                    None => {},
                }
            }
            if !took_group {
                vis = dup_range(input, i, i + 1);
                i = i + 1;
            }
        }
        let ghost v = i as int;
        proof {
            assert(v == vis_end(t, a));
            assert(v == fn_at(t));
            assert(vis.deep_view() == t.subrange(a, v));
        }

        // `fn` keyword
        if !(i < n && tok_is_kw(&input[i], "fn")) {
            proof {
                assert(!has_fn_kw(t));
                assert(!parse_ok(t));
            }
            return Err(ParseError::ExpectedFn);
        }

        // name
        if !(i + 1 < n && tok_is_ident(&input[i + 1])) {
            proof {
                assert(!has_name(t));
                assert(!parse_ok(t));
            }
            return Err(ParseError::ExpectedName);
        }
        let name: String = match &input[i + 1] {
            Tok::Ident(s) => s.clone(),
            _ => {
                return Err(ParseError::ExpectedName);
            },
        };
        proof {
            assert(name@ == ident_text(t[v + 1]));
        }

        // parameter list
        if !(i + 2 < n && tok_is_open(&input[i + 2], Delim::Paren)) {
            proof {
                assert(params_close_at(t) is None);
                assert(!parse_ok(t));
            }
            return Err(ParseError::ExpectedParams);
        }
        let p = match find_match(input, i + 3) {
            Some(p) => {
                if tok_is_close(&input[p], Delim::Paren) {
                    p
                } else {
                    proof {
                        assert(params_close_at(t) is None);
                        assert(!parse_ok(t));
                    }
                    return Err(ParseError::ExpectedParams);
                }
            },
            None => {
                proof {
                    assert(params_close_at(t) is None);
                    assert(!parse_ok(t));
                }
                return Err(ParseError::ExpectedParams);
            },
        };
        proof {
            assert(params_close_at(t) == Some(p as int));
        }
        let params = dup_range(input, i + 3, p);

        // body braces
        let b = match find_body(input, p + 1) {
            Some(b) => b,
            None => {
                proof {
                    assert(body_open_at(t) is None);
                    assert(!parse_ok(t));
                }
                return Err(ParseError::ExpectedBody);
            },
        };
        let c = match find_match(input, b + 1) {
            Some(c) => c,
            None => {
                proof {
                    assert(body_close_at(t) is None);
                    assert(!parse_ok(t));
                }
                return Err(ParseError::ExpectedBody);
            },
        };
        if !(tok_is_close(&input[c], Delim::Brace) && c == n - 1) {
            proof {
                assert(!parse_ok(t));
            }
            return Err(ParseError::ExpectedBody);
        }
        proof {
            assert(body_open_at(t) == Some(b as int));
            assert(body_close_at(t) == Some(c as int));
            assert(parse_ok(t));
        }
        let ret = dup_range(input, p + 1, b);
        let body_toks = dup_range(input, b + 1, c);
        let ghost bv = body_toks.deep_view();
        proof {
            assert(bv == spec_body(t));
        }

        // inner attributes
        let mut inner_attrs: Vec<Vec<Tok>> = Vec::new();
        let mut k: usize = 0;
        proof {
            assert(inner_attrs.deep_view() =~= Seq::<Seq<TokV>>::empty());
            assert(Seq::<Seq<TokV>>::empty().flatten() =~= Seq::<TokV>::empty());
            assert(Seq::<TokV>::empty() =~= bv.subrange(0, 0));
        }
        loop
            invariant
                k <= body_toks.len(),
                bv == body_toks.deep_view(),
                inner_attrs_end(bv, 0) == inner_attrs_end(bv, k as int),
                inner_attrs.deep_view().flatten() == bv.subrange(0, k as int),
            ensures
                k <= body_toks.len(),
                k as int == inner_attrs_end(bv, 0),
                inner_attrs.deep_view().flatten() == bv.subrange(0, k as int),
            decreases body_toks.len() - k,
        {
            match try_inner_attr(&body_toks, k) {
                Some(j) => {
                    let attr = dup_range(&body_toks, k, j);
                    let ghost before = inner_attrs.deep_view();
                    inner_attrs.push(attr);
                    proof {
                        assert(inner_attrs.deep_view() =~= before.push(
                            bv.subrange(k as int, j as int),
                        ));
                        before.lemma_flatten_push(bv.subrange(k as int, j as int));
                        assert(bv.subrange(0, k as int) + bv.subrange(k as int, j as int)
                            =~= bv.subrange(0, j as int));
                    }
                    k = j;
                },
                None => {
                    proof {
                        assert(inner_attrs_end(bv, k as int) == k as int);
                    }
                    break;
                },
            }
        }

        // statements
        let rest = dup_range(&body_toks, k, body_toks.len());
        let stmts = split_stmts(&rest);

        let item = ItemFn { outer_attrs, vis, name, params, ret, inner_attrs, stmts };
        proof {
            assert(item@.outer_attrs == spec_parse(t).outer_attrs);
            assert(item@.vis == spec_parse(t).vis);
            assert(item@.name == spec_parse(t).name);
            assert(item@.params == spec_parse(t).params);
            assert(item@.ret == spec_parse(t).ret);
            assert(item@.inner_attrs == spec_parse(t).inner_attrs);
            assert(item@.stmts == spec_parse(t).stmts);
        }
        Ok(item)
    }
}

/// The given text surrounded by double quotes, as a literal's source text.
pub open spec fn quoted(s: Seq<char>) -> Seq<char> {
    seq!['"'] + s + seq!['"']
}

/// The compiler-diagnostic tokens appended on a parse failure:
/// `::core::compile_error! { "MESSAGE" }`.
pub open spec fn spec_diag(e: ParseError) -> Seq<TokV> {
    seq![
        TokV::Punct(':'),
        TokV::Punct(':'),
        TokV::Ident("core"@),
        TokV::Punct(':'),
        TokV::Punct(':'),
        TokV::Ident("compile_error"@),
        TokV::Punct('!'),
        TokV::Open(Delim::Brace),
        TokV::Lit(quoted(e.text())),
        TokV::Close(Delim::Brace),
    ]
}

/// Appends the diagnostic for `error` to the unmodified input tokens, so
/// that downstream tooling keeps the original item's information.
pub fn token_stream_with_error(tokens: Vec<Tok>, error: ParseError) -> (r: Vec<Tok>)
    ensures
        r.deep_view() == tokens.deep_view() + spec_diag(error),
{
    let ghost before = tokens.deep_view();
    let mut r = tokens;
    push_tok(&mut r, pt(':'));
    push_tok(&mut r, pt(':'));
    push_tok(&mut r, id("core"));
    push_tok(&mut r, pt(':'));
    push_tok(&mut r, pt(':'));
    push_tok(&mut r, id("compile_error"));
    push_tok(&mut r, pt('!'));
    push_tok(&mut r, opn(Delim::Brace));
    let mut q = String::from_str("\"");
    q.append(error.message());
    q.append("\"");
    proof {
        reveal_strlit("\"");
        assert(q@ =~= quoted(error.text()));
    }
    push_tok(&mut r, Tok::Lit(q));
    push_tok(&mut r, cls(Delim::Brace));
    proof {
        assert(r.deep_view() =~= before + spec_diag(error));
    }
    r
}

/// The whole expansion: the wrapped replacement on accepted input, the
/// input with a diagnostic appended on rejected input.
pub open spec fn spec_expand(t: Seq<TokV>) -> Seq<TokV> {
    if parse_ok(t) {
        crate::emit::spec_emit(spec_parse(t))
    } else {
        t + spec_diag(spec_error(t))
    }
}

/// The attribute's entry: the arguments are accepted and ignored; the item
/// is parsed and re-emitted wrapped, or handed back with a diagnostic.
pub fn main(_args: Vec<Tok>, item: Vec<Tok>) -> (r: Vec<Tok>)
    ensures
        r.deep_view() == spec_expand(item.deep_view()),
{
    match ItemFn::parse(&item) {
        Ok(f) => crate::emit::parse_knobs(f),
        Err(e) => token_stream_with_error(item, e),
    }
}

/// On rejected input the expansion stays close to the input: every input
/// token is kept, in order, as a prefix, and the appended diagnostic is
/// non-empty.
pub proof fn lemma_failure_preserves_input(t: Seq<TokV>)
    requires
        !parse_ok(t),
    ensures
        spec_expand(t).len() > t.len(),
        spec_expand(t).subrange(0, t.len() as int) == t,
{
    assert(spec_expand(t) == t + spec_diag(spec_error(t)));
    assert(spec_diag(spec_error(t)).len() == 10);
    assert((t + spec_diag(spec_error(t))).subrange(0, t.len() as int) =~= t);
}

} // verus!
