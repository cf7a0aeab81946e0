//! The code re-emitter: given a parsed function item, synthesizes the
//! replacement token stream.  The replacement keeps the attributes,
//! visibility and signature of the original, and wraps the original
//! statements so that, at runtime, they execute on a named worker thread
//! inside a panic-capturing boundary; every failure is shown through the
//! dialog collaborator and the function itself returns a success value.

use vstd::prelude::*;
use vstd::seq_lib::lemma_flatten_concat;
use crate::token::{Tok, TokV, Delim, push_tok, extend_toks, id, pt, lit, opn, cls};
use crate::entry::{ItemFn, extend_flat};
use crate::grammar::{ItemFnV, spec_parse, spec_body, parse_ok, vis_at, fn_at, params_close_at,
    body_open_at, body_close_at, lemma_match_close_bounds, lemma_find_body_open_bounds,
    lemma_outer_attrs_end_bounds, lemma_vis_end_bounds};

verus! {

/// The call that shows one dialog: `error_window::dialog::Message::new(ARG)
/// .title("Error").show().expect("Could not display dialog box");`
pub open spec fn spec_dialog_call(arg: Seq<TokV>) -> Seq<TokV> {
    seq![
        TokV::Ident("error_window"@),
        TokV::Punct(':'),
        TokV::Punct(':'),
        TokV::Ident("dialog"@),
        TokV::Punct(':'),
        TokV::Punct(':'),
        TokV::Ident("Message"@),
        TokV::Punct(':'),
        TokV::Punct(':'),
        TokV::Ident("new"@),
        TokV::Open(Delim::Paren),
    ] + arg + seq![
        TokV::Close(Delim::Paren),
        TokV::Punct('.'),
        TokV::Ident("title"@),
        TokV::Open(Delim::Paren),
        TokV::Lit("\"Error\""@),
        TokV::Close(Delim::Paren),
        TokV::Punct('.'),
        TokV::Ident("show"@),
        TokV::Open(Delim::Paren),
        TokV::Close(Delim::Paren),
        TokV::Punct('.'),
        TokV::Ident("expect"@),
        TokV::Open(Delim::Paren),
        TokV::Lit("\"Could not display dialog box\""@),
        TokV::Close(Delim::Paren),
        TokV::Punct(';'),
    ]
}

/// The inner closure and its error check: `let m = || RET { STMTS }; if let
/// Err(err) = m() { <dialog with err.to_string()> }`.  The closure is typed
/// with the declared return type so that a `return` inside the original body
/// keeps its early-return meaning.
pub open spec fn spec_catch_body(ret: Seq<TokV>, stmts_flat: Seq<TokV>) -> Seq<TokV> {
    seq![
        TokV::Ident("let"@),
        TokV::Ident("m"@),
        TokV::Punct('='),
        TokV::Punct('|'),
        TokV::Punct('|'),
    ] + ret + seq![TokV::Open(Delim::Brace)] + stmts_flat + seq![
        TokV::Close(Delim::Brace),
        TokV::Punct(';'),
        TokV::Ident("if"@),
        TokV::Ident("let"@),
        TokV::Ident("Err"@),
        TokV::Open(Delim::Paren),
        TokV::Ident("err"@),
        TokV::Close(Delim::Paren),
        TokV::Punct('='),
        TokV::Ident("m"@),
        TokV::Open(Delim::Paren),
        TokV::Close(Delim::Paren),
        TokV::Open(Delim::Brace),
    ] + spec_dialog_call(
        seq![
            TokV::Ident("err"@),
            TokV::Punct('.'),
            TokV::Ident("to_string"@),
            TokV::Open(Delim::Paren),
            TokV::Close(Delim::Paren),
        ],
    ) + seq![TokV::Close(Delim::Brace)]
}

/// The panic-payload interpretation, in priority order: an owned string
/// verbatim, a static string verbatim, else a generic message naming the
/// payload's dynamic type; the result is shown through the dialog call.
pub open spec fn spec_panic_handler() -> Seq<TokV> {
    seq![
        TokV::Ident("let"@),
        TokV::Ident("mut"@),
        TokV::Ident("er"@),
        TokV::Punct('='),
        TokV::Ident("format"@),
        TokV::Punct('!'),
        TokV::Open(Delim::Paren),
        TokV::Lit("\"{:?}\""@),
        TokV::Punct(','),
        TokV::Ident("err"@),
        TokV::Close(Delim::Paren),
        TokV::Punct(';'),
        TokV::Ident("if"@),
        TokV::Ident("let"@),
        TokV::Ident("Some"@),
        TokV::Open(Delim::Paren),
        TokV::Ident("s"@),
        TokV::Close(Delim::Paren),
        TokV::Punct('='),
        TokV::Ident("err"@),
        TokV::Punct('.'),
        TokV::Ident("downcast_ref"@),
        TokV::Punct(':'),
        TokV::Punct(':'),
        TokV::Punct('<'),
        TokV::Ident("String"@),
        TokV::Punct('>'),
        TokV::Open(Delim::Paren),
        TokV::Close(Delim::Paren),
        TokV::Open(Delim::Brace),
        TokV::Ident("er"@),
        TokV::Punct('='),
        TokV::Ident("format"@),
        TokV::Punct('!'),
        TokV::Open(Delim::Paren),
        TokV::Lit("\"{}\""@),
        TokV::Punct(','),
        TokV::Ident("s"@),
        TokV::Close(Delim::Paren),
        TokV::Punct(';'),
        TokV::Close(Delim::Brace),
        TokV::Ident("else"@),
        TokV::Ident("if"@),
        TokV::Ident("let"@),
        TokV::Ident("Some"@),
        TokV::Open(Delim::Paren),
        TokV::Ident("s"@),
        TokV::Close(Delim::Paren),
        TokV::Punct('='),
        TokV::Ident("err"@),
        TokV::Punct('.'),
        TokV::Ident("downcast_ref"@),
        TokV::Punct(':'),
        TokV::Punct(':'),
        TokV::Punct('<'),
        TokV::Punct('&'),
        TokV::Ident("str"@),
        TokV::Punct('>'),
        TokV::Open(Delim::Paren),
        TokV::Close(Delim::Paren),
        TokV::Open(Delim::Brace),
        TokV::Ident("er"@),
        TokV::Punct('='),
        TokV::Ident("format"@),
        TokV::Punct('!'),
        TokV::Open(Delim::Paren),
        TokV::Lit("\"{}\""@),
        TokV::Punct(','),
        TokV::Ident("s"@),
        TokV::Close(Delim::Paren),
        TokV::Punct(';'),
        TokV::Close(Delim::Brace),
        TokV::Ident("else"@),
        TokV::Open(Delim::Brace),
        TokV::Ident("er"@),
        TokV::Punct('='),
        TokV::Ident("format"@),
        TokV::Punct('!'),
        TokV::Open(Delim::Paren),
        TokV::Lit("\"Unknown panic type \\\"{:?}\\\"\""@),
        TokV::Punct(','),
        TokV::Ident("err"@),
        TokV::Punct('.'),
        TokV::Ident("type_id"@),
        TokV::Open(Delim::Paren),
        TokV::Close(Delim::Paren),
        TokV::Close(Delim::Paren),
        TokV::Close(Delim::Brace),
    ] + spec_dialog_call(seq![TokV::Ident("er"@)])
}

/// The worker thread's task: run the inner closure behind
/// `std::panic::catch_unwind` and interpret a propagating panic.
pub open spec fn spec_spawn_body(ret: Seq<TokV>, stmts_flat: Seq<TokV>) -> Seq<TokV> {
    seq![
        TokV::Ident("let"@),
        TokV::Ident("result"@),
        TokV::Punct('='),
        TokV::Ident("std"@),
        TokV::Punct(':'),
        TokV::Punct(':'),
        TokV::Ident("panic"@),
        TokV::Punct(':'),
        TokV::Punct(':'),
        TokV::Ident("catch_unwind"@),
        TokV::Open(Delim::Paren),
        TokV::Punct('|'),
        TokV::Punct('|'),
        TokV::Open(Delim::Brace),
    ] + spec_catch_body(ret, stmts_flat) + seq![
        TokV::Close(Delim::Brace),
        TokV::Close(Delim::Paren),
        TokV::Punct(';'),
        TokV::Ident("if"@),
        TokV::Ident("let"@),
        TokV::Ident("Err"@),
        TokV::Open(Delim::Paren),
        TokV::Ident("err"@),
        TokV::Close(Delim::Paren),
        TokV::Punct('='),
        TokV::Ident("result"@),
        TokV::Open(Delim::Brace),
    ] + spec_panic_handler() + seq![TokV::Close(Delim::Brace)]
}

/// The replacement function body: spawn the named worker thread, run the
/// wrapped statements on it, join, report a join failure through the dialog,
/// and return a success value unconditionally.
pub open spec fn spec_gen_head() -> Seq<TokV> {
    seq![
        TokV::Ident("let"@),
        TokV::Ident("builder"@),
        TokV::Punct('='),
        TokV::Ident("std"@),
        TokV::Punct(':'),
        TokV::Punct(':'),
        TokV::Ident("thread"@),
        TokV::Punct(':'),
        TokV::Punct(':'),
        TokV::Ident("Builder"@),
        TokV::Punct(':'),
        TokV::Punct(':'),
        TokV::Ident("new"@),
        TokV::Open(Delim::Paren),
        TokV::Close(Delim::Paren),
        TokV::Punct('.'),
        TokV::Ident("name"@),
        TokV::Open(Delim::Paren),
        TokV::Lit("\"Main thread\""@),
        TokV::Punct('.'),
        TokV::Ident("to_string"@),
        TokV::Open(Delim::Paren),
        TokV::Close(Delim::Paren),
        TokV::Close(Delim::Paren),
        TokV::Punct(';'),
        TokV::Ident("let"@),
        TokV::Ident("thread_handle"@),
        TokV::Punct('='),
        TokV::Ident("builder"@),
        TokV::Punct('.'),
        TokV::Ident("spawn"@),
        TokV::Open(Delim::Paren),
        TokV::Ident("move"@),
        TokV::Punct('|'),
        TokV::Punct('|'),
        TokV::Open(Delim::Brace),
    ]
}

/// Between the worker closure and the join-failure check.
pub open spec fn spec_gen_mid() -> Seq<TokV> {
    seq![
        TokV::Close(Delim::Brace),
        TokV::Close(Delim::Paren),
        TokV::Punct('.'),
        TokV::Ident("expect"@),
        TokV::Open(Delim::Paren),
        TokV::Lit("\"Asset loader thread spawn failed.\""@),
        TokV::Close(Delim::Paren),
        TokV::Punct(';'),
        TokV::Ident("let"@),
        TokV::Ident("stat"@),
        TokV::Punct('='),
        TokV::Ident("thread_handle"@),
        TokV::Punct('.'),
        TokV::Ident("join"@),
        TokV::Open(Delim::Paren),
        TokV::Close(Delim::Paren),
        TokV::Punct(';'),
        TokV::Ident("if"@),
        TokV::Ident("let"@),
        TokV::Ident("Err"@),
        TokV::Open(Delim::Paren),
        TokV::Ident("e"@),
        TokV::Close(Delim::Paren),
        TokV::Punct('='),
        TokV::Ident("stat"@),
        TokV::Open(Delim::Brace),
    ]
}

/// The rendering of a join failure, handed to the dialog call.
pub open spec fn spec_join_arg() -> Seq<TokV> {
    seq![
        TokV::Ident("format"@),
        TokV::Punct('!'),
        TokV::Open(Delim::Paren),
        TokV::Lit("\"Error: {:?}\""@),
        TokV::Punct(','),
        TokV::Ident("e"@),
        TokV::Close(Delim::Paren),
    ]
}

/// After the join-failure check: the unconditional success value.
pub open spec fn spec_gen_tail() -> Seq<TokV> {
    seq![
        TokV::Close(Delim::Brace),
        TokV::Ident("Ok"@),
        TokV::Open(Delim::Paren),
        TokV::Open(Delim::Paren),
        TokV::Close(Delim::Paren),
        TokV::Close(Delim::Paren),
    ]
}

pub open spec fn spec_gen_body(ret: Seq<TokV>, stmts_flat: Seq<TokV>) -> Seq<TokV> {
    spec_gen_head() + spec_spawn_body(ret, stmts_flat) + spec_gen_mid() + spec_dialog_call(
        spec_join_arg(),
    ) + spec_gen_tail()
}

/// The trailing import that the dialog calls rely on:
/// `use error_window::dialog::DialogBox;`
pub open spec fn spec_use_tail() -> Seq<TokV> {
    seq![
        TokV::Ident("use"@),
        TokV::Ident("error_window"@),
        TokV::Punct(':'),
        TokV::Punct(':'),
        TokV::Ident("dialog"@),
        TokV::Punct(':'),
        TokV::Punct(':'),
        TokV::Ident("DialogBox"@),
        TokV::Punct(';'),
    ]
}

/// The whole replacement stream: attributes (outer then inner) re-spliced
/// ahead, the original visibility and signature verbatim, the wrapped body,
/// and the trailing import.
pub open spec fn spec_emit(f: ItemFnV) -> Seq<TokV> {
    f.outer_attrs + f.inner_attrs + f.vis + seq![
        TokV::Ident("fn"@),
        TokV::Ident(f.name),
        TokV::Open(Delim::Paren),
    ] + f.params + seq![TokV::Close(Delim::Paren)] + f.ret + seq![TokV::Open(Delim::Brace)]
        + spec_gen_body(f.ret, f.stmts.flatten()) + seq![TokV::Close(Delim::Brace)]
        + spec_use_tail()
}

fn emit_dialog_call(out: &mut Vec<Tok>, arg: &Vec<Tok>)
    ensures
        final(out).deep_view() == old(out).deep_view() + spec_dialog_call(arg.deep_view()),
{
    let ghost before = out.deep_view();
    push_tok(out, id("error_window"));
    push_tok(out, pt(':'));
    push_tok(out, pt(':'));
    push_tok(out, id("dialog"));
    push_tok(out, pt(':'));
    push_tok(out, pt(':'));
    push_tok(out, id("Message"));
    push_tok(out, pt(':'));
    push_tok(out, pt(':'));
    push_tok(out, id("new"));
    push_tok(out, opn(Delim::Paren));
    extend_toks(out, arg);
    push_tok(out, cls(Delim::Paren));
    push_tok(out, pt('.'));
    push_tok(out, id("title"));
    push_tok(out, opn(Delim::Paren));
    push_tok(out, lit("\"Error\""));
    push_tok(out, cls(Delim::Paren));
    push_tok(out, pt('.'));
    push_tok(out, id("show"));
    push_tok(out, opn(Delim::Paren));
    push_tok(out, cls(Delim::Paren));
    push_tok(out, pt('.'));
    push_tok(out, id("expect"));
    push_tok(out, opn(Delim::Paren));
    push_tok(out, lit("\"Could not display dialog box\""));
    push_tok(out, cls(Delim::Paren));
    push_tok(out, pt(';'));
    proof {
        assert(out.deep_view() =~= before + spec_dialog_call(arg.deep_view()));
    }
}

fn emit_catch_body(out: &mut Vec<Tok>, ret: &Vec<Tok>, stmts_flat: &Vec<Tok>)
    ensures
        final(out).deep_view() == old(out).deep_view() + spec_catch_body(
            ret.deep_view(),
            stmts_flat.deep_view(),
        ),
{
    let ghost before = out.deep_view();
    push_tok(out, id("let"));
    push_tok(out, id("m"));
    push_tok(out, pt('='));
    push_tok(out, pt('|'));
    push_tok(out, pt('|'));
    extend_toks(out, ret);
    push_tok(out, opn(Delim::Brace));
    extend_toks(out, stmts_flat);
    push_tok(out, cls(Delim::Brace));
    push_tok(out, pt(';'));
    push_tok(out, id("if"));
    push_tok(out, id("let"));
    push_tok(out, id("Err"));
    push_tok(out, opn(Delim::Paren));
    push_tok(out, id("err"));
    push_tok(out, cls(Delim::Paren));
    push_tok(out, pt('='));
    push_tok(out, id("m"));
    push_tok(out, opn(Delim::Paren));
    push_tok(out, cls(Delim::Paren));
    push_tok(out, opn(Delim::Brace));
    let mut arg: Vec<Tok> = Vec::new();
    push_tok(&mut arg, id("err"));
    push_tok(&mut arg, pt('.'));
    push_tok(&mut arg, id("to_string"));
    push_tok(&mut arg, opn(Delim::Paren));
    push_tok(&mut arg, cls(Delim::Paren));
    emit_dialog_call(out, &arg);
    push_tok(out, cls(Delim::Brace));
    proof {
        assert(arg.deep_view() =~= seq![
            TokV::Ident("err"@),
            TokV::Punct('.'),
            TokV::Ident("to_string"@),
            TokV::Open(Delim::Paren),
            TokV::Close(Delim::Paren),
        ]);
        assert(out.deep_view() =~= before + spec_catch_body(
            ret.deep_view(),
            stmts_flat.deep_view(),
        ));
    }
}

#[verifier::rlimit(100)]
fn emit_panic_handler(out: &mut Vec<Tok>)
    ensures
        final(out).deep_view() == old(out).deep_view() + spec_panic_handler(),
{
    let ghost before = out.deep_view();
    push_tok(out, id("let"));
    push_tok(out, id("mut"));
    push_tok(out, id("er"));
    push_tok(out, pt('='));
    push_tok(out, id("format"));
    push_tok(out, pt('!'));
    push_tok(out, opn(Delim::Paren));
    push_tok(out, lit("\"{:?}\""));
    push_tok(out, pt(','));
    push_tok(out, id("err"));
    push_tok(out, cls(Delim::Paren));
    push_tok(out, pt(';'));
    push_tok(out, id("if"));
    push_tok(out, id("let"));
    push_tok(out, id("Some"));
    push_tok(out, opn(Delim::Paren));
    push_tok(out, id("s"));
    push_tok(out, cls(Delim::Paren));
    push_tok(out, pt('='));
    push_tok(out, id("err"));
    push_tok(out, pt('.'));
    push_tok(out, id("downcast_ref"));
    push_tok(out, pt(':'));
    push_tok(out, pt(':'));
    push_tok(out, pt('<'));
    push_tok(out, id("String"));
    push_tok(out, pt('>'));
    push_tok(out, opn(Delim::Paren));
    push_tok(out, cls(Delim::Paren));
    push_tok(out, opn(Delim::Brace));
    push_tok(out, id("er"));
    push_tok(out, pt('='));
    push_tok(out, id("format"));
    push_tok(out, pt('!'));
    push_tok(out, opn(Delim::Paren));
    push_tok(out, lit("\"{}\""));
    push_tok(out, pt(','));
    push_tok(out, id("s"));
    push_tok(out, cls(Delim::Paren));
    push_tok(out, pt(';'));
    push_tok(out, cls(Delim::Brace));
    push_tok(out, id("else"));
    push_tok(out, id("if"));
    push_tok(out, id("let"));
    push_tok(out, id("Some"));
    push_tok(out, opn(Delim::Paren));
    push_tok(out, id("s"));
    push_tok(out, cls(Delim::Paren));
    push_tok(out, pt('='));
    push_tok(out, id("err"));
    push_tok(out, pt('.'));
    push_tok(out, id("downcast_ref"));
    push_tok(out, pt(':'));
    push_tok(out, pt(':'));
    push_tok(out, pt('<'));
    push_tok(out, pt('&'));
    push_tok(out, id("str"));
    push_tok(out, pt('>'));
    push_tok(out, opn(Delim::Paren));
    push_tok(out, cls(Delim::Paren));
    push_tok(out, opn(Delim::Brace));
    push_tok(out, id("er"));
    push_tok(out, pt('='));
    push_tok(out, id("format"));
    push_tok(out, pt('!'));
    push_tok(out, opn(Delim::Paren));
    push_tok(out, lit("\"{}\""));
    push_tok(out, pt(','));
    push_tok(out, id("s"));
    push_tok(out, cls(Delim::Paren));
    push_tok(out, pt(';'));
    push_tok(out, cls(Delim::Brace));
    push_tok(out, id("else"));
    push_tok(out, opn(Delim::Brace));
    push_tok(out, id("er"));
    push_tok(out, pt('='));
    push_tok(out, id("format"));
    push_tok(out, pt('!'));
    push_tok(out, opn(Delim::Paren));
    push_tok(out, lit("\"Unknown panic type \\\"{:?}\\\"\""));
    push_tok(out, pt(','));
    push_tok(out, id("err"));
    push_tok(out, pt('.'));
    push_tok(out, id("type_id"));
    push_tok(out, opn(Delim::Paren));
    push_tok(out, cls(Delim::Paren));
    push_tok(out, cls(Delim::Paren));
    push_tok(out, cls(Delim::Brace));
    let mut arg: Vec<Tok> = Vec::new();
    push_tok(&mut arg, id("er"));
    emit_dialog_call(out, &arg);
    proof {
        assert(arg.deep_view() =~= seq![TokV::Ident("er"@)]);
        assert(out.deep_view() =~= before + spec_panic_handler());
    }
}

fn emit_spawn_body(out: &mut Vec<Tok>, ret: &Vec<Tok>, stmts_flat: &Vec<Tok>)
    ensures
        final(out).deep_view() == old(out).deep_view() + spec_spawn_body(
            ret.deep_view(),
            stmts_flat.deep_view(),
        ),
{
    let ghost before = out.deep_view();
    push_tok(out, id("let"));
    push_tok(out, id("result"));
    push_tok(out, pt('='));
    push_tok(out, id("std"));
    push_tok(out, pt(':'));
    push_tok(out, pt(':'));
    push_tok(out, id("panic"));
    push_tok(out, pt(':'));
    push_tok(out, pt(':'));
    push_tok(out, id("catch_unwind"));
    push_tok(out, opn(Delim::Paren));
    push_tok(out, pt('|'));
    push_tok(out, pt('|'));
    push_tok(out, opn(Delim::Brace));
    emit_catch_body(out, ret, stmts_flat);
    push_tok(out, cls(Delim::Brace));
    push_tok(out, cls(Delim::Paren));
    push_tok(out, pt(';'));
    push_tok(out, id("if"));
    push_tok(out, id("let"));
    push_tok(out, id("Err"));
    push_tok(out, opn(Delim::Paren));
    push_tok(out, id("err"));
    push_tok(out, cls(Delim::Paren));
    push_tok(out, pt('='));
    push_tok(out, id("result"));
    push_tok(out, opn(Delim::Brace));
    emit_panic_handler(out);
    push_tok(out, cls(Delim::Brace));
    proof {
        assert(out.deep_view() =~= before + spec_spawn_body(
            ret.deep_view(),
            stmts_flat.deep_view(),
        ));
    }
}

fn emit_gen_head(out: &mut Vec<Tok>)
    ensures
        final(out).deep_view() == old(out).deep_view() + spec_gen_head(),
{
    let ghost before = out.deep_view();
    push_tok(out, id("let"));
    push_tok(out, id("builder"));
    push_tok(out, pt('='));
    push_tok(out, id("std"));
    push_tok(out, pt(':'));
    push_tok(out, pt(':'));
    push_tok(out, id("thread"));
    push_tok(out, pt(':'));
    push_tok(out, pt(':'));
    push_tok(out, id("Builder"));
    push_tok(out, pt(':'));
    push_tok(out, pt(':'));
    push_tok(out, id("new"));
    push_tok(out, opn(Delim::Paren));
    push_tok(out, cls(Delim::Paren));
    push_tok(out, pt('.'));
    push_tok(out, id("name"));
    push_tok(out, opn(Delim::Paren));
    push_tok(out, lit("\"Main thread\""));
    push_tok(out, pt('.'));
    push_tok(out, id("to_string"));
    push_tok(out, opn(Delim::Paren));
    push_tok(out, cls(Delim::Paren));
    push_tok(out, cls(Delim::Paren));
    push_tok(out, pt(';'));
    push_tok(out, id("let"));
    push_tok(out, id("thread_handle"));
    push_tok(out, pt('='));
    push_tok(out, id("builder"));
    push_tok(out, pt('.'));
    push_tok(out, id("spawn"));
    push_tok(out, opn(Delim::Paren));
    push_tok(out, id("move"));
    push_tok(out, pt('|'));
    push_tok(out, pt('|'));
    push_tok(out, opn(Delim::Brace));
    proof {
        assert(out.deep_view() =~= before + spec_gen_head());
    }
}

fn emit_gen_mid(out: &mut Vec<Tok>)
    ensures
        final(out).deep_view() == old(out).deep_view() + spec_gen_mid(),
{
    let ghost before = out.deep_view();
    push_tok(out, cls(Delim::Brace));
    push_tok(out, cls(Delim::Paren));
    push_tok(out, pt('.'));
    push_tok(out, id("expect"));
    push_tok(out, opn(Delim::Paren));
    push_tok(out, lit("\"Asset loader thread spawn failed.\""));
    push_tok(out, cls(Delim::Paren));
    push_tok(out, pt(';'));
    push_tok(out, id("let"));
    push_tok(out, id("stat"));
    push_tok(out, pt('='));
    push_tok(out, id("thread_handle"));
    push_tok(out, pt('.'));
    push_tok(out, id("join"));
    push_tok(out, opn(Delim::Paren));
    push_tok(out, cls(Delim::Paren));
    push_tok(out, pt(';'));
    push_tok(out, id("if"));
    push_tok(out, id("let"));
    push_tok(out, id("Err"));
    push_tok(out, opn(Delim::Paren));
    push_tok(out, id("e"));
    push_tok(out, cls(Delim::Paren));
    push_tok(out, pt('='));
    push_tok(out, id("stat"));
    push_tok(out, opn(Delim::Brace));
    proof {
        assert(out.deep_view() =~= before + spec_gen_mid());
    }
}

fn emit_gen_body(out: &mut Vec<Tok>, ret: &Vec<Tok>, stmts_flat: &Vec<Tok>)
    ensures
        final(out).deep_view() == old(out).deep_view() + spec_gen_body(
            ret.deep_view(),
            stmts_flat.deep_view(),
        ),
{
    let ghost before = out.deep_view();
    emit_gen_head(out);
    emit_spawn_body(out, ret, stmts_flat);
    emit_gen_mid(out);
    let mut arg: Vec<Tok> = Vec::new();
    push_tok(&mut arg, id("format"));
    push_tok(&mut arg, pt('!'));
    push_tok(&mut arg, opn(Delim::Paren));
    push_tok(&mut arg, lit("\"Error: {:?}\""));
    push_tok(&mut arg, pt(','));
    push_tok(&mut arg, id("e"));
    push_tok(&mut arg, cls(Delim::Paren));
    proof {
        assert(arg.deep_view() =~= spec_join_arg());
    }
    emit_dialog_call(out, &arg);
    push_tok(out, cls(Delim::Brace));
    push_tok(out, id("Ok"));
    push_tok(out, opn(Delim::Paren));
    push_tok(out, opn(Delim::Paren));
    push_tok(out, cls(Delim::Paren));
    push_tok(out, cls(Delim::Paren));
    proof {
        assert(out.deep_view() =~= before + spec_gen_body(
            ret.deep_view(),
            stmts_flat.deep_view(),
        ));
    }
}

fn emit_use_tail(out: &mut Vec<Tok>)
    ensures
        final(out).deep_view() == old(out).deep_view() + spec_use_tail(),
{
    let ghost before = out.deep_view();
    push_tok(out, id("use"));
    push_tok(out, id("error_window"));
    push_tok(out, pt(':'));
    push_tok(out, pt(':'));
    push_tok(out, id("dialog"));
    push_tok(out, pt(':'));
    push_tok(out, pt(':'));
    push_tok(out, id("DialogBox"));
    push_tok(out, pt(';'));
    proof {
        assert(out.deep_view() =~= before + spec_use_tail());
    }
}

/// Re-emits the parsed function as its wrapped replacement, exactly the
/// stream that [`spec_emit`] describes.
pub fn parse_knobs(input: ItemFn) -> (r: Vec<Tok>)
    ensures
        r.deep_view() == spec_emit(input@),
{
    let mut out: Vec<Tok> = Vec::new();
    let attrs = input.attrs();
    extend_flat(&mut out, &attrs);
    proof {
        lemma_flatten_concat(input.outer_attrs.deep_view(), input.inner_attrs.deep_view());
        assert(out.deep_view() =~= input@.outer_attrs + input@.inner_attrs);
    }
    extend_toks(&mut out, &input.vis);
    push_tok(&mut out, id("fn"));
    push_tok(&mut out, Tok::Ident(input.name.clone()));
    push_tok(&mut out, opn(Delim::Paren));
    extend_toks(&mut out, &input.params);
    push_tok(&mut out, cls(Delim::Paren));
    extend_toks(&mut out, &input.ret);
    push_tok(&mut out, opn(Delim::Brace));
    let mut stmts_flat: Vec<Tok> = Vec::new();
    extend_flat(&mut stmts_flat, &input.stmts);
    emit_gen_body(&mut out, &input.ret, &stmts_flat);
    push_tok(&mut out, cls(Delim::Brace));
    emit_use_tail(&mut out);
    proof {
        assert(out.deep_view() =~= spec_emit(input@));
    }
    out
}

/// The signature region shared, verbatim, by the accepted input and the
/// re-emitted stream: visibility, `fn`, name, parenthesised parameters, and
/// return-type tokens.
pub open spec fn sig_toks(f: ItemFnV) -> Seq<TokV> {
    f.vis + seq![
        TokV::Ident("fn"@),
        TokV::Ident(f.name),
        TokV::Open(Delim::Paren),
    ] + f.params + seq![TokV::Close(Delim::Paren)] + f.ret
}

/// Re-emission preserves name, visibility, parameter list and return type
/// verbatim: every accepted input decomposes as its outer attributes, the
/// signature region, and the braced body, and the re-emitted stream carries
/// the same signature region unchanged between the re-spliced attributes and
/// the generated body.
pub proof fn lemma_emit_preserves_signature(t: Seq<TokV>)
    requires
        parse_ok(t),
    ensures
        t == spec_parse(t).outer_attrs + sig_toks(spec_parse(t)) + seq![
            TokV::Open(Delim::Brace),
        ] + spec_body(t) + seq![TokV::Close(Delim::Brace)],
        spec_emit(spec_parse(t)) == spec_parse(t).outer_attrs + spec_parse(t).inner_attrs
            + sig_toks(spec_parse(t)) + seq![TokV::Open(Delim::Brace)] + spec_gen_body(
            spec_parse(t).ret,
            spec_parse(t).stmts.flatten(),
        ) + seq![TokV::Close(Delim::Brace)] + spec_use_tail(),
{
    let f = spec_parse(t);
    let a = vis_at(t);
    let v = fn_at(t);
    let p = params_close_at(t)->Some_0;
    let b = body_open_at(t)->Some_0;
    let c = body_close_at(t)->Some_0;
    lemma_outer_attrs_end_bounds(t, 0);
    lemma_vis_end_bounds(t, a);
    lemma_match_close_bounds(t, v + 3, 0);
    lemma_find_body_open_bounds(t, p + 1);
    lemma_match_close_bounds(t, b + 1, 0);
    assert(t[v] == TokV::Ident("fn"@));
    assert(t[v + 1] == TokV::Ident(f.name));
    assert(t[v + 2] == TokV::Open(Delim::Paren));
    assert(t[p] == TokV::Close(Delim::Paren));
    assert(t[b] == TokV::Open(Delim::Brace));
    assert(t[c] == TokV::Close(Delim::Brace));
    assert(c == t.len() - 1);
    assert(t =~= f.outer_attrs + sig_toks(f) + seq![TokV::Open(Delim::Brace)] + spec_body(t)
        + seq![TokV::Close(Delim::Brace)]);
    assert(spec_emit(f) =~= f.outer_attrs + f.inner_attrs + sig_toks(f) + seq![
        TokV::Open(Delim::Brace),
    ] + spec_gen_body(f.ret, f.stmts.flatten()) + seq![TokV::Close(Delim::Brace)]
        + spec_use_tail());
}

} // verus!
