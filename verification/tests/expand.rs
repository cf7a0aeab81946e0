use error_window_macro::token::{cls, id, lit, opn, pt, Delim, Tok};
use error_window_macro::entry::{split_stmts, token_stream_with_error, ItemFn, ParseError};
use error_window_macro::emit::parse_knobs;
use error_window_macro::report::{
    join_failure_dialog, panic_message, reported_result, worker_dialog, PanicPayload, WorkerEvent,
};

/// Tokens of `{ let x = 1; nested({ a; b; }); x }`, braces not included.
fn sample_body() -> Vec<Tok> {
    vec![
        id("let"),
        id("x"),
        pt('='),
        lit("1"),
        pt(';'),
        id("nested"),
        opn(Delim::Paren),
        opn(Delim::Brace),
        id("a"),
        pt(';'),
        id("b"),
        pt(';'),
        cls(Delim::Brace),
        cls(Delim::Paren),
        pt(';'),
        id("x"),
    ]
}

/// Tokens of `pub fn run() -> Result<(), String> { let x = 1; x }`.
fn sample_fn() -> Vec<Tok> {
    vec![
        id("pub"),
        id("fn"),
        id("run"),
        opn(Delim::Paren),
        cls(Delim::Paren),
        pt('-'),
        pt('>'),
        id("Result"),
        pt('<'),
        opn(Delim::Paren),
        cls(Delim::Paren),
        pt(','),
        id("String"),
        pt('>'),
        opn(Delim::Brace),
        id("let"),
        id("x"),
        pt('='),
        lit("1"),
        pt(';'),
        id("x"),
        cls(Delim::Brace),
    ]
}

fn use_tail() -> Vec<Tok> {
    vec![
        id("use"),
        id("error_window"),
        pt(':'),
        pt(':'),
        id("dialog"),
        pt(':'),
        pt(':'),
        id("DialogBox"),
        pt(';'),
    ]
}

#[test]
fn splits_body_into_three_statements() {
    let stmts = split_stmts(&sample_body());
    assert_eq!(stmts.len(), 3);
    assert_eq!(stmts[0], vec![id("let"), id("x"), pt('='), lit("1"), pt(';')]);
    assert_eq!(
        stmts[1],
        vec![
            id("nested"),
            opn(Delim::Paren),
            opn(Delim::Brace),
            id("a"),
            pt(';'),
            id("b"),
            pt(';'),
            cls(Delim::Brace),
            cls(Delim::Paren),
            pt(';'),
        ]
    );
    assert_eq!(stmts[2], vec![id("x")]);
}

#[test]
fn split_concatenation_restores_body() {
    let body = sample_body();
    let stmts = split_stmts(&body);
    let mut rejoined: Vec<Tok> = Vec::new();
    for s in &stmts {
        for t in s {
            rejoined.push(t.dup());
        }
    }
    assert_eq!(rejoined, body);
}

#[test]
fn nested_semicolons_do_not_split() {
    let body = vec![
        id("nested"),
        opn(Delim::Paren),
        opn(Delim::Brace),
        id("a"),
        pt(';'),
        id("b"),
        pt(';'),
        cls(Delim::Brace),
        cls(Delim::Paren),
        pt(';'),
    ];
    let stmts = split_stmts(&body);
    assert_eq!(stmts.len(), 1);
    assert_eq!(stmts[0], body);
}

#[test]
fn parses_valid_function() {
    let item = ItemFn::parse(&sample_fn()).unwrap();
    assert_eq!(item.name, "run");
    assert_eq!(item.vis, vec![id("pub")]);
    assert!(item.outer_attrs.is_empty());
    assert!(item.inner_attrs.is_empty());
    assert!(item.params.is_empty());
    assert_eq!(
        item.ret,
        vec![
            pt('-'),
            pt('>'),
            id("Result"),
            pt('<'),
            opn(Delim::Paren),
            cls(Delim::Paren),
            pt(','),
            id("String"),
            pt('>'),
        ]
    );
    assert_eq!(item.stmts.len(), 2);
    assert_eq!(item.stmts[0], vec![id("let"), id("x"), pt('='), lit("1"), pt(';')]);
    assert_eq!(item.stmts[1], vec![id("x")]);
}

#[test]
fn parses_attributes_and_scoped_visibility() {
    // #[inline] pub(crate) fn f() { #![allow(dead_code)] g(); }
    let toks = vec![
        pt('#'),
        opn(Delim::Bracket),
        id("inline"),
        cls(Delim::Bracket),
        id("pub"),
        opn(Delim::Paren),
        id("crate"),
        cls(Delim::Paren),
        id("fn"),
        id("f"),
        opn(Delim::Paren),
        cls(Delim::Paren),
        opn(Delim::Brace),
        pt('#'),
        pt('!'),
        opn(Delim::Bracket),
        id("allow"),
        opn(Delim::Paren),
        id("dead_code"),
        cls(Delim::Paren),
        cls(Delim::Bracket),
        id("g"),
        opn(Delim::Paren),
        cls(Delim::Paren),
        pt(';'),
        cls(Delim::Brace),
    ];
    let item = ItemFn::parse(&toks).unwrap();
    assert_eq!(item.outer_attrs.len(), 1);
    assert_eq!(
        item.outer_attrs[0],
        vec![pt('#'), opn(Delim::Bracket), id("inline"), cls(Delim::Bracket)]
    );
    assert_eq!(
        item.vis,
        vec![id("pub"), opn(Delim::Paren), id("crate"), cls(Delim::Paren)]
    );
    assert_eq!(item.name, "f");
    assert_eq!(item.inner_attrs.len(), 1);
    assert_eq!(item.stmts.len(), 1);
    assert_eq!(
        item.stmts[0],
        vec![id("g"), opn(Delim::Paren), cls(Delim::Paren), pt(';')]
    );

    // The attributes are re-spliced ahead of the emitted function, outer
    // then inner, followed by the visibility and signature verbatim.
    let all_attrs = item.attrs();
    assert_eq!(all_attrs.len(), 2);
    let out = parse_knobs(item);
    let mut expected_prefix: Vec<Tok> = Vec::new();
    for a in &all_attrs {
        for t in a {
            expected_prefix.push(t.dup());
        }
    }
    expected_prefix.extend(vec![
        id("pub"),
        opn(Delim::Paren),
        id("crate"),
        cls(Delim::Paren),
        id("fn"),
        id("f"),
        opn(Delim::Paren),
        cls(Delim::Paren),
        opn(Delim::Brace),
    ]);
    assert_eq!(&out[..expected_prefix.len()], &expected_prefix[..]);
}

#[test]
fn emission_preserves_signature() {
    let item = ItemFn::parse(&sample_fn()).unwrap();
    let out = parse_knobs(item);
    // No attributes, so the stream opens with the signature verbatim.
    let expected_sig: Vec<Tok> = sample_fn()[..14].to_vec();
    assert_eq!(&out[..14], &expected_sig[..]);
    // The wrapped body opens right after the return type.
    assert_eq!(out[14], opn(Delim::Brace));
    // The replacement ends with the dialog import.
    let tail = use_tail();
    assert_eq!(&out[out.len() - tail.len()..], &tail[..]);
}

#[test]
fn emission_wraps_with_thread_and_panic_boundary() {
    let item = ItemFn::parse(&sample_fn()).unwrap();
    let body = sample_fn()[15..21].to_vec();
    let out = parse_knobs(item);
    assert!(out.contains(&lit("\"Main thread\"")));
    assert!(out.contains(&id("catch_unwind")));
    assert!(out.contains(&id("spawn")));
    assert!(out.contains(&id("join")));
    assert!(out.contains(&lit("\"Error\"")));
    assert!(out.contains(&lit("\"Could not display dialog box\"")));
    assert!(out.contains(&lit("\"Asset loader thread spawn failed.\"")));
    assert!(out.contains(&lit("\"Unknown panic type \\\"{:?}\\\"\"")));
    // The original statements appear contiguously inside the worker closure.
    let found = out.windows(body.len()).any(|w| w == &body[..]);
    assert!(found);
    // The wrapped function reports success unconditionally: its body ends
    // with `Ok(())` before the closing brace and the trailing import.
    let mut tail_expect = vec![
        cls(Delim::Brace),
        id("Ok"),
        opn(Delim::Paren),
        opn(Delim::Paren),
        cls(Delim::Paren),
        cls(Delim::Paren),
        cls(Delim::Brace),
    ];
    tail_expect.extend(use_tail());
    assert_eq!(&out[out.len() - tail_expect.len()..], &tail_expect[..]);
}

#[test]
fn unit_function_gets_wrapped() {
    // fn tiny() {}
    let toks = vec![
        id("fn"),
        id("tiny"),
        opn(Delim::Paren),
        cls(Delim::Paren),
        opn(Delim::Brace),
        cls(Delim::Brace),
    ];
    let item = ItemFn::parse(&toks).unwrap();
    assert!(item.outer_attrs.is_empty());
    assert!(item.inner_attrs.is_empty());
    assert!(item.vis.is_empty());
    assert!(item.params.is_empty());
    assert!(item.ret.is_empty());
    assert!(item.stmts.is_empty());
    let out = parse_knobs(item);
    assert!(!out.is_empty());
    assert_eq!(
        &out[..5],
        &[id("fn"), id("tiny"), opn(Delim::Paren), cls(Delim::Paren), opn(Delim::Brace)][..]
    );
    let tail = use_tail();
    assert_eq!(&out[out.len() - tail.len()..], &tail[..]);
}

#[test]
fn missing_fn_keyword_is_reported() {
    let toks = vec![id("pub"), id("struct"), id("S")];
    assert_eq!(ItemFn::parse(&toks), Err(ParseError::ExpectedFn));
    let out = error_window_macro::entry::main(Vec::new(), toks.clone());
    assert!(out.len() > toks.len());
    assert_eq!(&out[..toks.len()], &toks[..]);
    assert!(out.contains(&id("compile_error")));
}

#[test]
fn missing_closing_brace_is_reported() {
    let toks = vec![
        id("fn"),
        id("f"),
        opn(Delim::Paren),
        cls(Delim::Paren),
        opn(Delim::Brace),
        id("let"),
        id("x"),
    ];
    assert_eq!(ItemFn::parse(&toks), Err(ParseError::ExpectedBody));
    let out = error_window_macro::entry::main(Vec::new(), toks.clone());
    assert!(out.len() > toks.len());
    assert_eq!(&out[..toks.len()], &toks[..]);
    assert!(out.contains(&id("compile_error")));
}

#[test]
fn empty_input_is_rejected() {
    let toks: Vec<Tok> = Vec::new();
    assert_eq!(ItemFn::parse(&toks), Err(ParseError::ExpectedFn));
    let out = error_window_macro::entry::main(Vec::new(), toks);
    assert!(!out.is_empty());
    assert!(out.contains(&id("compile_error")));
}

#[test]
fn missing_name_is_reported() {
    let toks = vec![
        id("fn"),
        opn(Delim::Paren),
        cls(Delim::Paren),
        opn(Delim::Brace),
        cls(Delim::Brace),
    ];
    assert_eq!(ItemFn::parse(&toks), Err(ParseError::ExpectedName));
}

#[test]
fn missing_params_is_reported() {
    let toks = vec![id("fn"), id("f"), opn(Delim::Brace), cls(Delim::Brace)];
    assert_eq!(ItemFn::parse(&toks), Err(ParseError::ExpectedParams));
}

#[test]
fn trailing_tokens_are_reported() {
    let toks = vec![
        id("fn"),
        id("f"),
        opn(Delim::Paren),
        cls(Delim::Paren),
        opn(Delim::Brace),
        cls(Delim::Brace),
        pt(';'),
    ];
    assert_eq!(ItemFn::parse(&toks), Err(ParseError::ExpectedBody));
}

#[test]
fn diagnostic_tokens_carry_the_message() {
    let out = token_stream_with_error(vec![id("x")], ParseError::ExpectedFn);
    assert_eq!(
        out,
        vec![
            id("x"),
            pt(':'),
            pt(':'),
            id("core"),
            pt(':'),
            pt(':'),
            id("compile_error"),
            pt('!'),
            opn(Delim::Brace),
            lit("\"expected the `fn` keyword\""),
            cls(Delim::Brace),
        ]
    );
}

#[test]
fn expansion_of_valid_item_matches_emitter() {
    let toks = sample_fn();
    let out = error_window_macro::entry::main(Vec::new(), toks.clone());
    let again = parse_knobs(ItemFn::parse(&toks).unwrap());
    assert_eq!(out, again);
}

#[test]
fn body_view_resurrounds_statements() {
    let item = ItemFn::parse(&sample_fn()).unwrap();
    let body = item.body();
    let mut toks: Vec<Tok> = Vec::new();
    body.to_tokens(&mut toks);
    let mut expected = vec![opn(Delim::Brace)];
    expected.extend(sample_fn()[15..21].to_vec());
    expected.push(cls(Delim::Brace));
    assert_eq!(toks, expected);
}

#[test]
fn success_shows_no_dialog() {
    assert!(worker_dialog(&WorkerEvent::Succeeded).is_none());
    assert_eq!(reported_result(&WorkerEvent::Succeeded), Ok(()));
}

#[test]
fn returned_error_shows_one_dialog() {
    let ev = WorkerEvent::FailedWith("disk full".to_string());
    let d = worker_dialog(&ev).unwrap();
    assert_eq!(d.title, "Error");
    assert_eq!(d.body, "disk full");
    assert_eq!(reported_result(&ev), Ok(()));
}

#[test]
fn string_panic_payload_is_shown_verbatim() {
    let ev = WorkerEvent::Panicked(PanicPayload::Text("index out of range".to_string()));
    let d = worker_dialog(&ev).unwrap();
    assert_eq!(d.title, "Error");
    assert_eq!(d.body, "index out of range");
}

#[test]
fn static_panic_payload_is_shown_verbatim() {
    let ev = WorkerEvent::Panicked(PanicPayload::StaticText("oops".to_string()));
    let d = worker_dialog(&ev).unwrap();
    assert_eq!(d.body, "oops");
}

#[test]
fn opaque_panic_payload_names_its_type() {
    let p = PanicPayload::Opaque("TypeId(0x1234)".to_string());
    assert_eq!(panic_message(&p), "Unknown panic type \"TypeId(0x1234)\"");
    let d = worker_dialog(&WorkerEvent::Panicked(p)).unwrap();
    assert!(d.body.starts_with("Unknown panic type"));
    assert!(d.body.contains("TypeId(0x1234)"));
    assert_eq!(d.title, "Error");
}

#[test]
fn join_failure_is_reported_through_dialog() {
    let d = join_failure_dialog("Any { .. }");
    assert_eq!(d.title, "Error");
    assert_eq!(d.body, "Error: Any { .. }");
}
