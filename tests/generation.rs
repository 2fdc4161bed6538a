use overwrites::assemble::{derived_name, expand, ExpandError, Expansion, ImplBlock, SelfType};
use overwrites::classify::{
    has_marker, marker_of, qualifies, qualifying, Attribute, ImplItem, Marker, Method, Visibility,
};
use overwrites::options::{parse_args, ArgError, ArgErrorKind, Config, Policy, Token};
use overwrites::{generate_overwrites, overwrite, skip};

fn ident(s: &str) -> Token {
    Token::Ident(s.to_string())
}

fn punct(c: char) -> Token {
    Token::Punct(c)
}

fn lit(s: &str) -> Token {
    Token::Literal(s.to_string())
}

fn attr(path: &str) -> Attribute {
    Attribute { path: path.to_string(), text: format!("#[{}]", path) }
}

fn method(vis: Visibility, attrs: Vec<Attribute>, sig: &str, body: &str) -> ImplItem {
    ImplItem::Method(Method { vis, attrs, sig: sig.to_string(), body: body.to_string() })
}

fn block(name: &str, items: Vec<ImplItem>) -> ImplBlock {
    ImplBlock {
        self_ty: SelfType::Path(vec![name.to_string()]),
        self_ty_text: name.to_string(),
        impl_generics: String::new(),
        ty_generics: String::new(),
        where_clause: String::new(),
        items,
    }
}

fn counter() -> ImplBlock {
    block(
        "Counter",
        vec![
            method(Visibility::Public, vec![attr("skip")], "pub fn tick(&mut self)", "{ self.count += 1; }"),
            method(
                Visibility::Public,
                vec![],
                "pub fn tick_by(&mut self, n: usize)",
                "{ self.count += n; }",
            ),
        ],
    )
}

fn arg_error(toks: Vec<Token>) -> ArgError {
    match parse_args(&toks) {
        Err(e) => e,
        Ok(_) => panic!("the argument list was accepted"),
    }
}

fn expansion(r: Result<Expansion, ExpandError>) -> Expansion {
    match r {
        Ok(x) => x,
        Err(e) => panic!("expansion failed: {:?}", e),
    }
}

#[test]
fn no_arguments_give_defaults() {
    let c = parse_args(&vec![]).unwrap();
    assert_eq!(c.policy, Policy::Include);
    assert!(!c.passthrough);
    assert!(c.name.is_none());
}

#[test]
fn all_options_in_any_order() {
    let toks = vec![
        ident("passthrough"),
        punct(','),
        ident("name"),
        punct('='),
        lit("\"Custom\""),
        punct(','),
        ident("default"),
        punct('='),
        lit("\"skip\""),
        punct(','),
    ];
    let c = parse_args(&toks).unwrap();
    assert_eq!(c.policy, Policy::Exclude);
    assert!(c.passthrough);
    assert_eq!(c.name, Some("Custom".to_string()));
}

#[test]
fn default_overwrite_is_include() {
    let c = parse_args(&vec![ident("default"), punct('='), lit("\"overwrite\"")]).unwrap();
    assert_eq!(c.policy, Policy::Include);
}

#[test]
fn escaped_literal_is_unescaped() {
    let c = parse_args(&vec![ident("default"), punct('='), lit("\"\\x73kip\"")]).unwrap();
    assert_eq!(c.policy, Policy::Exclude);
    let c = parse_args(&vec![ident("name"), punct('='), lit("r\"Raw\"")]).unwrap();
    assert_eq!(c.name, Some("Raw".to_string()));
}

#[test]
fn unknown_option_is_refused() {
    assert_eq!(arg_error(vec![ident("all"), punct('='), lit("\"x\"")]), ArgError { pos: 0, kind: ArgErrorKind::UnknownOption });
}

#[test]
fn leading_punctuation_is_refused() {
    assert_eq!(arg_error(vec![punct(',')]), ArgError { pos: 0, kind: ArgErrorKind::ExpectedIdent });
    assert_eq!(
        arg_error(vec![ident("passthrough"), punct(','), punct(',')]),
        ArgError { pos: 2, kind: ArgErrorKind::ExpectedIdent }
    );
}

#[test]
fn bad_default_is_refused() {
    assert_eq!(
        arg_error(vec![ident("default"), punct('='), lit("\"all\"")]),
        ArgError { pos: 2, kind: ArgErrorKind::BadDefault }
    );
}

#[test]
fn missing_equals_is_refused() {
    assert_eq!(arg_error(vec![ident("default")]), ArgError { pos: 1, kind: ArgErrorKind::ExpectedEq });
    assert_eq!(
        arg_error(vec![ident("name"), punct(':'), lit("\"X\"")]),
        ArgError { pos: 1, kind: ArgErrorKind::ExpectedEq }
    );
}

#[test]
fn non_string_value_is_refused() {
    assert_eq!(
        arg_error(vec![ident("name"), punct('='), lit("5")]),
        ArgError { pos: 2, kind: ArgErrorKind::ExpectedString }
    );
    assert_eq!(
        arg_error(vec![ident("name"), punct('='), ident("X")]),
        ArgError { pos: 2, kind: ArgErrorKind::ExpectedString }
    );
    assert_eq!(arg_error(vec![ident("name"), punct('=')]), ArgError { pos: 2, kind: ArgErrorKind::ExpectedString });
}

#[test]
fn name_must_be_an_identifier() {
    assert_eq!(
        arg_error(vec![ident("name"), punct('='), lit("\"two words\"")]),
        ArgError { pos: 2, kind: ArgErrorKind::BadName }
    );
    assert_eq!(
        arg_error(vec![ident("name"), punct('='), lit("\"fn\"")]),
        ArgError { pos: 2, kind: ArgErrorKind::BadName }
    );
}

#[test]
fn duplicate_option_is_refused() {
    assert_eq!(
        arg_error(vec![ident("passthrough"), punct(','), ident("passthrough")]),
        ArgError { pos: 2, kind: ArgErrorKind::Duplicate }
    );
    assert_eq!(
        arg_error(vec![
            ident("name"),
            punct('='),
            lit("\"A\""),
            punct(','),
            ident("name"),
            punct('='),
            lit("\"B\""),
        ]),
        ArgError { pos: 4, kind: ArgErrorKind::Duplicate }
    );
}

#[test]
fn missing_comma_is_refused() {
    assert_eq!(
        arg_error(vec![ident("passthrough"), ident("default"), punct('='), lit("\"skip\"")]),
        ArgError { pos: 1, kind: ArgErrorKind::ExpectedComma }
    );
}

#[test]
fn markers_are_found_by_path() {
    assert_eq!(marker_of(&attr("skip")), Marker::Skip);
    assert_eq!(marker_of(&attr("overwrite")), Marker::Overwrite);
    assert_eq!(marker_of(&attr("doc")), Marker::Other);
    assert_eq!(marker_of(&attr("a::skip")), Marker::Other);
}

#[test]
fn policy_table() {
    let plain = Method { vis: Visibility::Public, attrs: vec![], sig: "pub fn a(&self)".to_string(), body: "{}".to_string() };
    let skipped = Method { vis: Visibility::Public, attrs: vec![attr("skip")], sig: "pub fn b(&self)".to_string(), body: "{}".to_string() };
    let marked = Method { vis: Visibility::Public, attrs: vec![attr("overwrite")], sig: "pub fn c(&self)".to_string(), body: "{}".to_string() };
    assert!(qualifies(&plain, Policy::Include));
    assert!(!qualifies(&skipped, Policy::Include));
    assert!(qualifies(&marked, Policy::Include));
    assert!(!qualifies(&plain, Policy::Exclude));
    assert!(!qualifies(&skipped, Policy::Exclude));
    assert!(qualifies(&marked, Policy::Exclude));
    assert!(has_marker(&skipped, Marker::Skip));
    assert!(!has_marker(&plain, Marker::Skip));
}

#[test]
fn private_methods_never_qualify() {
    for vis in [Visibility::Inherited, Visibility::Restricted] {
        let m = Method { vis, attrs: vec![attr("overwrite")], sig: "fn a(&self)".to_string(), body: "{}".to_string() };
        assert!(!qualifies(&m, Policy::Include));
        assert!(!qualifies(&m, Policy::Exclude));
    }
}

#[test]
fn qualifying_keeps_declaration_order() {
    let items = vec![
        method(Visibility::Public, vec![], "pub fn a(&self)", "{}"),
        ImplItem::Other("const K: u8 = 1;".to_string()),
        method(Visibility::Inherited, vec![], "fn b(&self)", "{}"),
        method(Visibility::Public, vec![attr("skip")], "pub fn c(&self)", "{}"),
        method(Visibility::Public, vec![], "pub fn d(&self)", "{}"),
    ];
    assert_eq!(qualifying(&items, Policy::Include), vec![0, 4]);
    assert_eq!(qualifying(&items, Policy::Exclude), Vec::<usize>::new());
}

#[test]
fn default_name_appends_overwrites() {
    assert_eq!(derived_name(&"Widget".to_string()), "WidgetOverwrites".to_string());
    let x = expansion(generate_overwrites(&vec![], &block("Widget", vec![method(Visibility::Public, vec![], "pub fn w(&self)", "{}")])));
    assert_eq!(x.interface.name, "WidgetOverwrites");
}

#[test]
fn default_name_uses_last_path_segment() {
    let mut b = block("Widget", vec![method(Visibility::Public, vec![], "pub fn w(&self)", "{}")]);
    b.self_ty = SelfType::Path(vec!["ui".to_string(), "Widget".to_string()]);
    let x = expansion(generate_overwrites(&vec![], &b));
    assert_eq!(x.interface.name, "WidgetOverwrites");
}

#[test]
fn counter_without_passthrough() {
    let x = expansion(generate_overwrites(&vec![], &counter()));
    assert_eq!(x.interface.name, "CounterOverwrites");
    assert_eq!(x.interface.items.len(), 1);
    assert_eq!(x.interface.items[0].sig, "pub fn tick_by(&mut self, n: usize)");
    assert!(x.forwarding.is_none());
}

#[test]
fn counter_with_passthrough() {
    let b = counter();
    let x = expansion(generate_overwrites(&vec![ident("passthrough")], &b));
    assert_eq!(x.interface.name, "CounterOverwrites");
    assert_eq!(x.interface.items.len(), 1);
    let f = x.forwarding.unwrap();
    assert_eq!(f.trait_name, "CounterOverwrites");
    assert_eq!(f.self_ty, "Counter");
    assert_eq!(f.items.len(), 1);
    assert_eq!(f.items[0].sig, "pub fn tick_by(&mut self, n: usize)");
    assert_eq!(f.items[0].body, "{ self.count += n; }");
}

#[test]
fn explicit_name_wins() {
    let toks = vec![ident("name"), punct('='), lit("\"Ticks\"")];
    let x = expansion(generate_overwrites(&toks, &counter()));
    assert_eq!(x.interface.name, "Ticks");
}

#[test]
fn markers_are_dropped_and_other_attributes_kept() {
    let b = block(
        "Counter",
        vec![method(
            Visibility::Public,
            vec![attr("doc"), attr("overwrite"), attr("inline")],
            "pub fn tick(&mut self)",
            "{}",
        )],
    );
    let toks = vec![ident("default"), punct('='), lit("\"skip\""), punct(','), ident("passthrough")];
    let x = expansion(generate_overwrites(&toks, &b));
    let paths: Vec<String> = x.interface.items[0].attrs.iter().map(|a| a.path.clone()).collect();
    assert_eq!(paths, vec!["doc".to_string(), "inline".to_string()]);
    let f = x.forwarding.unwrap();
    assert_eq!(f.items[0].attrs.len(), 2);
}

#[test]
fn generics_are_carried_over() {
    let mut b = counter();
    b.impl_generics = "<T: Clone>".to_string();
    b.ty_generics = "<T>".to_string();
    b.where_clause = "where T: Default".to_string();
    b.self_ty_text = "Counter<T>".to_string();
    let x = expansion(generate_overwrites(&vec![ident("passthrough")], &b));
    assert_eq!(x.interface.generics, "<T: Clone>");
    assert_eq!(x.interface.where_clause, "where T: Default");
    let f = x.forwarding.unwrap();
    assert_eq!(f.impl_generics, "<T: Clone>");
    assert_eq!(f.trait_generics, "<T>");
    assert_eq!(f.self_ty, "Counter<T>");
}

#[test]
fn all_skipped_fails() {
    let b = block(
        "Counter",
        vec![
            method(Visibility::Public, vec![attr("skip")], "pub fn a(&self)", "{}"),
            method(Visibility::Inherited, vec![], "fn b(&self)", "{}"),
        ],
    );
    assert!(matches!(generate_overwrites(&vec![], &b), Err(ExpandError::NoMethods)));
}

#[test]
fn exclude_without_marks_fails() {
    let toks = vec![ident("default"), punct('='), lit("\"skip\"")];
    assert!(matches!(generate_overwrites(&toks, &counter()), Err(ExpandError::NoMethods)));
}

#[test]
fn unnamed_complex_type_fails() {
    let mut b = counter();
    b.self_ty = SelfType::Other;
    assert!(matches!(generate_overwrites(&vec![], &b), Err(ExpandError::UnresolvableName)));
    let toks = vec![ident("name"), punct('='), lit("\"Named\"")];
    let x = expansion(generate_overwrites(&toks, &b));
    assert_eq!(x.interface.name, "Named");
}

#[test]
fn argument_errors_are_reported() {
    let toks = vec![ident("bogus")];
    assert!(matches!(
        generate_overwrites(&toks, &counter()),
        Err(ExpandError::Args(ArgError { pos: 0, kind: ArgErrorKind::UnknownOption }))
    ));
}

#[test]
fn repeated_runs_agree() {
    let toks = vec![ident("passthrough")];
    let a = expansion(generate_overwrites(&toks, &counter()));
    let b = expansion(generate_overwrites(&toks, &counter()));
    assert_eq!(a.interface.name, b.interface.name);
    assert_eq!(a.interface.items.len(), b.interface.items.len());
    for (x, y) in a.interface.items.iter().zip(b.interface.items.iter()) {
        assert_eq!(x.sig, y.sig);
    }
    let (fa, fb) = (a.forwarding.unwrap(), b.forwarding.unwrap());
    for (x, y) in fa.items.iter().zip(fb.items.iter()) {
        assert_eq!(x.body, y.body);
    }
}

#[test]
fn expand_takes_a_parsed_config() {
    let cfg = Config { policy: Policy::Include, passthrough: false, name: None };
    let x = expansion(expand(&cfg, &counter()));
    assert_eq!(x.interface.name, "CounterOverwrites");
}

#[test]
fn markers_return_their_item() {
    let item = vec![ident("fn"), ident("f")];
    assert!(matches!(skip(vec![], vec![ident("x")]).as_slice(), [Token::Ident(s)] if s == "x"));
    assert_eq!(overwrite(vec![], item).len(), 2);
}
