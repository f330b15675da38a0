use roc_migrate::ast::{
    AssignedField, Base, BinOp, Collection, CommentOrNewline, Def, DefEntry, Defs, Expr,
    FunctionArrow, IngestedFileAnnotation, IngestedFileImport, ModuleHeader, ModuleImport, Pattern,
    TypeAnnotation, TypeDef, TypeHeader, ValueDef, WhenBranch,
};
use roc_migrate::buf::Buf;
use roc_migrate::migrate::{
    fmt_defs, fmt_expr, fmt_expr_top_level, fmt_header, fmt_pattern, fmt_suffix, fmt_type,
};
use roc_migrate::rewrite::{migrate_pizza, MigrateError, MigratedBinOp};
use roc_migrate::rules::Suffix;

fn cs(s: &str) -> Vec<char> {
    s.chars().collect()
}

fn text(buf: &Buf) -> String {
    buf.text().iter().collect()
}

fn var(name: &str) -> Expr {
    Expr::Var { module_name: Vec::new(), ident: cs(name) }
}

fn qvar(module: &str, name: &str) -> Expr {
    Expr::Var { module_name: cs(module), ident: cs(name) }
}

fn num(n: &str) -> Expr {
    Expr::Num(cs(n))
}

fn coll<T>(items: Vec<T>) -> Collection<T> {
    Collection { items, final_comments: Vec::new() }
}

fn chain(pairs: Vec<(Expr, BinOp)>, last: Expr) -> Expr {
    Expr::BinOps(pairs, Box::new(last))
}

fn render_with(e: &Expr, snakify: bool) -> Result<String, MigrateError> {
    let mut buf = Buf::new(snakify);
    fmt_expr(&mut buf, 0, e, Suffix::Empty)?;
    Ok(text(&buf))
}

fn render(e: &Expr) -> Result<String, MigrateError> {
    render_with(e, false)
}

fn render_pattern(p: &Pattern, snakify: bool) -> Result<String, MigrateError> {
    let mut buf = Buf::new(snakify);
    fmt_pattern(&mut buf, 0, p, Suffix::Empty)?;
    Ok(text(&buf))
}

fn render_type(t: &TypeAnnotation) -> Result<String, MigrateError> {
    let mut buf = Buf::new(false);
    fmt_type(&mut buf, 0, t, Suffix::Empty)?;
    Ok(text(&buf))
}

#[test]
fn no_pipe_chain_keeps_order_and_grouping() {
    // a + b * c - d
    let e = chain(
        vec![(var("a"), BinOp::Plus), (var("b"), BinOp::Star), (var("c"), BinOp::Minus)],
        var("d"),
    );
    assert_eq!(render(&e).unwrap(), "a + b * c - d");
}

#[test]
fn no_pipe_chain_tree_is_grouped_by_precedence() {
    // a + b * c groups as a + (b * c)
    let pairs = vec![(var("a"), BinOp::Plus), (var("b"), BinOp::Star)];
    let last = var("c");
    let t = migrate_pizza(&pairs, &last, false).unwrap();
    match t {
        MigratedBinOp::BinOp { lhs, op, rhs } => {
            assert_eq!(op, BinOp::Plus);
            assert!(matches!(*lhs, MigratedBinOp::Expr(0)));
            match *rhs {
                MigratedBinOp::BinOp { lhs, op, rhs } => {
                    assert_eq!(op, BinOp::Star);
                    assert!(matches!(*lhs, MigratedBinOp::Expr(1)));
                    assert!(matches!(*rhs, MigratedBinOp::Expr(2)));
                }
                _ => panic!("expected an operator node"),
            }
        }
        _ => panic!("expected an operator node"),
    }
}

#[test]
fn no_pipe_chain_with_comments_keeps_them() {
    // a + b # note
    let b = Expr::SpaceAfter(
        Box::new(var("b")),
        vec![CommentOrNewline::LineComment(cs(" note"))],
    );
    let e = chain(vec![(var("a"), BinOp::Plus)], b);
    assert_eq!(render(&e).unwrap(), "a + b # note\n");
}

#[test]
fn right_associative_chain_groups_to_the_right() {
    // a ^ b ^ c groups as a ^ (b ^ c)
    let pairs = vec![(var("a"), BinOp::Caret), (var("b"), BinOp::Caret)];
    let last = var("c");
    match migrate_pizza(&pairs, &last, false).unwrap() {
        MigratedBinOp::BinOp { lhs, rhs, .. } => {
            assert!(matches!(*lhs, MigratedBinOp::Expr(0)));
            assert!(matches!(*rhs, MigratedBinOp::BinOp { .. }));
        }
        _ => panic!("expected an operator node"),
    }
}

#[test]
fn pipes_evaluate_left_to_right() {
    // x |> y |> List.len
    let e = chain(
        vec![(var("x"), BinOp::Pizza), (var("y"), BinOp::Pizza)],
        qvar("List", "len"),
    );
    assert_eq!(render(&e).unwrap(), "x.(y)().len()");
}

#[test]
fn pipe_into_recognized_method() {
    // x |> List.map(f)
    let call = Expr::Apply(Box::new(qvar("List", "map")), vec![var("f")]);
    let e = chain(vec![(var("x"), BinOp::Pizza)], call);
    assert_eq!(render(&e).unwrap(), "x.map(f)");
}

#[test]
fn pipe_into_recognized_method_with_parens_call() {
    let call = Expr::PncApply(Box::new(qvar("List", "map")), coll(vec![var("f")]));
    let e = chain(vec![(var("x"), BinOp::Pizza)], call);
    assert_eq!(render(&e).unwrap(), "x.map(f)");
}

#[test]
fn pipe_into_function_value_with_arguments() {
    // a |> f(b, c)
    let call = Expr::Apply(Box::new(var("f")), vec![var("b"), var("c")]);
    let e = chain(vec![(var("a"), BinOp::Pizza)], call);
    assert_eq!(render(&e).unwrap(), "a.(f)(b, c)");
}

#[test]
fn pipe_into_unrecognized_qualified_name() {
    // a |> Num.toStr
    let e = chain(vec![(var("a"), BinOp::Pizza)], qvar("Num", "toStr"));
    assert_eq!(render(&e).unwrap(), "a.(Num.toStr)()");
}

#[test]
fn pipe_receiver_that_is_an_operator_node_gets_parentheses() {
    // x + y |> List.len
    let e = chain(
        vec![(var("x"), BinOp::Plus), (var("y"), BinOp::Pizza)],
        qvar("List", "len"),
    );
    assert_eq!(render(&e).unwrap(), "(x + y).len()");
}

#[test]
fn pipe_receiver_parentheses_with_function_value() {
    // x + y |> f()
    let call = Expr::Apply(Box::new(var("f")), Vec::new());
    let e = chain(vec![(var("x"), BinOp::Plus), (var("y"), BinOp::Pizza)], call);
    assert_eq!(render(&e).unwrap(), "(x + y).(f)()");
}

#[test]
fn pipe_method_name_follows_casing() {
    // x |> Str.toUtf8, with snake case on: to_utf8 is a recognized operation
    let e = chain(vec![(var("x"), BinOp::Pizza)], qvar("Str", "toUtf8"));
    assert_eq!(render_with(&e, true).unwrap(), "x.to_utf8()");
    assert_eq!(render_with(&e, false).unwrap(), "x.(Str.toUtf8)()");
}

#[test]
fn pipe_keeps_comments_of_the_call() {
    let call = Expr::SpaceBefore(
        Box::new(qvar("List", "len")),
        vec![CommentOrNewline::Newline],
    );
    let e = chain(vec![(var("x"), BinOp::Pizza)], call);
    assert_eq!(render(&e).unwrap(), "x\n.len()");
}

#[test]
fn pipe_into_list_literal_fails() {
    // x |> [1, 2, 3]
    let list = Expr::List(coll(vec![num("1"), num("2"), num("3")]));
    let e = chain(vec![(var("x"), BinOp::Pizza)], list);
    let mut buf = Buf::new(false);
    let r = fmt_expr(&mut buf, 0, &e, Suffix::Empty);
    assert_eq!(r, Err(MigrateError::PizzaOpRhsNotSupported));
    assert_eq!(text(&buf), "");
}

#[test]
fn pipe_into_operator_node_fails() {
    // x |> f + g
    let e = chain(
        vec![(var("x"), BinOp::Pizza), (var("f"), BinOp::Plus)],
        var("g"),
    );
    assert_eq!(render(&e), Err(MigrateError::PizzaOpRhsNotSupported));
}

#[test]
fn identifier_pattern_casing() {
    let p = Pattern::Identifier(cs("fooBar"));
    assert_eq!(render_pattern(&p, true).unwrap(), "foo_bar");
    assert_eq!(render_pattern(&p, false).unwrap(), "fooBar");
}

#[test]
fn variable_casing_keeps_module() {
    let e = qvar("Str", "joinWith");
    assert_eq!(render_with(&e, true).unwrap(), "Str.join_with");
}

#[test]
fn empty_collections_are_two_brackets() {
    assert_eq!(render(&Expr::List(coll(Vec::new()))).unwrap(), "[]");
    assert_eq!(render(&Expr::Record(coll(Vec::new()))).unwrap(), "{}");
    assert_eq!(render(&Expr::Tuple(coll(Vec::new()))).unwrap(), "()");
}

#[test]
fn list_with_trailing_comment_is_not_collapsed() {
    let c = Collection {
        items: Vec::<Expr>::new(),
        final_comments: vec![CommentOrNewline::LineComment(cs(" nothing"))],
    };
    assert_eq!(render(&Expr::List(c)).unwrap(), "[ # nothing\n]");
}

#[test]
fn list_items_are_separated_by_commas() {
    let e = Expr::List(coll(vec![num("1"), num("2"), num("3")]));
    assert_eq!(render(&e).unwrap(), "[1, 2, 3]");
}

#[test]
fn three_argument_call_separators() {
    let e = Expr::Apply(Box::new(var("f")), vec![var("a"), var("b"), var("c")]);
    let out = render(&e).unwrap();
    assert_eq!(out, "f(a, b, c)");
    assert_eq!(out.matches(", ").count(), 2);
    assert!(!out.contains(",)"));
}

#[test]
fn call_with_no_arguments() {
    let e = Expr::PncApply(Box::new(var("f")), coll(Vec::new()));
    assert_eq!(render(&e).unwrap(), "f()");
}

#[test]
fn suffix_comes_after_trailing_comment() {
    // the comma that follows `a` is written before its trailing comment
    let a = Expr::SpaceAfter(
        Box::new(var("a")),
        vec![CommentOrNewline::LineComment(cs(" first"))],
    );
    let e = Expr::Apply(Box::new(var("f")), vec![a, var("b")]);
    assert_eq!(render(&e).unwrap(), "f(a, # first\n b)");
}

#[test]
fn fmt_suffix_writes_each_token() {
    let mut buf = Buf::new(false);
    buf.push('x');
    fmt_suffix(&mut buf, 0, Suffix::Comma);
    fmt_suffix(&mut buf, 0, Suffix::OpenRound);
    fmt_suffix(&mut buf, 0, Suffix::Question);
    fmt_suffix(&mut buf, 0, Suffix::Empty);
    assert_eq!(text(&buf), "x,(?");
}

#[test]
fn literals_render_as_written() {
    assert_eq!(render(&Expr::Str(cs("hi"))).unwrap(), "\"hi\"");
    assert_eq!(render(&Expr::SingleQuote(cs("a"))).unwrap(), "'a'");
    let hex = Expr::NonBase10Int { string: cs("ff"), base: Base::Hex, is_negative: true };
    assert_eq!(render(&hex).unwrap(), "-0xff");
    assert_eq!(render(&Expr::Float(cs("1.5"))).unwrap(), "1.5");
    assert_eq!(render(&Expr::Underscore(cs("x"))).unwrap(), "_x");
    assert_eq!(render(&Expr::AccessorFunction(cs("name"))).unwrap(), ".name");
    assert_eq!(render(&Expr::RecordUpdater(cs("name"))).unwrap(), "&name");
}

#[test]
fn record_access_and_try_suffix() {
    let e = Expr::TrySuffix(Box::new(Expr::RecordAccess(Box::new(var("rec")), cs("field"))));
    assert_eq!(render(&e).unwrap(), "rec.field?");
}

#[test]
fn record_fields_and_update() {
    let fields = coll(vec![
        AssignedField::RequiredValue(cs("a"), Vec::new(), Box::new(num("1"))),
        AssignedField::LabelOnly(cs("b")),
    ]);
    assert_eq!(render(&Expr::Record(fields)).unwrap(), "{a: 1, b}");
    let update = Expr::RecordUpdate {
        update: Box::new(var("r")),
        fields: coll(vec![AssignedField::RequiredValue(cs("a"), Vec::new(), Box::new(num("2")))]),
    };
    assert_eq!(render(&update).unwrap(), "{r&a: 2}");
}

#[test]
fn closure_and_unary() {
    let body = Expr::UnaryOp(Box::new(var("x")), roc_migrate::ast::UnaryOp::Not);
    let e = Expr::Closure(vec![Pattern::Identifier(cs("x"))], Box::new(body));
    assert_eq!(render(&e).unwrap(), "|x| !x");
}

#[test]
fn if_branches_become_blocks() {
    let e = Expr::If {
        if_thens: vec![(var("c"), num("1"))],
        final_else: Box::new(num("2")),
    };
    assert_eq!(render(&e).unwrap(), "if c {\n    1\n} else {\n    2\n}");
}

#[test]
fn when_becomes_match() {
    let branch = WhenBranch {
        patterns: vec![Pattern::Tag(cs("A")), Pattern::Tag(cs("B"))],
        value: Expr::SpaceBefore(Box::new(num("1")), vec![CommentOrNewline::Newline]),
        guard: None,
    };
    let e = Expr::When(Box::new(var("x")), vec![branch]);
    assert_eq!(render(&e).unwrap(), "match x {\n    A | B->\n    1}");
}

#[test]
fn defs_render_as_block() {
    let def = DefEntry {
        before: Vec::new(),
        def: Def::Value(ValueDef::Body(Pattern::Identifier(cs("y")), Box::new(num("1")))),
        after: vec![CommentOrNewline::Newline],
    };
    let e = Expr::Defs(Defs { entries: vec![def] }, Box::new(var("y")));
    assert_eq!(render(&e).unwrap(), "{\n    y = 1\n    y\n}");
}

#[test]
fn top_level_defs_at_left_margin() {
    let def = DefEntry {
        before: Vec::new(),
        def: Def::Value(ValueDef::Body(Pattern::Identifier(cs("y")), Box::new(num("1")))),
        after: vec![CommentOrNewline::Newline],
    };
    let e = Expr::Defs(Defs { entries: vec![def] }, Box::new(var("y")));
    let mut buf = Buf::new(false);
    fmt_expr_top_level(&mut buf, 0, &e).unwrap();
    assert_eq!(text(&buf), "y = 1\ny");
}

#[test]
fn type_alias_and_annotation() {
    let header = TypeHeader { name: cs("Pair"), vars: vec![cs("a"), cs("b")] };
    let ann = TypeAnnotation::Tuple {
        elems: coll(vec![TypeAnnotation::BoundVariable(cs("a")), TypeAnnotation::BoundVariable(cs("b"))]),
        ext: None,
    };
    let alias = DefEntry { before: Vec::new(), def: Def::Type(TypeDef::Alias { header, ann }), after: Vec::new() };
    let mut buf = Buf::new(false);
    fmt_defs(&mut buf, &Defs { entries: vec![alias] }).unwrap();
    assert_eq!(text(&buf), "Pair(a, b) : (a, b)");
}

#[test]
fn function_and_record_types() {
    let f = TypeAnnotation::Function(
        vec![TypeAnnotation::Apply(Vec::new(), cs("Str"), Vec::new())],
        FunctionArrow::Effectful,
        Box::new(TypeAnnotation::Apply(cs("List"), cs("List"), vec![TypeAnnotation::Inferred])),
    );
    assert_eq!(render_type(&f).unwrap(), "Str => List.List(_)");
    let rec = TypeAnnotation::Record {
        fields: coll(vec![AssignedField::RequiredValue(cs("a"), Vec::new(), Box::new(TypeAnnotation::BoundVariable(cs("x"))))]),
        ext: Some(Box::new(TypeAnnotation::BoundVariable(cs("r")))),
    };
    assert_eq!(render_type(&rec).unwrap(), "{a: x, ..r}");
}

#[test]
fn malformed_pattern_error() {
    assert_eq!(render_pattern(&Pattern::Malformed(cs("?")), false), Err(MigrateError::MalformedPatternNotSupported));
}

#[test]
fn malformed_pattern_ident_error() {
    assert_eq!(render_pattern(&Pattern::MalformedIdent(cs("?")), false), Err(MigrateError::MalformedPatternIdentNotSupported));
}

#[test]
fn malformed_pattern_expr_error() {
    let p = Pattern::MalformedExpr(Box::new(num("1")));
    assert_eq!(render_pattern(&p, false), Err(MigrateError::MalformedPatternAsExprNotSupported));
}

#[test]
fn malformed_ident_error() {
    assert_eq!(render(&Expr::MalformedIdent(cs("a.."))), Err(MigrateError::MalformedIdentNotSupported));
}

#[test]
fn precedence_conflict_error() {
    let e = Expr::ParensAround(Box::new(Expr::PrecedenceConflict));
    assert_eq!(render(&e), Err(MigrateError::PrecedenceConflictNotSupported));
}

#[test]
fn wildcard_type_error() {
    assert_eq!(render_type(&TypeAnnotation::Wildcard), Err(MigrateError::WildcardTypeNotSupported));
}

#[test]
fn opaque_and_ability_definitions_error() {
    let header = TypeHeader { name: cs("T"), vars: Vec::new() };
    let opaque = DefEntry {
        before: Vec::new(),
        def: Def::Type(TypeDef::Opaque { header, typ: TypeAnnotation::Inferred }),
        after: Vec::new(),
    };
    let mut buf = Buf::new(false);
    assert_eq!(fmt_defs(&mut buf, &Defs { entries: vec![opaque] }), Err(MigrateError::OpaqueNotSupported));
    let ability = DefEntry {
        before: Vec::new(),
        def: Def::Type(TypeDef::Ability { header: TypeHeader { name: cs("A"), vars: Vec::new() } }),
        after: Vec::new(),
    };
    let mut buf = Buf::new(false);
    assert_eq!(fmt_defs(&mut buf, &Defs { entries: vec![ability] }), Err(MigrateError::AbilitiesNotSupported));
}

#[test]
fn earlier_definitions_stay_when_a_later_one_fails() {
    let good = DefEntry {
        before: Vec::new(),
        def: Def::Value(ValueDef::Body(Pattern::Identifier(cs("a")), Box::new(num("1")))),
        after: vec![CommentOrNewline::Newline],
    };
    let bad = DefEntry {
        before: Vec::new(),
        def: Def::Value(ValueDef::Body(Pattern::Malformed(cs("?")), Box::new(num("2")))),
        after: Vec::new(),
    };
    let mut buf = Buf::new(false);
    let r = fmt_defs(&mut buf, &Defs { entries: vec![good, bad] });
    assert_eq!(r, Err(MigrateError::MalformedPatternNotSupported));
    assert!(text(&buf).starts_with("a = 1\n"));
}

#[test]
fn module_header_lists_exposed_names() {
    let h = ModuleHeader {
        before: Vec::new(),
        after_keyword: Vec::new(),
        params: None,
        exposes: coll(vec![cs("a"), cs("b")]),
    };
    let mut buf = Buf::new(false);
    fmt_header(&mut buf, &h).unwrap();
    assert_eq!(text(&buf), "module [a, b]");
}

#[test]
fn file_import_with_annotation() {
    let fi = IngestedFileImport {
        before_path: Vec::new(),
        path: cs("file.txt"),
        name: cs("data"),
        annotation: Some(IngestedFileAnnotation {
            before_colon: Vec::new(),
            annotation: TypeAnnotation::Apply(Vec::new(), cs("Str"), Vec::new()),
        }),
    };
    let entry = DefEntry { before: Vec::new(), def: Def::Value(ValueDef::IngestedFileImport(fi)), after: Vec::new() };
    let mut buf = Buf::new(false);
    fmt_defs(&mut buf, &Defs { entries: vec![entry] }).unwrap();
    assert_eq!(text(&buf), "import \"file.txt\" as data: Str");
}

#[test]
fn tips_are_on_their_own_lines() {
    let t = roc_migrate::repl::tips();
    assert!(t.starts_with('\n'));
    assert!(t.ends_with("\n\n"));
    assert!(t.contains(":help"));
    let _validator = roc_migrate::repl::InputValidator::new();
}

#[test]
fn failing_node_leaves_buffer_unchanged() {
    let mut buf = Buf::new(false);
    buf.push('x');
    let r = fmt_pattern(&mut buf, 0, &Pattern::Malformed(cs("?")), Suffix::Comma);
    assert_eq!(r, Err(MigrateError::MalformedPatternNotSupported));
    assert_eq!(text(&buf), "x");
    let r = fmt_type(&mut buf, 0, &TypeAnnotation::Wildcard, Suffix::Empty);
    assert_eq!(r, Err(MigrateError::WildcardTypeNotSupported));
    assert_eq!(text(&buf), "x");
}

#[test]
fn failing_element_stops_the_collection() {
    let e = Expr::List(coll(vec![num("1"), Expr::MalformedIdent(cs("a..")), num("3")]));
    let mut buf = Buf::new(false);
    let r = fmt_expr(&mut buf, 0, &e, Suffix::Empty);
    assert_eq!(r, Err(MigrateError::MalformedIdentNotSupported));
    assert_eq!(text(&buf), "[1,");
}

#[test]
fn module_import_with_alias_and_exposed_names() {
    let mi = ModuleImport {
        before_name: Vec::new(),
        package: Some(cs("pf")),
        name: cs("Stdout"),
        params: None,
        alias: Some(cs("Out")),
        exposed: Some(coll(vec![cs("line")])),
    };
    let entry = DefEntry { before: Vec::new(), def: Def::Value(ValueDef::ModuleImport(mi)), after: Vec::new() };
    let mut buf = Buf::new(false);
    fmt_defs(&mut buf, &Defs { entries: vec![entry] }).unwrap();
    assert_eq!(text(&buf), "import pf.Stdout as Out exposing [line]\n");
}
