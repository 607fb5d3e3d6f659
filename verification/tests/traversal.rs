use std::sync::Arc;
use treewalk::ast::{Ast, Block, Do, Expression, LocalAssignment, Stmt, Value};
use treewalk::tokenizer::{Token, TokenArena, TokenKind, TokenReference};
use treewalk::trace::{Event, NodeKind};
use treewalk::visitors::{visit, visit_mut, Visitor, VisitorMut};

fn tok(kind: TokenKind, text: &str) -> Token {
    Token { kind, text: text.to_string() }
}

/// The arena for `local x = 1`, trivia included, plus the tree over it.
fn local_x_eq_1() -> Ast {
    let arena = Arc::new(TokenArena::new(vec![
        tok(TokenKind::Symbol, "local"),
        tok(TokenKind::Whitespace, " "),
        tok(TokenKind::Identifier, "x"),
        tok(TokenKind::Whitespace, " "),
        tok(TokenKind::Symbol, "="),
        tok(TokenKind::Whitespace, " "),
        tok(TokenKind::Number, "1"),
        tok(TokenKind::Eof, ""),
    ]));
    let la = LocalAssignment {
        local_token: TokenReference::borrowed(Arc::clone(&arena), 0),
        name_list: vec![(TokenReference::borrowed(Arc::clone(&arena), 2), None)],
        equal_token: Some(TokenReference::borrowed(Arc::clone(&arena), 4)),
        expr_list: vec![(
            Expression::Value(Value::Number(TokenReference::borrowed(Arc::clone(&arena), 6))),
            None,
        )],
    };
    Ast { tokens: arena, nodes: Block { stmts: vec![Stmt::LocalAssignment(la)] } }
}

/// The arena and tree for `local x, y = 1, 2`.
fn local_x_y() -> Ast {
    let arena = Arc::new(TokenArena::new(vec![
        tok(TokenKind::Symbol, "local"),
        tok(TokenKind::Whitespace, " "),
        tok(TokenKind::Identifier, "x"),
        tok(TokenKind::Symbol, ","),
        tok(TokenKind::Whitespace, " "),
        tok(TokenKind::Identifier, "y"),
        tok(TokenKind::Whitespace, " "),
        tok(TokenKind::Symbol, "="),
        tok(TokenKind::Whitespace, " "),
        tok(TokenKind::Number, "1"),
        tok(TokenKind::Symbol, ","),
        tok(TokenKind::Whitespace, " "),
        tok(TokenKind::Number, "2"),
        tok(TokenKind::Eof, ""),
    ]));
    let la = LocalAssignment {
        local_token: TokenReference::borrowed(Arc::clone(&arena), 0),
        name_list: vec![
            (
                TokenReference::borrowed(Arc::clone(&arena), 2),
                Some(TokenReference::borrowed(Arc::clone(&arena), 3)),
            ),
            (TokenReference::borrowed(Arc::clone(&arena), 5), None),
        ],
        equal_token: Some(TokenReference::borrowed(Arc::clone(&arena), 7)),
        expr_list: vec![
            (
                Expression::Value(Value::Number(TokenReference::borrowed(Arc::clone(&arena), 9))),
                Some(TokenReference::borrowed(Arc::clone(&arena), 10)),
            ),
            (
                Expression::Value(Value::Number(TokenReference::borrowed(Arc::clone(&arena), 12))),
                None,
            ),
        ],
    };
    Ast { tokens: arena, nodes: Block { stmts: vec![Stmt::LocalAssignment(la)] } }
}

fn eof_only() -> Ast {
    let arena = Arc::new(TokenArena::new(vec![tok(TokenKind::Eof, "")]));
    Ast { tokens: arena, nodes: Block { stmts: vec![] } }
}

/// Records every hook invocation as a readable label, in order.
#[derive(Default)]
struct Recorder {
    log: Vec<String>,
}

impl Recorder {
    fn token(&mut self, what: &str, token: &TokenReference) {
        self.log.push(format!("{} {:?}", what, token.resolve().text));
    }
}

impl Visitor for Recorder {
    fn visit_stmt(&mut self, _node: &Stmt) {
        self.log.push("+stmt".to_string());
    }
    fn visit_stmt_end(&mut self, _node: &Stmt) {
        self.log.push("-stmt".to_string());
    }
    fn visit_local_assignment(&mut self, _node: &LocalAssignment) {
        self.log.push("+local_assignment".to_string());
    }
    fn visit_local_assignment_end(&mut self, _node: &LocalAssignment) {
        self.log.push("-local_assignment".to_string());
    }
    fn visit_do(&mut self, _node: &Do) {
        self.log.push("+do".to_string());
    }
    fn visit_do_end(&mut self, _node: &Do) {
        self.log.push("-do".to_string());
    }
    fn visit_expression(&mut self, _node: &Expression) {
        self.log.push("+expression".to_string());
    }
    fn visit_expression_end(&mut self, _node: &Expression) {
        self.log.push("-expression".to_string());
    }
    fn visit_value(&mut self, _node: &Value) {
        self.log.push("+value".to_string());
    }
    fn visit_value_end(&mut self, _node: &Value) {
        self.log.push("-value".to_string());
    }
    fn visit_eof(&mut self, token: &TokenReference) {
        self.token("eof", token);
    }
    fn visit_identifier(&mut self, token: &TokenReference) {
        self.token("identifier", token);
    }
    fn visit_multi_line_comment(&mut self, token: &TokenReference) {
        self.token("multi_line_comment", token);
    }
    fn visit_number(&mut self, token: &TokenReference) {
        self.token("number", token);
    }
    fn visit_single_line_comment(&mut self, token: &TokenReference) {
        self.token("single_line_comment", token);
    }
    fn visit_string_literal(&mut self, token: &TokenReference) {
        self.token("string_literal", token);
    }
    fn visit_symbol(&mut self, token: &TokenReference) {
        self.token("symbol", token);
    }
    fn visit_whitespace(&mut self, token: &TokenReference) {
        self.token("whitespace", token);
    }
}

#[test]
fn sweep_observes_every_index_exactly_once_in_order() {
    let ast = local_x_eq_1();
    let mut rec = Recorder::default();
    visit(&ast, &mut rec);
    let expected_sweep = vec![
        "symbol \"local\"",
        "whitespace \" \"",
        "identifier \"x\"",
        "whitespace \" \"",
        "symbol \"=\"",
        "whitespace \" \"",
        "number \"1\"",
        "eof \"\"",
    ];
    assert_eq!(&rec.log[..8], &expected_sweep[..]);
    // No token of the parsed source is observed a second time during the
    // structural descent.
    for label in &rec.log[8..] {
        assert!(label.starts_with('+') || label.starts_with('-'), "{}", label);
    }
}

#[test]
fn full_observation_order_for_local_x_eq_1() {
    let ast = local_x_eq_1();
    let mut rec = Recorder::default();
    visit(&ast, &mut rec);
    let expected = vec![
        "symbol \"local\"",
        "whitespace \" \"",
        "identifier \"x\"",
        "whitespace \" \"",
        "symbol \"=\"",
        "whitespace \" \"",
        "number \"1\"",
        "eof \"\"",
        "+stmt",
        "+local_assignment",
        "+expression",
        "+value",
        "-value",
        "-expression",
        "-local_assignment",
        "-stmt",
    ];
    assert_eq!(rec.log, expected);
}

#[test]
fn enter_and_exit_hooks_balance_and_nest() {
    let shared = Arc::new(Block {
        stmts: vec![Stmt::LocalAssignment(LocalAssignment {
            local_token: TokenReference::owned(tok(TokenKind::Symbol, "local")),
            name_list: vec![(TokenReference::owned(tok(TokenKind::Identifier, "n")), None)],
            equal_token: None,
            expr_list: vec![],
        })],
    });
    let arena = Arc::new(TokenArena::new(vec![tok(TokenKind::Eof, "")]));
    let ast = Ast {
        tokens: arena,
        nodes: Block {
            stmts: vec![Stmt::Do(Do {
                do_token: TokenReference::owned(tok(TokenKind::Symbol, "do")),
                block: shared,
                end_token: TokenReference::owned(tok(TokenKind::Symbol, "end")),
            })],
        },
    };
    let mut rec = Recorder::default();
    visit(&ast, &mut rec);
    for kind in ["stmt", "local_assignment", "do", "expression", "value"] {
        let enters: Vec<usize> = rec
            .log
            .iter()
            .enumerate()
            .filter(|(_, l)| **l == format!("+{}", kind))
            .map(|(i, _)| i)
            .collect();
        let exits: Vec<usize> = rec
            .log
            .iter()
            .enumerate()
            .filter(|(_, l)| **l == format!("-{}", kind))
            .map(|(i, _)| i)
            .collect();
        assert_eq!(enters.len(), exits.len(), "{}", kind);
        for (e, x) in enters.iter().zip(exits.iter()) {
            assert!(e < x, "{}", kind);
        }
    }
}

#[test]
fn rerendering_after_read_only_visit_is_byte_identical() {
    let ast = local_x_eq_1();
    let before = ast.render();
    assert_eq!(before, "local x = 1");
    let mut noop = treewalk::visitors::NoopVisitor;
    visit(&ast, &mut noop);
    let after = ast.render();
    assert_eq!(before.as_bytes(), after.as_bytes());
}

#[test]
fn render_of_empty_arena_is_empty() {
    let ast = eof_only();
    assert_eq!(ast.render(), "");
}

/// Rewrites the first declared name of every local assignment to `z`.
struct Renamer;

impl VisitorMut for Renamer {
    fn visit_local_assignment(&mut self, node: &mut LocalAssignment) {
        if !node.name_list.is_empty() {
            node.name_list[0].0 = TokenReference::owned(tok(TokenKind::Identifier, "z"));
        }
    }
}

/// Collects the declared names of every local assignment it enters, reading
/// the identifier tokens of the name list.
#[derive(Default)]
struct NameCollector {
    names: Vec<String>,
}

impl Visitor for NameCollector {
    fn visit_local_assignment(&mut self, node: &LocalAssignment) {
        for (name, _) in &node.name_list {
            if name.token_kind() == TokenKind::Identifier {
                self.names.push(name.resolve().text);
            }
        }
    }
}

#[test]
fn copy_on_write_keeps_the_other_tree_unchanged() {
    let shared = Arc::new(Block {
        stmts: vec![Stmt::LocalAssignment(LocalAssignment {
            local_token: TokenReference::owned(tok(TokenKind::Symbol, "local")),
            name_list: vec![(TokenReference::owned(tok(TokenKind::Identifier, "x")), None)],
            equal_token: None,
            expr_list: vec![],
        })],
    });
    let make_ast = |block: Arc<Block>| Ast {
        tokens: Arc::new(TokenArena::new(vec![tok(TokenKind::Eof, "")])),
        nodes: Block {
            stmts: vec![Stmt::Do(Do {
                do_token: TokenReference::owned(tok(TokenKind::Symbol, "do")),
                block,
                end_token: TokenReference::owned(tok(TokenKind::Symbol, "end")),
            })],
        },
    };
    let mut ast_a = make_ast(Arc::clone(&shared));
    let ast_b = make_ast(shared);

    let mut renamer = Renamer;
    visit_mut(&mut ast_a, &mut renamer);

    let mut names_a = NameCollector::default();
    visit(&ast_a, &mut names_a);
    assert_eq!(names_a.names, vec!["z".to_string()]);

    let mut names_b = NameCollector::default();
    visit(&ast_b, &mut names_b);
    assert_eq!(names_b.names, vec!["x".to_string()]);
}

#[test]
fn same_visitor_twice_observes_the_same_sequence() {
    let ast = local_x_y();
    let mut rec = Recorder::default();
    visit(&ast, &mut rec);
    let first = rec.log.clone();
    visit(&ast, &mut rec);
    assert_eq!(&rec.log[..first.len()], &first[..]);
    assert_eq!(&rec.log[first.len()..], &first[..]);

    let e1 = ast.events();
    let e2 = ast.events();
    assert_eq!(e1, e2);
}

/// Overrides only the local-assignment enter hook and the identifier token
/// hook.
#[derive(Default)]
struct LocalAndIdent {
    locals: usize,
    identifiers: Vec<String>,
}

impl Visitor for LocalAndIdent {
    fn visit_local_assignment(&mut self, _node: &LocalAssignment) {
        self.locals += 1;
    }
    fn visit_identifier(&mut self, token: &TokenReference) {
        self.identifiers.push(token.resolve().text);
    }
}

#[test]
fn local_x_eq_1_scenario() {
    let ast = local_x_eq_1();
    let mut v = LocalAndIdent::default();
    visit(&ast, &mut v);
    assert_eq!(v.locals, 1);
    assert_eq!(v.identifiers, vec!["x".to_string()]);
}

#[test]
fn name_collecting_scenario() {
    let ast = local_x_y();
    let mut v = NameCollector::default();
    visit(&ast, &mut v);
    assert_eq!(v.names, vec!["x".to_string(), "y".to_string()]);
}

/// Counts every hook invocation, split into token hooks and node hooks.
#[derive(Default)]
struct CountAll {
    token_hooks: usize,
    node_hooks: usize,
    eofs: usize,
}

impl Visitor for CountAll {
    fn visit_stmt(&mut self, _node: &Stmt) {
        self.node_hooks += 1;
    }
    fn visit_stmt_end(&mut self, _node: &Stmt) {
        self.node_hooks += 1;
    }
    fn visit_local_assignment(&mut self, _node: &LocalAssignment) {
        self.node_hooks += 1;
    }
    fn visit_local_assignment_end(&mut self, _node: &LocalAssignment) {
        self.node_hooks += 1;
    }
    fn visit_do(&mut self, _node: &Do) {
        self.node_hooks += 1;
    }
    fn visit_do_end(&mut self, _node: &Do) {
        self.node_hooks += 1;
    }
    fn visit_expression(&mut self, _node: &Expression) {
        self.node_hooks += 1;
    }
    fn visit_expression_end(&mut self, _node: &Expression) {
        self.node_hooks += 1;
    }
    fn visit_value(&mut self, _node: &Value) {
        self.node_hooks += 1;
    }
    fn visit_value_end(&mut self, _node: &Value) {
        self.node_hooks += 1;
    }
    fn visit_eof(&mut self, _token: &TokenReference) {
        self.token_hooks += 1;
        self.eofs += 1;
    }
    fn visit_identifier(&mut self, _token: &TokenReference) {
        self.token_hooks += 1;
    }
    fn visit_multi_line_comment(&mut self, _token: &TokenReference) {
        self.token_hooks += 1;
    }
    fn visit_number(&mut self, _token: &TokenReference) {
        self.token_hooks += 1;
    }
    fn visit_single_line_comment(&mut self, _token: &TokenReference) {
        self.token_hooks += 1;
    }
    fn visit_string_literal(&mut self, _token: &TokenReference) {
        self.token_hooks += 1;
    }
    fn visit_symbol(&mut self, _token: &TokenReference) {
        self.token_hooks += 1;
    }
    fn visit_whitespace(&mut self, _token: &TokenReference) {
        self.token_hooks += 1;
    }
}

#[test]
fn eof_only_scenario() {
    let ast = eof_only();
    let mut v = CountAll::default();
    visit(&ast, &mut v);
    assert_eq!(v.token_hooks, 1);
    assert_eq!(v.eofs, 1);
    assert_eq!(v.node_hooks, 0);
}

#[test]
fn every_token_kind_dispatches_to_its_own_hook() {
    let arena = Arc::new(TokenArena::new(vec![
        tok(TokenKind::Identifier, "a"),
        tok(TokenKind::MultiLineComment, "--[[c]]"),
        tok(TokenKind::Number, "7"),
        tok(TokenKind::SingleLineComment, "--c"),
        tok(TokenKind::StringLiteral, "\"s\""),
        tok(TokenKind::Symbol, "="),
        tok(TokenKind::Whitespace, " "),
        tok(TokenKind::Eof, ""),
    ]));
    let ast = Ast { tokens: arena, nodes: Block { stmts: vec![] } };
    let mut rec = Recorder::default();
    visit(&ast, &mut rec);
    assert_eq!(
        rec.log,
        vec![
            "identifier \"a\"",
            "multi_line_comment \"--[[c]]\"",
            "number \"7\"",
            "single_line_comment \"--c\"",
            "string_literal \"\\\"s\\\"\"",
            "symbol \"=\"",
            "whitespace \" \"",
            "eof \"\"",
        ]
    );
}

/// Rewrites the expression list in the enter hook; the rewrite must be seen
/// by the descent and by the exit hook.
#[derive(Default)]
struct ExprRewriter {
    seen_numbers: Vec<String>,
    exit_saw: Vec<String>,
}

impl VisitorMut for ExprRewriter {
    fn visit_local_assignment(&mut self, node: &mut LocalAssignment) {
        node.expr_list = vec![(
            Expression::Value(Value::Number(TokenReference::owned(tok(TokenKind::Number, "9")))),
            None,
        )];
    }
    fn visit_local_assignment_end(&mut self, node: &mut LocalAssignment) {
        for (e, _) in &node.expr_list {
            let Expression::Value(Value::Number(t)) = e else { continue };
            self.exit_saw.push(t.resolve().text);
        }
    }
    fn visit_number(&mut self, token: &mut TokenReference) {
        self.seen_numbers.push(token.resolve().text);
    }
}

#[test]
fn enter_hook_rewrite_is_visible_to_descent_and_exit() {
    let mut ast = local_x_eq_1();
    let mut v = ExprRewriter::default();
    visit_mut(&mut ast, &mut v);
    // The sweep observes the arena's "1"; the descent then observes the
    // synthesized owned "9" that the enter hook put into the tree.
    assert_eq!(v.seen_numbers, vec!["1".to_string(), "9".to_string()]);
    assert_eq!(v.exit_saw, vec!["9".to_string()]);
    // The arena itself is never restructured by a mutating traversal.
    assert_eq!(ast.render(), "local x = 1");
}

#[test]
fn events_model_the_observed_sequence() {
    let ast = local_x_eq_1();
    let events = ast.events();
    assert_eq!(events.len(), 8 + 8);
    for (i, e) in events[..8].iter().enumerate() {
        let Event::Tok(t) = e else { panic!("expected a token observation") };
        assert_eq!(*t, ast.tokens.get(i).clone());
    }
    assert!(matches!(events[8], Event::Enter(NodeKind::Stmt)));
    assert!(matches!(events[9], Event::Enter(NodeKind::LocalAssignment)));
    assert!(matches!(events[10], Event::Enter(NodeKind::Expression)));
    assert!(matches!(events[11], Event::Enter(NodeKind::Value)));
    assert!(matches!(events[12], Event::Exit(NodeKind::Value)));
    assert!(matches!(events[13], Event::Exit(NodeKind::Expression)));
    assert!(matches!(events[14], Event::Exit(NodeKind::LocalAssignment)));
    assert!(matches!(events[15], Event::Exit(NodeKind::Stmt)));
}

#[test]
fn render_reproduces_the_exact_source() {
    let ast = local_x_y();
    assert_eq!(ast.render(), "local x, y = 1, 2");
}

#[test]
fn parenthesized_expression_traverses_through_the_indirection() {
    let arena = Arc::new(TokenArena::new(vec![tok(TokenKind::Eof, "")]));
    let inner = Expression::Value(Value::Number(TokenReference::owned(tok(
        TokenKind::Number,
        "7",
    ))));
    let la = LocalAssignment {
        local_token: TokenReference::owned(tok(TokenKind::Symbol, "local")),
        name_list: vec![(TokenReference::owned(tok(TokenKind::Identifier, "p")), None)],
        equal_token: Some(TokenReference::owned(tok(TokenKind::Symbol, "="))),
        expr_list: vec![(
            Expression::Value(Value::Paren(
                TokenReference::owned(tok(TokenKind::Symbol, "(")),
                Box::new(inner),
                TokenReference::owned(tok(TokenKind::Symbol, ")")),
            )),
            None,
        )],
    };
    let ast = Ast { tokens: arena, nodes: Block { stmts: vec![Stmt::LocalAssignment(la)] } };
    let mut rec = Recorder::default();
    visit(&ast, &mut rec);
    let expected = vec![
        "eof \"\"",
        "+stmt",
        "+local_assignment",
        "symbol \"local\"",
        "identifier \"p\"",
        "symbol \"=\"",
        "+expression",
        "+value",
        "symbol \"(\"",
        "+expression",
        "+value",
        "number \"7\"",
        "-value",
        "-expression",
        "symbol \")\"",
        "-value",
        "-expression",
        "-local_assignment",
        "-stmt",
    ];
    assert_eq!(rec.log, expected);
}

fn event_label(e: &Event) -> String {
    match e {
        Event::Enter(NodeKind::Stmt) => "+stmt".to_string(),
        Event::Enter(NodeKind::LocalAssignment) => "+local_assignment".to_string(),
        Event::Enter(NodeKind::Do) => "+do".to_string(),
        Event::Enter(NodeKind::Expression) => "+expression".to_string(),
        Event::Enter(NodeKind::Value) => "+value".to_string(),
        Event::Exit(NodeKind::Stmt) => "-stmt".to_string(),
        Event::Exit(NodeKind::LocalAssignment) => "-local_assignment".to_string(),
        Event::Exit(NodeKind::Do) => "-do".to_string(),
        Event::Exit(NodeKind::Expression) => "-expression".to_string(),
        Event::Exit(NodeKind::Value) => "-value".to_string(),
        Event::Tok(t) => {
            let hook = match t.kind {
                TokenKind::Eof => "eof",
                TokenKind::Identifier => "identifier",
                TokenKind::MultiLineComment => "multi_line_comment",
                TokenKind::Number => "number",
                TokenKind::SingleLineComment => "single_line_comment",
                TokenKind::StringLiteral => "string_literal",
                TokenKind::Symbol => "symbol",
                TokenKind::Whitespace => "whitespace",
            };
            format!("{} {:?}", hook, t.text)
        }
    }
}

#[test]
fn driver_hook_order_matches_the_event_model() {
    let shared = Arc::new(Block {
        stmts: vec![Stmt::LocalAssignment(LocalAssignment {
            local_token: TokenReference::owned(tok(TokenKind::Symbol, "local")),
            name_list: vec![(TokenReference::owned(tok(TokenKind::Identifier, "q")), None)],
            equal_token: Some(TokenReference::owned(tok(TokenKind::Symbol, "="))),
            expr_list: vec![(
                Expression::Value(Value::Paren(
                    TokenReference::owned(tok(TokenKind::Symbol, "(")),
                    Box::new(Expression::Value(Value::Var(TokenReference::owned(tok(
                        TokenKind::Identifier,
                        "w",
                    ))))),
                    TokenReference::owned(tok(TokenKind::Symbol, ")")),
                )),
                None,
            )],
        })],
    });
    let arena = Arc::new(TokenArena::new(vec![
        tok(TokenKind::SingleLineComment, "--note"),
        tok(TokenKind::Eof, ""),
    ]));
    let ast = Ast {
        tokens: arena,
        nodes: Block {
            stmts: vec![Stmt::Do(Do {
                do_token: TokenReference::owned(tok(TokenKind::Symbol, "do")),
                block: shared,
                end_token: TokenReference::owned(tok(TokenKind::Symbol, "end")),
            })],
        },
    };
    let mut rec = Recorder::default();
    visit(&ast, &mut rec);
    let model: Vec<String> = ast.events().iter().map(event_label).collect();
    assert_eq!(rec.log, model);
}
