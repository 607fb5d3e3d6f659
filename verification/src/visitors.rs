use vstd::prelude::*;

use crate::ast::{
    block_height, do_height, expression_height, lemma_expr_list_height_elem,
    lemma_stmt_list_height_elem, local_assignment_height, stmt_height, value_height, Ast, Block,
    Do, Expression, LocalAssignment, Stmt, Value,
};
use crate::tokenizer::{arc_clone, TokenKind, TokenReference};
use std::sync::Arc;

verus! {

/// Invokes the read-only token hook that matches the referenced token's kind.
fn dispatch_token<V: Visitor>(token: &TokenReference, visitor: &mut V) {
    match token.token_kind() {
        TokenKind::Eof => visitor.visit_eof(token),
        TokenKind::Identifier => visitor.visit_identifier(token),
        TokenKind::MultiLineComment => visitor.visit_multi_line_comment(token),
        TokenKind::Number => visitor.visit_number(token),
        TokenKind::SingleLineComment => visitor.visit_single_line_comment(token),
        TokenKind::StringLiteral => visitor.visit_string_literal(token),
        TokenKind::Symbol => visitor.visit_symbol(token),
        TokenKind::Whitespace => visitor.visit_whitespace(token),
    }
}

/// Invokes the mutating token hook that matches the referenced token's kind.
fn dispatch_token_mut<V: VisitorMut>(token: &mut TokenReference, visitor: &mut V) {
    match token.token_kind() {
        TokenKind::Eof => visitor.visit_eof(token),
        TokenKind::Identifier => visitor.visit_identifier(token),
        TokenKind::MultiLineComment => visitor.visit_multi_line_comment(token),
        TokenKind::Number => visitor.visit_number(token),
        TokenKind::SingleLineComment => visitor.visit_single_line_comment(token),
        TokenKind::StringLiteral => visitor.visit_string_literal(token),
        TokenKind::Symbol => visitor.visit_symbol(token),
        TokenKind::Whitespace => visitor.visit_whitespace(token),
    }
}

/// The structural descent for one token reference. A borrowed, arena-backed
/// token was already observed by the full-arena sweep, so only an owned
/// (synthesized or detached) token dispatches here: each token is observed
/// exactly once over a whole traversal.
fn walk_token_ref<V: Visitor>(token: &TokenReference, visitor: &mut V) {
    if token.is_owned() {
        dispatch_token(token, visitor);
    }
}

fn walk_opt_token<V: Visitor>(token: &Option<TokenReference>, visitor: &mut V) {
    match token {
        Some(t) => walk_token_ref(t, visitor),
        None => {},
    }
}

fn walk_block<V: Visitor>(b: &Block, visitor: &mut V)
    decreases b,
{
    let mut i: usize = 0;
    while i < b.stmts.len()
        decreases b.stmts@.len() - i,
    {
        walk_stmt(&b.stmts[i], visitor);
        i = i + 1;
    }
}

fn walk_stmt<V: Visitor>(s: &Stmt, visitor: &mut V)
    decreases s,
{
    visitor.visit_stmt(s);
    match s {
        Stmt::LocalAssignment(node) => walk_local_assignment(node, visitor),
        Stmt::Do(node) => walk_do(node, visitor),
    }
    visitor.visit_stmt_end(s);
}

fn walk_local_assignment<V: Visitor>(la: &LocalAssignment, visitor: &mut V)
    decreases la,
{
    visitor.visit_local_assignment(la);
    walk_token_ref(&la.local_token, visitor);
    let mut i: usize = 0;
    while i < la.name_list.len()
        decreases la.name_list@.len() - i,
    {
        walk_token_ref(&la.name_list[i].0, visitor);
        walk_opt_token(&la.name_list[i].1, visitor);
        i = i + 1;
    }
    walk_opt_token(&la.equal_token, visitor);
    let mut j: usize = 0;
    while j < la.expr_list.len()
        decreases la.expr_list@.len() - j,
    {
        walk_expression(&la.expr_list[j].0, visitor);
        walk_opt_token(&la.expr_list[j].1, visitor);
        j = j + 1;
    }
    visitor.visit_local_assignment_end(la);
}

fn walk_do<V: Visitor>(d: &Do, visitor: &mut V)
    decreases d,
{
    visitor.visit_do(d);
    walk_token_ref(&d.do_token, visitor);
    walk_block(&*d.block, visitor);
    walk_token_ref(&d.end_token, visitor);
    visitor.visit_do_end(d);
}

fn walk_expression<V: Visitor>(e: &Expression, visitor: &mut V)
    decreases e,
{
    visitor.visit_expression(e);
    match e {
        Expression::Value(v) => walk_value(v, visitor),
    }
    visitor.visit_expression_end(e);
}

fn walk_value<V: Visitor>(v: &Value, visitor: &mut V)
    decreases v,
{
    visitor.visit_value(v);
    match v {
        Value::Number(t) => walk_token_ref(t, visitor),
        Value::StringLiteral(t) => walk_token_ref(t, visitor),
        Value::Var(t) => walk_token_ref(t, visitor),
        Value::Paren(open, e, close) => {
            walk_token_ref(open, visitor);
            walk_expression(&**e, visitor);
            walk_token_ref(close, visitor);
        },
    }
    visitor.visit_value_end(v);
}

/// The mutating structural descent for one token reference; as on the
/// read-only path, only an owned token dispatches here.
fn walk_token_ref_mut<V: VisitorMut>(token: &mut TokenReference, visitor: &mut V) {
    if token.is_owned() {
        dispatch_token_mut(token, visitor);
    }
}

fn walk_opt_token_mut<V: VisitorMut>(token: &mut Option<TokenReference>, visitor: &mut V) {
    match token {
        Some(t) => walk_token_ref_mut(t, visitor),
        None => {},
    }
}

fn walk_block_mut<V: VisitorMut>(b: &mut Block, visitor: &mut V)
    decreases block_height(*old(b)),
{
    proof {
        assert forall|k: int| 0 <= k < b.stmts@.len() implies stmt_height(b.stmts@[k])
            < block_height(*b) by {
            lemma_stmt_list_height_elem(b.stmts@, k);
        }
    }
    let ghost bound = block_height(*b);
    let mut done: Vec<Stmt> = Vec::new();
    while b.stmts.len() > 0
        invariant
            forall|k: int|
                0 <= k < b.stmts@.len() ==> stmt_height(#[trigger] b.stmts@[k]) < bound,
            bound == block_height(*old(b)),
        decreases b.stmts@.len(),
    {
        let mut s = b.stmts.remove(0);
        walk_stmt_mut(&mut s, visitor);
        done.push(s);
    }
    b.stmts = done;
}

fn walk_stmt_mut<V: VisitorMut>(s: &mut Stmt, visitor: &mut V)
    decreases stmt_height(*old(s)),
{
    visitor.visit_stmt(s);
    match s {
        Stmt::LocalAssignment(node) => walk_local_assignment_mut(node, visitor),
        Stmt::Do(node) => walk_do_mut(node, visitor),
    }
    visitor.visit_stmt_end(s);
}

fn walk_local_assignment_mut<V: VisitorMut>(la: &mut LocalAssignment, visitor: &mut V)
    decreases local_assignment_height(*old(la)),
{
    visitor.visit_local_assignment(la);
    proof {
        assert forall|k: int| 0 <= k < la.expr_list@.len() implies expression_height(
            la.expr_list@[k].0,
        ) < local_assignment_height(*old(la)) by {
            lemma_expr_list_height_elem(la.expr_list@, k);
        }
    }
    let ghost bound = local_assignment_height(*old(la));
    let ghost exprs0 = la.expr_list@;
    walk_token_ref_mut(&mut la.local_token, visitor);
    let mut names_done: Vec<(TokenReference, Option<TokenReference>)> = Vec::new();
    while la.name_list.len() > 0
        invariant
            la.expr_list@ == exprs0,
            forall|k: int|
                0 <= k < exprs0.len() ==> expression_height(#[trigger] exprs0[k].0) < bound,
        decreases la.name_list@.len(),
    {
        let mut pair = la.name_list.remove(0);
        walk_token_ref_mut(&mut pair.0, visitor);
        walk_opt_token_mut(&mut pair.1, visitor);
        names_done.push(pair);
    }
    la.name_list = names_done;
    walk_opt_token_mut(&mut la.equal_token, visitor);
    let mut exprs_done: Vec<(Expression, Option<TokenReference>)> = Vec::new();
    while la.expr_list.len() > 0
        invariant
            forall|k: int|
                0 <= k < la.expr_list@.len() ==> expression_height(
                    #[trigger] la.expr_list@[k].0,
                ) < bound,
            bound == local_assignment_height(*old(la)),
        decreases la.expr_list@.len(),
    {
        let mut pair = la.expr_list.remove(0);
        walk_expression_mut(&mut pair.0, visitor);
        walk_opt_token_mut(&mut pair.1, visitor);
        exprs_done.push(pair);
    }
    la.expr_list = exprs_done;
    visitor.visit_local_assignment_end(la);
}

fn walk_do_mut<V: VisitorMut>(d: &mut Do, visitor: &mut V)
    decreases do_height(*old(d)),
{
    visitor.visit_do(d);
    walk_token_ref_mut(&mut d.do_token, visitor);
    let mut inner: Block = (&*d.block).deep_clone();
    walk_block_mut(&mut inner, visitor);
    d.block = Arc::new(inner);
    walk_token_ref_mut(&mut d.end_token, visitor);
    visitor.visit_do_end(d);
}

fn walk_expression_mut<V: VisitorMut>(e: &mut Expression, visitor: &mut V)
    decreases expression_height(*old(e)),
{
    visitor.visit_expression(e);
    match e {
        Expression::Value(v) => walk_value_mut(v, visitor),
    }
    visitor.visit_expression_end(e);
}

fn walk_value_mut<V: VisitorMut>(v: &mut Value, visitor: &mut V)
    decreases value_height(*old(v)),
{
    visitor.visit_value(v);
    match v {
        Value::Number(t) => walk_token_ref_mut(t, visitor),
        Value::StringLiteral(t) => walk_token_ref_mut(t, visitor),
        Value::Var(t) => walk_token_ref_mut(t, visitor),
        Value::Paren(open, e, close) => {
            walk_token_ref_mut(open, visitor);
            walk_expression_mut(&mut **e, visitor);
            walk_token_ref_mut(close, visitor);
        },
    }
    visitor.visit_value_end(v);
}

/// A visitor over immutable views of a tree: one enter and one exit method
/// per node kind, one method per token kind, all defaulting to no-ops. The
/// traversal order is deterministic — depth-first, left to right, enter
/// before the children, exit after — and is modelled exactly by
/// `crate::trace::ast_trace`.
pub trait Visitor {
    fn visit_stmt(&mut self, _node: &Stmt) {
    }

    fn visit_stmt_end(&mut self, _node: &Stmt) {
    }

    fn visit_local_assignment(&mut self, _node: &LocalAssignment) {
    }

    fn visit_local_assignment_end(&mut self, _node: &LocalAssignment) {
    }

    fn visit_do(&mut self, _node: &Do) {
    }

    fn visit_do_end(&mut self, _node: &Do) {
    }

    fn visit_expression(&mut self, _node: &Expression) {
    }

    fn visit_expression_end(&mut self, _node: &Expression) {
    }

    fn visit_value(&mut self, _node: &Value) {
    }

    fn visit_value_end(&mut self, _node: &Value) {
    }

    fn visit_eof(&mut self, _token: &TokenReference) {
    }

    fn visit_identifier(&mut self, _token: &TokenReference) {
    }

    fn visit_multi_line_comment(&mut self, _token: &TokenReference) {
    }

    fn visit_number(&mut self, _token: &TokenReference) {
    }

    fn visit_single_line_comment(&mut self, _token: &TokenReference) {
    }

    fn visit_string_literal(&mut self, _token: &TokenReference) {
    }

    fn visit_symbol(&mut self, _token: &TokenReference) {
    }

    fn visit_whitespace(&mut self, _token: &TokenReference) {
    }
}

/// A visitor over mutable views of a tree: the same shape as `Visitor`, but
/// every hook may rewrite the node or token it receives in place. A rewrite
/// made in an enter hook is visible to the descent into that node's children
/// and to the matching exit hook. An enter hook may not deepen the node it
/// rewrites — the bound that keeps the traversal total, mirroring a source
/// tree whose depth is fixed by the parsed text; exit and token hooks are
/// unconstrained.
pub trait VisitorMut {
    fn visit_stmt(&mut self, node: &mut Stmt)
        ensures
            stmt_height(*final(node)) <= stmt_height(*old(node)),
    {
    }

    fn visit_stmt_end(&mut self, _node: &mut Stmt) {
    }

    fn visit_local_assignment(&mut self, node: &mut LocalAssignment)
        ensures
            local_assignment_height(*final(node)) <= local_assignment_height(*old(node)),
    {
    }

    fn visit_local_assignment_end(&mut self, _node: &mut LocalAssignment) {
    }

    fn visit_do(&mut self, node: &mut Do)
        ensures
            do_height(*final(node)) <= do_height(*old(node)),
    {
    }

    fn visit_do_end(&mut self, _node: &mut Do) {
    }

    fn visit_expression(&mut self, node: &mut Expression)
        ensures
            expression_height(*final(node)) <= expression_height(*old(node)),
    {
    }

    fn visit_expression_end(&mut self, _node: &mut Expression) {
    }

    fn visit_value(&mut self, node: &mut Value)
        ensures
            value_height(*final(node)) <= value_height(*old(node)),
    {
    }

    fn visit_value_end(&mut self, _node: &mut Value) {
    }

    fn visit_eof(&mut self, _token: &mut TokenReference) {
    }

    fn visit_identifier(&mut self, _token: &mut TokenReference) {
    }

    fn visit_multi_line_comment(&mut self, _token: &mut TokenReference) {
    }

    fn visit_number(&mut self, _token: &mut TokenReference) {
    }

    fn visit_single_line_comment(&mut self, _token: &mut TokenReference) {
    }

    fn visit_string_literal(&mut self, _token: &mut TokenReference) {
    }

    fn visit_symbol(&mut self, _token: &mut TokenReference) {
    }

    fn visit_whitespace(&mut self, _token: &mut TokenReference) {
    }
}

/// Runs a read-only visitor over a whole tree, in two ordered passes: the
/// full-arena sweep first, which observes every token — trivia included —
/// exactly once, at strictly increasing indices, in left-to-right document
/// order; then the structural descent from the root block.
pub fn visit<V: Visitor>(ast: &Ast, visitor: &mut V) {
    let n: usize = (&*ast.tokens).len();
    let mut i: usize = 0;
    while i < n
        invariant
            n == ast.tokens@.len(),
        decreases n - i,
    {
        let token = TokenReference::borrowed(arc_clone(&ast.tokens), i);
        dispatch_token(&token, visitor);
        i = i + 1;
    }
    walk_block(&ast.nodes, visitor);
}

/// Runs a mutating visitor over a whole tree: the full-arena sweep first,
/// then the structural descent. The sweep hands each hook a fresh borrowed
/// reference; the arena itself is never restructured, so a pass-one
/// observation is never affected by a pass-two rewrite, and pass two sees
/// only rewrites made within pass two itself. The arena is never
/// restructured by mutation: rewrites replace node fields, never arena
/// entries.
pub fn visit_mut<V: VisitorMut>(ast: &mut Ast, visitor: &mut V)
    ensures
        final(ast).tokens == old(ast).tokens,
{
    let n: usize = (&*ast.tokens).len();
    let mut i: usize = 0;
    while i < n
        invariant
            n == ast.tokens@.len(),
        decreases n - i,
    {
        let mut token = TokenReference::borrowed(arc_clone(&ast.tokens), i);
        dispatch_token_mut(&mut token, visitor);
        i = i + 1;
    }
    walk_block_mut(&mut ast.nodes, visitor);
}

/// A visitor with every hook left at its default: it observes nothing and
/// rewrites nothing. Traversing with it exercises the full dispatch path
/// and has no effect.
pub struct NoopVisitor;

impl Visitor for NoopVisitor {

}

impl VisitorMut for NoopVisitor {

}

/// The read-only structural-recursion capability: every node kind and every
/// generic container satisfies it, and what it visits is fully determined by
/// the declared field list — no node kind carries bespoke traversal code.
pub trait Visit {
    fn visit<V: Visitor>(&self, visitor: &mut V);
}

/// The mutating structural-recursion capability, dual to `Visit`.
pub trait VisitMut {
    fn visit_mut<V: VisitorMut>(&mut self, visitor: &mut V);
}

impl Visit for TokenReference {
    fn visit<V: Visitor>(&self, visitor: &mut V) {
        walk_token_ref(self, visitor);
    }
}

impl VisitMut for TokenReference {
    fn visit_mut<V: VisitorMut>(&mut self, visitor: &mut V) {
        walk_token_ref_mut(self, visitor);
    }
}

impl<T: Visit> Visit for Vec<T> {
    fn visit<V: Visitor>(&self, visitor: &mut V) {
        let mut i: usize = 0;
        while i < self.len()
            decreases self@.len() - i,
        {
            self[i].visit(visitor);
            i = i + 1;
        }
    }
}

impl<T: VisitMut> VisitMut for Vec<T> {
    /// The container visits each element in index order; it adds and drops
    /// no element of its own.
    fn visit_mut<V: VisitorMut>(&mut self, visitor: &mut V)
        ensures
            final(self)@.len() == old(self)@.len(),
    {
        let ghost n = self@.len();
        let mut done: Vec<T> = Vec::new();
        while self.len() > 0
            invariant
                self@.len() + done@.len() == n,
            decreases self@.len(),
        {
            let mut item = self.remove(0);
            item.visit_mut(visitor);
            done.push(item);
        }
        *self = done;
    }
}

impl<T: Visit> Visit for Option<T> {
    fn visit<V: Visitor>(&self, visitor: &mut V) {
        match self {
            Some(item) => item.visit(visitor),
            None => {},
        }
    }
}

impl<T: VisitMut> VisitMut for Option<T> {
    /// The container visits the contained value if present and is otherwise
    /// a no-op; it never adds or drops the value itself.
    fn visit_mut<V: VisitorMut>(&mut self, visitor: &mut V)
        ensures
            (*final(self)) is Some <==> (*old(self)) is Some,
            (*old(self)) is None ==> *final(self) == *old(self),
    {
        match self {
            Some(item) => item.visit_mut(visitor),
            None => {},
        }
    }
}

impl<A: Visit, B: Visit> Visit for (A, B) {
    fn visit<V: Visitor>(&self, visitor: &mut V) {
        self.0.visit(visitor);
        self.1.visit(visitor);
    }
}

impl<A: VisitMut, B: VisitMut> VisitMut for (A, B) {
    fn visit_mut<V: VisitorMut>(&mut self, visitor: &mut V) {
        self.0.visit_mut(visitor);
        self.1.visit_mut(visitor);
    }
}

impl<T: Visit> Visit for Box<T> {
    fn visit<V: Visitor>(&self, visitor: &mut V) {
        (**self).visit(visitor);
    }
}

impl<T: VisitMut> VisitMut for Box<T> {
    fn visit_mut<V: VisitorMut>(&mut self, visitor: &mut V) {
        (**self).visit_mut(visitor);
    }
}

impl<T: Visit> Visit for Arc<T> {
    /// The read-only path forwards to the shared value directly, without
    /// copying it.
    fn visit<V: Visitor>(&self, visitor: &mut V) {
        (**self).visit(visitor);
    }
}

impl VisitMut for Arc<Block> {
    /// The mutating path obtains a private duplicate of the shared block
    /// before forwarding, so every other holder of the same handle keeps
    /// observing the original; blocks nested deeper keep their own shared
    /// handles until a rewrite descends into them.
    fn visit_mut<V: VisitorMut>(&mut self, visitor: &mut V) {
        let mut inner: Block = (&**self).deep_clone();
        walk_block_mut(&mut inner, visitor);
        *self = Arc::new(inner);
    }
}

impl Visit for Block {
    fn visit<V: Visitor>(&self, visitor: &mut V) {
        walk_block(self, visitor);
    }
}

impl VisitMut for Block {
    fn visit_mut<V: VisitorMut>(&mut self, visitor: &mut V) {
        walk_block_mut(self, visitor);
    }
}

impl Visit for Stmt {
    fn visit<V: Visitor>(&self, visitor: &mut V) {
        walk_stmt(self, visitor);
    }
}

impl VisitMut for Stmt {
    fn visit_mut<V: VisitorMut>(&mut self, visitor: &mut V) {
        walk_stmt_mut(self, visitor);
    }
}

impl Visit for LocalAssignment {
    fn visit<V: Visitor>(&self, visitor: &mut V) {
        walk_local_assignment(self, visitor);
    }
}

impl VisitMut for LocalAssignment {
    fn visit_mut<V: VisitorMut>(&mut self, visitor: &mut V) {
        walk_local_assignment_mut(self, visitor);
    }
}

impl Visit for Do {
    fn visit<V: Visitor>(&self, visitor: &mut V) {
        walk_do(self, visitor);
    }
}

impl VisitMut for Do {
    fn visit_mut<V: VisitorMut>(&mut self, visitor: &mut V) {
        walk_do_mut(self, visitor);
    }
}

impl Visit for Expression {
    fn visit<V: Visitor>(&self, visitor: &mut V) {
        walk_expression(self, visitor);
    }
}

impl VisitMut for Expression {
    fn visit_mut<V: VisitorMut>(&mut self, visitor: &mut V) {
        walk_expression_mut(self, visitor);
    }
}

impl Visit for Value {
    fn visit<V: Visitor>(&self, visitor: &mut V) {
        walk_value(self, visitor);
    }
}

impl VisitMut for Value {
    fn visit_mut<V: VisitorMut>(&mut self, visitor: &mut V) {
        walk_value_mut(self, visitor);
    }
}

} // verus!
