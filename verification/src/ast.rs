use vstd::prelude::*;

use crate::tokenizer::{arc_clone, TokenArena, TokenReference};
use crate::trace::{block_trace, local_assignment_trace, stmt_list_trace, stmt_trace};
use std::sync::Arc;

verus! {

/// A syntax tree: it owns the shared token arena and the root block. It is
/// produced once by the external parser; read-only traversal never changes
/// it, mutating traversal may replace node fields in place.
pub struct Ast {
    pub tokens: Arc<TokenArena>,
    pub nodes: Block,
}

/// An ordered sequence of statements. A block is structure rather than a
/// dispatched node kind: descending into one fires no hook of its own, so a
/// tree whose root block is empty fires no node hook at all.
pub struct Block {
    pub stmts: Vec<Stmt>,
}

/// A statement, one of the syntactic node kinds of the manifest.
pub enum Stmt {
    LocalAssignment(LocalAssignment),
    Do(Do),
}

/// A local assignment: the `local` keyword, a comma-separated list of names,
/// and optionally an equals sign followed by a comma-separated list of
/// expressions. Each list entry pairs the element with its trailing
/// separator, if any.
pub struct LocalAssignment {
    pub local_token: TokenReference,
    pub name_list: Vec<(TokenReference, Option<TokenReference>)>,
    pub equal_token: Option<TokenReference>,
    pub expr_list: Vec<(Expression, Option<TokenReference>)>,
}

/// A `do` block. Its body sits behind a shared, copy-on-write handle: trees
/// that duplicate each other keep sharing the body until one of them
/// rewrites it.
pub struct Do {
    pub do_token: TokenReference,
    pub block: Arc<Block>,
    pub end_token: TokenReference,
}

/// An expression node; it wraps the value it evaluates.
pub enum Expression {
    Value(Value),
}

/// A value: a literal or variable token, or a parenthesized expression held
/// through an owned indirection.
pub enum Value {
    Number(TokenReference),
    StringLiteral(TokenReference),
    Var(TokenReference),
    Paren(TokenReference, Box<Expression>, TokenReference),
}

/// The nesting depth of a value. The heights below bound the recursion of
/// the mutating traversal: an enter hook may rewrite a node, but not deepen
/// it, which keeps traversal total.
pub open spec fn value_height(v: Value) -> nat
    decreases v,
{
    match v {
        Value::Number(_) => 1,
        Value::StringLiteral(_) => 1,
        Value::Var(_) => 1,
        Value::Paren(_, e, _) => expression_height(*e) + 1,
    }
}

/// The nesting depth of an expression.
pub open spec fn expression_height(e: Expression) -> nat
    decreases e,
{
    match e {
        Expression::Value(v) => value_height(v) + 1,
    }
}

/// The largest nesting depth among the expressions of a list.
pub open spec fn expr_list_height(es: Seq<(Expression, Option<TokenReference>)>) -> nat
    decreases es,
{
    if es.len() == 0 {
        0
    } else {
        let rest = expr_list_height(es.drop_last());
        let h = expression_height(es.last().0);
        if rest >= h {
            rest
        } else {
            h
        }
    }
}

/// The nesting depth of a local assignment.
pub open spec fn local_assignment_height(la: LocalAssignment) -> nat {
    expr_list_height(la.expr_list@) + 1
}

/// The nesting depth of a `do` block.
pub open spec fn do_height(d: Do) -> nat
    decreases d,
{
    block_height(*d.block) + 1
}

/// The nesting depth of a statement.
pub open spec fn stmt_height(s: Stmt) -> nat
    decreases s,
{
    match s {
        Stmt::LocalAssignment(la) => local_assignment_height(la) + 1,
        Stmt::Do(d) => do_height(d) + 1,
    }
}

/// The largest nesting depth among the statements of a list.
pub open spec fn stmt_list_height(ss: Seq<Stmt>) -> nat
    decreases ss,
{
    if ss.len() == 0 {
        0
    } else {
        let rest = stmt_list_height(ss.drop_last());
        let h = stmt_height(ss.last());
        if rest >= h {
            rest
        } else {
            h
        }
    }
}

/// The nesting depth of a block.
pub open spec fn block_height(b: Block) -> nat
    decreases b,
{
    stmt_list_height(b.stmts@) + 1
}

/// Every statement of a list stays within the list's height.
pub proof fn lemma_stmt_list_height_elem(ss: Seq<Stmt>, i: int)
    requires
        0 <= i < ss.len(),
    ensures
        stmt_height(ss[i]) <= stmt_list_height(ss),
    decreases ss.len(),
{
    if i == ss.len() - 1 {
    } else {
        lemma_stmt_list_height_elem(ss.drop_last(), i);
        assert(ss.drop_last()[i] == ss[i]);
    }
}

/// Every expression of a list stays within the list's height.
pub proof fn lemma_expr_list_height_elem(es: Seq<(Expression, Option<TokenReference>)>, i: int)
    requires
        0 <= i < es.len(),
    ensures
        expression_height(es[i].0) <= expr_list_height(es),
    decreases es.len(),
{
    if i == es.len() - 1 {
    } else {
        lemma_expr_list_height_elem(es.drop_last(), i);
        assert(es.drop_last()[i] == es[i]);
    }
}

/// Two local assignments carry the same content: equal tokens, and equal
/// abstract sequences for the vector fields. A duplicated vector is a fresh
/// allocation, so its abstract sequence is what a contract can pin.
pub open spec fn local_assignment_content_eq(a: LocalAssignment, b: LocalAssignment) -> bool {
    a.local_token == b.local_token && a.name_list@ == b.name_list@ && a.equal_token
        == b.equal_token && a.expr_list@ == b.expr_list@
}

/// Two statements carry the same content.
pub open spec fn stmt_content_eq(a: Stmt, b: Stmt) -> bool {
    match (a, b) {
        (Stmt::LocalAssignment(x), Stmt::LocalAssignment(y)) => local_assignment_content_eq(x, y),
        (Stmt::Do(x), Stmt::Do(y)) => x == y,
        _ => false,
    }
}

/// Two blocks carry the same content, statement by statement.
pub open spec fn block_content_eq(a: Block, b: Block) -> bool {
    a.stmts@.len() == b.stmts@.len() && forall|i: int|
        0 <= i < a.stmts@.len() ==> stmt_content_eq(#[trigger] a.stmts@[i], b.stmts@[i])
}

impl Block {
    /// A private duplicate of this block for the copy-on-write path: its own
    /// statements are duplicated, while any shared block nested inside keeps
    /// its handle until a rewrite descends into it. The duplicate carries
    /// the same content statement by statement, is no deeper than the node
    /// it duplicates, and makes exactly the same traversal observations.
    pub(crate) fn deep_clone(&self) -> (r: Block)
        ensures
            block_height(r) <= block_height(*self),
            block_trace(r) == block_trace(*self),
            block_content_eq(r, *self),
        decreases self,
    {
        let mut stmts: Vec<Stmt> = Vec::new();
        let mut i: usize = 0;
        while i < self.stmts.len()
            invariant
                i <= self.stmts@.len(),
                stmts@.len() == i as int,
                stmt_list_height(stmts@) <= stmt_list_height(self.stmts@),
                stmt_list_trace(stmts@) == stmt_list_trace(self.stmts@.subrange(0, i as int)),
                forall|k: int|
                    0 <= k < i ==> stmt_content_eq(#[trigger] stmts@[k], self.stmts@[k]),
            decreases self.stmts@.len() - i,
        {
            let s = self.stmts[i].deep_clone();
            proof {
                lemma_stmt_list_height_elem(self.stmts@, i as int);
                assert(stmts@.push(s).drop_last() =~= stmts@);
                crate::trace::lemma_stmt_list_trace_snoc(self.stmts@, i as int);
            }
            stmts.push(s);
            i = i + 1;
        }
        proof {
            assert(self.stmts@.subrange(0, self.stmts@.len() as int) =~= self.stmts@);
        }
        Block { stmts }
    }
}

impl Stmt {
    /// A private duplicate of this statement for the copy-on-write path; it
    /// carries the same content as the statement it duplicates.
    pub(crate) fn deep_clone(&self) -> (r: Stmt)
        ensures
            stmt_height(r) <= stmt_height(*self),
            stmt_trace(r) == stmt_trace(*self),
            stmt_content_eq(r, *self),
        decreases self,
    {
        match self {
            Stmt::LocalAssignment(node) => Stmt::LocalAssignment(node.deep_clone()),
            Stmt::Do(node) => Stmt::Do(node.deep_clone()),
        }
    }
}

impl LocalAssignment {
    /// A private duplicate of this assignment for the copy-on-write path;
    /// it carries the same tokens and the same expressions.
    pub(crate) fn deep_clone(&self) -> (r: LocalAssignment)
        ensures
            local_assignment_height(r) <= local_assignment_height(*self),
            local_assignment_trace(r) == local_assignment_trace(*self),
            local_assignment_content_eq(r, *self),
        decreases self,
    {
        let mut name_list: Vec<(TokenReference, Option<TokenReference>)> = Vec::new();
        let mut i: usize = 0;
        while i < self.name_list.len()
            invariant
                i <= self.name_list@.len(),
                name_list@ == self.name_list@.subrange(0, i as int),
            decreases self.name_list@.len() - i,
        {
            let name = self.name_list[i].0.clone();
            let sep = match &self.name_list[i].1 {
                Some(t) => Some(t.clone()),
                None => None,
            };
            proof {
                assert((name, sep) == self.name_list@[i as int]);
                assert(name_list@.push(self.name_list@[i as int]) =~= self.name_list@.subrange(
                    0,
                    i as int + 1,
                ));
            }
            name_list.push((name, sep));
            i = i + 1;
        }
        proof {
            assert(self.name_list@.subrange(0, self.name_list@.len() as int) =~= self.name_list@);
        }
        let mut expr_list: Vec<(Expression, Option<TokenReference>)> = Vec::new();
        let mut j: usize = 0;
        while j < self.expr_list.len()
            invariant
                j <= self.expr_list@.len(),
                expr_list@ == self.expr_list@.subrange(0, j as int),
            decreases self.expr_list@.len() - j,
        {
            let expr = self.expr_list[j].0.deep_clone();
            let sep = match &self.expr_list[j].1 {
                Some(t) => Some(t.clone()),
                None => None,
            };
            proof {
                assert((expr, sep) == self.expr_list@[j as int]);
                assert(expr_list@.push(self.expr_list@[j as int]) =~= self.expr_list@.subrange(
                    0,
                    j as int + 1,
                ));
            }
            expr_list.push((expr, sep));
            j = j + 1;
        }
        proof {
            assert(self.expr_list@.subrange(0, self.expr_list@.len() as int) =~= self.expr_list@);
        }
        let equal_token = match &self.equal_token {
            Some(t) => Some(t.clone()),
            None => None,
        };
        LocalAssignment { local_token: self.local_token.clone(), name_list, equal_token, expr_list }
    }
}

impl Do {
    /// A private duplicate of this node; the shared body keeps its handle, so
    /// the duplicate is cheap and the body is copied only on a later write
    /// beneath it.
    pub(crate) fn deep_clone(&self) -> (r: Do)
        ensures
            r == *self,
        decreases self,
    {
        Do {
            do_token: self.do_token.clone(),
            block: arc_clone(&self.block),
            end_token: self.end_token.clone(),
        }
    }
}

impl Expression {
    /// A private duplicate of this expression for the copy-on-write path;
    /// expressions hold no vector, so the duplicate equals the original.
    pub(crate) fn deep_clone(&self) -> (r: Expression)
        ensures
            r == *self,
        decreases self,
    {
        match self {
            Expression::Value(v) => Expression::Value(v.deep_clone()),
        }
    }
}

impl Value {
    /// A private duplicate of this value for the copy-on-write path; values
    /// hold no vector, so the duplicate equals the original.
    pub(crate) fn deep_clone(&self) -> (r: Value)
        ensures
            r == *self,
        decreases self,
    {
        match self {
            Value::Number(t) => Value::Number(t.clone()),
            Value::StringLiteral(t) => Value::StringLiteral(t.clone()),
            Value::Var(t) => Value::Var(t.clone()),
            Value::Paren(open, e, close) => Value::Paren(
                open.clone(),
                Box::new((**e).deep_clone()),
                close.clone(),
            ),
        }
    }
}

} // verus!
