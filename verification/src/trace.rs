use vstd::prelude::*;
use vstd::string::StringExecFns;

use crate::ast::{Ast, Block, Do, Expression, LocalAssignment, Stmt, Value};
use crate::tokenizer::{Token, TokenReference};

verus! {

/// One of the dispatched syntactic node kinds. Blocks are deliberately not
/// among them: a block is plain structure, and descending into one fires no
/// hook of its own.
#[derive(Clone, Copy, PartialEq, Eq, Structural, Debug)]
pub enum NodeKind {
    Stmt,
    LocalAssignment,
    Do,
    Expression,
    Value,
}

/// One observation a traversal makes: a node kind's enter hook, its exit
/// hook, or a token kind's hook carrying the resolved token.
#[derive(Debug, PartialEq)]
pub enum Event {
    Enter(NodeKind),
    Exit(NodeKind),
    Tok(Token),
}

/// The observations the structural descent makes for one token reference.
/// Every token is observed exactly once over a whole traversal: a borrowed,
/// arena-backed token is observed by the full-arena sweep that precedes the
/// descent, so the descent itself dispatches only owned (synthesized or
/// detached) tokens.
pub open spec fn token_ref_trace(r: TokenReference) -> Seq<Event> {
    if r.is_owned_spec() {
        seq![Event::Tok(r.resolved())]
    } else {
        Seq::empty()
    }
}

pub open spec fn opt_token_trace(o: Option<TokenReference>) -> Seq<Event> {
    match o {
        Some(r) => token_ref_trace(r),
        None => Seq::empty(),
    }
}

pub open spec fn value_trace(v: Value) -> Seq<Event>
    decreases v,
{
    seq![Event::Enter(NodeKind::Value)] + (match v {
        Value::Number(t) => token_ref_trace(t),
        Value::StringLiteral(t) => token_ref_trace(t),
        Value::Var(t) => token_ref_trace(t),
        Value::Paren(open, e, close) => token_ref_trace(open) + expression_trace(*e)
            + token_ref_trace(close),
    }) + seq![Event::Exit(NodeKind::Value)]
}

pub open spec fn expression_trace(e: Expression) -> Seq<Event>
    decreases e,
{
    seq![Event::Enter(NodeKind::Expression)] + (match e {
        Expression::Value(v) => value_trace(v),
    }) + seq![Event::Exit(NodeKind::Expression)]
}

pub open spec fn expr_list_trace(es: Seq<(Expression, Option<TokenReference>)>) -> Seq<Event>
    decreases es,
{
    if es.len() == 0 {
        Seq::empty()
    } else {
        expr_list_trace(es.drop_last()) + expression_trace(es.last().0) + opt_token_trace(
            es.last().1,
        )
    }
}

pub open spec fn name_list_trace(ns: Seq<(TokenReference, Option<TokenReference>)>) -> Seq<Event>
    decreases ns,
{
    if ns.len() == 0 {
        Seq::empty()
    } else {
        name_list_trace(ns.drop_last()) + token_ref_trace(ns.last().0) + opt_token_trace(
            ns.last().1,
        )
    }
}

pub open spec fn local_assignment_trace(la: LocalAssignment) -> Seq<Event>
    decreases la,
{
    seq![Event::Enter(NodeKind::LocalAssignment)] + token_ref_trace(la.local_token)
        + name_list_trace(la.name_list@) + opt_token_trace(la.equal_token) + expr_list_trace(
        la.expr_list@,
    ) + seq![Event::Exit(NodeKind::LocalAssignment)]
}

pub open spec fn do_trace(d: Do) -> Seq<Event>
    decreases d,
{
    seq![Event::Enter(NodeKind::Do)] + token_ref_trace(d.do_token) + block_trace(*d.block)
        + token_ref_trace(d.end_token) + seq![Event::Exit(NodeKind::Do)]
}

pub open spec fn stmt_trace(s: Stmt) -> Seq<Event>
    decreases s,
{
    seq![Event::Enter(NodeKind::Stmt)] + (match s {
        Stmt::LocalAssignment(la) => local_assignment_trace(la),
        Stmt::Do(d) => do_trace(d),
    }) + seq![Event::Exit(NodeKind::Stmt)]
}

pub open spec fn stmt_list_trace(ss: Seq<Stmt>) -> Seq<Event>
    decreases ss,
{
    if ss.len() == 0 {
        Seq::empty()
    } else {
        stmt_list_trace(ss.drop_last()) + stmt_trace(ss.last())
    }
}

pub open spec fn block_trace(b: Block) -> Seq<Event>
    decreases b,
{
    stmt_list_trace(b.stmts@)
}

/// The observations of the full-arena sweep: one token hook per arena index,
/// in index order.
pub open spec fn sweep_trace(toks: Seq<Token>) -> Seq<Event> {
    Seq::new(toks.len(), |i: int| Event::Tok(toks[i]))
}

/// The ordered sequence of hook invocations a whole traversal makes: the
/// full-arena sweep first, then the structural descent from the root block.
pub open spec fn ast_trace(a: Ast) -> Seq<Event> {
    sweep_trace(a.tokens@) + block_trace(a.nodes)
}

/// The exact source text: the concatenation of every arena token's text, in
/// document order.
pub open spec fn rendered(toks: Seq<Token>) -> Seq<char>
    decreases toks,
{
    if toks.len() == 0 {
        Seq::empty()
    } else {
        rendered(toks.drop_last()) + toks.last().text@
    }
}

/// How a token-list prefix extends by one more token.
proof fn lemma_rendered_snoc(toks: Seq<Token>, i: int)
    requires
        0 <= i < toks.len(),
    ensures
        rendered(toks.subrange(0, i + 1)) == rendered(toks.subrange(0, i)) + toks[i].text@,
{
    assert(toks.subrange(0, i + 1).drop_last() =~= toks.subrange(0, i));
    assert(toks.subrange(0, i + 1).last() == toks[i]);
}

/// How a statement-list prefix extends by one more statement.
pub(crate) proof fn lemma_stmt_list_trace_snoc(ss: Seq<Stmt>, i: int)
    requires
        0 <= i < ss.len(),
    ensures
        stmt_list_trace(ss.subrange(0, i + 1)) == stmt_list_trace(ss.subrange(0, i)) + stmt_trace(
            ss[i],
        ),
{
    assert(ss.subrange(0, i + 1).drop_last() =~= ss.subrange(0, i));
    assert(ss.subrange(0, i + 1).last() == ss[i]);
}

/// How a name-list prefix extends by one more name and separator.
pub(crate) proof fn lemma_name_list_trace_snoc(ns: Seq<(TokenReference, Option<TokenReference>)>, i: int)
    requires
        0 <= i < ns.len(),
    ensures
        name_list_trace(ns.subrange(0, i + 1)) == name_list_trace(ns.subrange(0, i))
            + token_ref_trace(ns[i].0) + opt_token_trace(ns[i].1),
{
    assert(ns.subrange(0, i + 1).drop_last() =~= ns.subrange(0, i));
    assert(ns.subrange(0, i + 1).last() == ns[i]);
}

/// How an expression-list prefix extends by one more expression and separator.
pub(crate) proof fn lemma_expr_list_trace_snoc(es: Seq<(Expression, Option<TokenReference>)>, i: int)
    requires
        0 <= i < es.len(),
    ensures
        expr_list_trace(es.subrange(0, i + 1)) == expr_list_trace(es.subrange(0, i))
            + expression_trace(es[i].0) + opt_token_trace(es[i].1),
{
    assert(es.subrange(0, i + 1).drop_last() =~= es.subrange(0, i));
    assert(es.subrange(0, i + 1).last() == es[i]);
}

fn token_ref_events(r: &TokenReference, out: &mut Vec<Event>)
    ensures
        final(out)@ == old(out)@ + token_ref_trace(*r),
{
    if r.is_owned() {
        out.push(Event::Tok(r.resolve()));
    }
    proof {
        assert(out@ =~= old(out)@ + token_ref_trace(*r));
    }
}

fn opt_token_events(o: &Option<TokenReference>, out: &mut Vec<Event>)
    ensures
        final(out)@ == old(out)@ + opt_token_trace(*o),
{
    match o {
        Some(r) => token_ref_events(r, out),
        None => {
            proof {
                assert(out@ =~= old(out)@ + opt_token_trace(*o));
            }
        },
    }
}

fn value_events(v: &Value, out: &mut Vec<Event>)
    ensures
        final(out)@ == old(out)@ + value_trace(*v),
    decreases v,
{
    out.push(Event::Enter(NodeKind::Value));
    match v {
        Value::Number(t) => token_ref_events(t, out),
        Value::StringLiteral(t) => token_ref_events(t, out),
        Value::Var(t) => token_ref_events(t, out),
        Value::Paren(open, e, close) => {
            token_ref_events(open, out);
            expression_events(&**e, out);
            token_ref_events(close, out);
        },
    }
    out.push(Event::Exit(NodeKind::Value));
    proof {
        assert(out@ =~= old(out)@ + value_trace(*v));
    }
}

fn expression_events(e: &Expression, out: &mut Vec<Event>)
    ensures
        final(out)@ == old(out)@ + expression_trace(*e),
    decreases e,
{
    out.push(Event::Enter(NodeKind::Expression));
    match e {
        Expression::Value(v) => value_events(v, out),
    }
    out.push(Event::Exit(NodeKind::Expression));
    proof {
        assert(out@ =~= old(out)@ + expression_trace(*e));
    }
}

fn local_assignment_events(la: &LocalAssignment, out: &mut Vec<Event>)
    ensures
        final(out)@ == old(out)@ + local_assignment_trace(*la),
    decreases la,
{
    out.push(Event::Enter(NodeKind::LocalAssignment));
    token_ref_events(&la.local_token, out);
    let ghost base = out@;
    let mut i: usize = 0;
    while i < la.name_list.len()
        invariant
            i <= la.name_list@.len(),
            out@ == base + name_list_trace(la.name_list@.subrange(0, i as int)),
        decreases la.name_list@.len() - i,
    {
        token_ref_events(&la.name_list[i].0, out);
        opt_token_events(&la.name_list[i].1, out);
        proof {
            lemma_name_list_trace_snoc(la.name_list@, i as int);
        }
        i = i + 1;
    }
    proof {
        assert(la.name_list@.subrange(0, la.name_list@.len() as int) =~= la.name_list@);
    }
    opt_token_events(&la.equal_token, out);
    let ghost base2 = out@;
    let mut j: usize = 0;
    while j < la.expr_list.len()
        invariant
            j <= la.expr_list@.len(),
            out@ == base2 + expr_list_trace(la.expr_list@.subrange(0, j as int)),
        decreases la.expr_list@.len() - j,
    {
        expression_events(&la.expr_list[j].0, out);
        opt_token_events(&la.expr_list[j].1, out);
        proof {
            lemma_expr_list_trace_snoc(la.expr_list@, j as int);
        }
        j = j + 1;
    }
    proof {
        assert(la.expr_list@.subrange(0, la.expr_list@.len() as int) =~= la.expr_list@);
    }
    out.push(Event::Exit(NodeKind::LocalAssignment));
    proof {
        assert(out@ =~= old(out)@ + local_assignment_trace(*la));
    }
}

fn do_events(d: &Do, out: &mut Vec<Event>)
    ensures
        final(out)@ == old(out)@ + do_trace(*d),
    decreases d,
{
    out.push(Event::Enter(NodeKind::Do));
    token_ref_events(&d.do_token, out);
    block_events(&*d.block, out);
    token_ref_events(&d.end_token, out);
    out.push(Event::Exit(NodeKind::Do));
    proof {
        assert(out@ =~= old(out)@ + do_trace(*d));
    }
}

fn stmt_events(s: &Stmt, out: &mut Vec<Event>)
    ensures
        final(out)@ == old(out)@ + stmt_trace(*s),
    decreases s,
{
    out.push(Event::Enter(NodeKind::Stmt));
    match s {
        Stmt::LocalAssignment(la) => local_assignment_events(la, out),
        Stmt::Do(d) => do_events(d, out),
    }
    out.push(Event::Exit(NodeKind::Stmt));
    proof {
        assert(out@ =~= old(out)@ + stmt_trace(*s));
    }
}

fn block_events(b: &Block, out: &mut Vec<Event>)
    ensures
        final(out)@ == old(out)@ + block_trace(*b),
    decreases b,
{
    let ghost base = out@;
    let mut i: usize = 0;
    while i < b.stmts.len()
        invariant
            i <= b.stmts@.len(),
            out@ == base + stmt_list_trace(b.stmts@.subrange(0, i as int)),
        decreases b.stmts@.len() - i,
    {
        stmt_events(&b.stmts[i], out);
        proof {
            lemma_stmt_list_trace_snoc(b.stmts@, i as int);
        }
        i = i + 1;
    }
    proof {
        assert(b.stmts@.subrange(0, b.stmts@.len() as int) =~= b.stmts@);
    }
}

impl Ast {
    /// The ordered sequence of hook observations a traversal of this tree
    /// makes: because it is a function of the tree value alone, two runs
    /// over the same tree observe identical sequences.
    pub fn events(&self) -> (out: Vec<Event>)
        ensures
            out@ == ast_trace(*self),
    {
        let mut out: Vec<Event> = Vec::new();
        let n: usize = (&*self.tokens).len();
        let mut i: usize = 0;
        while i < n
            invariant
                n == self.tokens@.len(),
                i <= n,
                out@.len() == i as int,
                forall|j: int| 0 <= j < i ==> out@[j] == Event::Tok(self.tokens@[j]),
            decreases n - i,
        {
            out.push(Event::Tok((&*self.tokens).get(i).clone()));
            i = i + 1;
        }
        proof {
            assert forall|j: int| 0 <= j < n implies out@[j] == sweep_trace(self.tokens@)[j] by {
                assert(sweep_trace(self.tokens@)[j] == Event::Tok(self.tokens@[j]));
            }
            assert(out@ =~= sweep_trace(self.tokens@));
        }
        block_events(&self.nodes, &mut out);
        proof {
            assert(out@ =~= ast_trace(*self));
        }
        out
    }

    /// The exact source text of the tree: every arena token's text, trivia
    /// included, concatenated in document order.
    pub fn render(&self) -> (s: String)
        ensures
            s@ == rendered(self.tokens@),
    {
        let mut s = String::new();
        let n: usize = (&*self.tokens).len();
        let mut i: usize = 0;
        while i < n
            invariant
                n == self.tokens@.len(),
                i <= n,
                s@ == rendered(self.tokens@.subrange(0, i as int)),
            decreases n - i,
        {
            let t = (&*self.tokens).get(i);
            s.append(t.text.as_str());
            proof {
                lemma_rendered_snoc(self.tokens@, i as int);
            }
            i = i + 1;
        }
        proof {
            assert(self.tokens@.subrange(0, n as int) =~= self.tokens@);
        }
        s
    }
}

/// How often an event occurs in an observation sequence.
pub open spec fn count_events(s: Seq<Event>, e: Event) -> nat
    decreases s,
{
    if s.len() == 0 {
        0
    } else {
        count_events(s.drop_last(), e) + (if s.last() == e {
            1nat
        } else {
            0nat
        })
    }
}

/// Counting distributes over concatenation of observation sequences.
pub proof fn lemma_count_concat(s1: Seq<Event>, s2: Seq<Event>, e: Event)
    ensures
        count_events(s1 + s2, e) == count_events(s1, e) + count_events(s2, e),
    decreases s2.len(),
{
    if s2.len() == 0 {
        assert(s1 + s2 =~= s1);
    } else {
        lemma_count_concat(s1, s2.drop_last(), e);
        assert((s1 + s2).drop_last() =~= s1 + s2.drop_last());
        assert((s1 + s2).last() == s2.last());
    }
}

proof fn lemma_count_single(x: Event, e: Event)
    ensures
        count_events(seq![x], e) == (if x == e {
            1nat
        } else {
            0nat
        }),
{
    let s = seq![x];
    assert(s.len() == 1);
    assert(s.last() == x);
    assert(s.drop_last() =~= Seq::<Event>::empty());
    assert(count_events(Seq::<Event>::empty(), e) == 0);
}

proof fn lemma_token_ref_trace_no_nodes(r: TokenReference, k: NodeKind)
    ensures
        count_events(token_ref_trace(r), Event::Enter(k)) == 0,
        count_events(token_ref_trace(r), Event::Exit(k)) == 0,
{
    if r.is_owned_spec() {
        lemma_count_single(Event::Tok(r.resolved()), Event::Enter(k));
        lemma_count_single(Event::Tok(r.resolved()), Event::Exit(k));
    }
}

proof fn lemma_opt_token_trace_no_nodes(o: Option<TokenReference>, k: NodeKind)
    ensures
        count_events(opt_token_trace(o), Event::Enter(k)) == 0,
        count_events(opt_token_trace(o), Event::Exit(k)) == 0,
{
    match o {
        Some(r) => lemma_token_ref_trace_no_nodes(r, k),
        None => {},
    }
}

/// Law: within one value node's events, enter and exit hooks balance.
pub proof fn lemma_value_trace_balanced(v: Value, k: NodeKind)
    ensures
        count_events(value_trace(v), Event::Enter(k)) == count_events(
            value_trace(v),
            Event::Exit(k),
        ),
    decreases v,
{
    let enter = Event::Enter(k);
    let exit = Event::Exit(k);
    let mid = match v {
        Value::Number(t) => token_ref_trace(t),
        Value::StringLiteral(t) => token_ref_trace(t),
        Value::Var(t) => token_ref_trace(t),
        Value::Paren(open, e, close) => token_ref_trace(open) + expression_trace(*e)
            + token_ref_trace(close),
    };
    match v {
        Value::Number(t) => lemma_token_ref_trace_no_nodes(t, k),
        Value::StringLiteral(t) => lemma_token_ref_trace_no_nodes(t, k),
        Value::Var(t) => lemma_token_ref_trace_no_nodes(t, k),
        Value::Paren(open, e, close) => {
            lemma_token_ref_trace_no_nodes(open, k);
            lemma_expression_trace_balanced(*e, k);
            lemma_token_ref_trace_no_nodes(close, k);
            lemma_count_concat(token_ref_trace(open), expression_trace(*e), enter);
            lemma_count_concat(
                token_ref_trace(open) + expression_trace(*e),
                token_ref_trace(close),
                enter,
            );
            lemma_count_concat(token_ref_trace(open), expression_trace(*e), exit);
            lemma_count_concat(
                token_ref_trace(open) + expression_trace(*e),
                token_ref_trace(close),
                exit,
            );
        },
    }
    lemma_count_single(Event::Enter(NodeKind::Value), enter);
    lemma_count_single(Event::Enter(NodeKind::Value), exit);
    lemma_count_single(Event::Exit(NodeKind::Value), enter);
    lemma_count_single(Event::Exit(NodeKind::Value), exit);
    lemma_count_concat(seq![Event::Enter(NodeKind::Value)], mid, enter);
    lemma_count_concat(
        seq![Event::Enter(NodeKind::Value)] + mid,
        seq![Event::Exit(NodeKind::Value)],
        enter,
    );
    lemma_count_concat(seq![Event::Enter(NodeKind::Value)], mid, exit);
    lemma_count_concat(
        seq![Event::Enter(NodeKind::Value)] + mid,
        seq![Event::Exit(NodeKind::Value)],
        exit,
    );
}

/// Law: within one expression node's events, enter and exit hooks balance.
pub proof fn lemma_expression_trace_balanced(e: Expression, k: NodeKind)
    ensures
        count_events(expression_trace(e), Event::Enter(k)) == count_events(
            expression_trace(e),
            Event::Exit(k),
        ),
    decreases e,
{
    let enter = Event::Enter(k);
    let exit = Event::Exit(k);
    let mid = match e {
        Expression::Value(v) => value_trace(v),
    };
    match e {
        Expression::Value(v) => lemma_value_trace_balanced(v, k),
    }
    lemma_count_single(Event::Enter(NodeKind::Expression), enter);
    lemma_count_single(Event::Enter(NodeKind::Expression), exit);
    lemma_count_single(Event::Exit(NodeKind::Expression), enter);
    lemma_count_single(Event::Exit(NodeKind::Expression), exit);
    lemma_count_concat(seq![Event::Enter(NodeKind::Expression)], mid, enter);
    lemma_count_concat(
        seq![Event::Enter(NodeKind::Expression)] + mid,
        seq![Event::Exit(NodeKind::Expression)],
        enter,
    );
    lemma_count_concat(seq![Event::Enter(NodeKind::Expression)], mid, exit);
    lemma_count_concat(
        seq![Event::Enter(NodeKind::Expression)] + mid,
        seq![Event::Exit(NodeKind::Expression)],
        exit,
    );
}

proof fn lemma_expr_list_trace_balanced(es: Seq<(Expression, Option<TokenReference>)>, k: NodeKind)
    ensures
        count_events(expr_list_trace(es), Event::Enter(k)) == count_events(
            expr_list_trace(es),
            Event::Exit(k),
        ),
    decreases es,
{
    if es.len() > 0 {
        let enter = Event::Enter(k);
        let exit = Event::Exit(k);
        lemma_expr_list_trace_balanced(es.drop_last(), k);
        lemma_expression_trace_balanced(es.last().0, k);
        lemma_opt_token_trace_no_nodes(es.last().1, k);
        lemma_count_concat(expr_list_trace(es.drop_last()), expression_trace(es.last().0), enter);
        lemma_count_concat(
            expr_list_trace(es.drop_last()) + expression_trace(es.last().0),
            opt_token_trace(es.last().1),
            enter,
        );
        lemma_count_concat(expr_list_trace(es.drop_last()), expression_trace(es.last().0), exit);
        lemma_count_concat(
            expr_list_trace(es.drop_last()) + expression_trace(es.last().0),
            opt_token_trace(es.last().1),
            exit,
        );
    }
}

proof fn lemma_name_list_trace_no_nodes(
    ns: Seq<(TokenReference, Option<TokenReference>)>,
    k: NodeKind,
)
    ensures
        count_events(name_list_trace(ns), Event::Enter(k)) == 0,
        count_events(name_list_trace(ns), Event::Exit(k)) == 0,
    decreases ns,
{
    if ns.len() > 0 {
        let enter = Event::Enter(k);
        let exit = Event::Exit(k);
        lemma_name_list_trace_no_nodes(ns.drop_last(), k);
        lemma_token_ref_trace_no_nodes(ns.last().0, k);
        lemma_opt_token_trace_no_nodes(ns.last().1, k);
        lemma_count_concat(name_list_trace(ns.drop_last()), token_ref_trace(ns.last().0), enter);
        lemma_count_concat(
            name_list_trace(ns.drop_last()) + token_ref_trace(ns.last().0),
            opt_token_trace(ns.last().1),
            enter,
        );
        lemma_count_concat(name_list_trace(ns.drop_last()), token_ref_trace(ns.last().0), exit);
        lemma_count_concat(
            name_list_trace(ns.drop_last()) + token_ref_trace(ns.last().0),
            opt_token_trace(ns.last().1),
            exit,
        );
    }
}

/// Law: within one local assignment's events, enter and exit hooks balance.
pub proof fn lemma_local_assignment_trace_balanced(la: LocalAssignment, k: NodeKind)
    ensures
        count_events(local_assignment_trace(la), Event::Enter(k)) == count_events(
            local_assignment_trace(la),
            Event::Exit(k),
        ),
{
    let enter = Event::Enter(k);
    let exit = Event::Exit(k);
    let part1 = seq![Event::Enter(NodeKind::LocalAssignment)];
    let part2 = token_ref_trace(la.local_token);
    let part3 = name_list_trace(la.name_list@);
    let part4 = opt_token_trace(la.equal_token);
    let part5 = expr_list_trace(la.expr_list@);
    let part6 = seq![Event::Exit(NodeKind::LocalAssignment)];
    lemma_count_single(Event::Enter(NodeKind::LocalAssignment), enter);
    lemma_count_single(Event::Enter(NodeKind::LocalAssignment), exit);
    lemma_count_single(Event::Exit(NodeKind::LocalAssignment), enter);
    lemma_count_single(Event::Exit(NodeKind::LocalAssignment), exit);
    lemma_token_ref_trace_no_nodes(la.local_token, k);
    lemma_name_list_trace_no_nodes(la.name_list@, k);
    lemma_opt_token_trace_no_nodes(la.equal_token, k);
    lemma_expr_list_trace_balanced(la.expr_list@, k);
    lemma_count_concat(part1, part2, enter);
    lemma_count_concat(part1 + part2, part3, enter);
    lemma_count_concat(part1 + part2 + part3, part4, enter);
    lemma_count_concat(part1 + part2 + part3 + part4, part5, enter);
    lemma_count_concat(part1 + part2 + part3 + part4 + part5, part6, enter);
    lemma_count_concat(part1, part2, exit);
    lemma_count_concat(part1 + part2, part3, exit);
    lemma_count_concat(part1 + part2 + part3, part4, exit);
    lemma_count_concat(part1 + part2 + part3 + part4, part5, exit);
    lemma_count_concat(part1 + part2 + part3 + part4 + part5, part6, exit);
}

/// Law: within one `do` node's events, enter and exit hooks balance.
pub proof fn lemma_do_trace_balanced(d: Do, k: NodeKind)
    ensures
        count_events(do_trace(d), Event::Enter(k)) == count_events(do_trace(d), Event::Exit(k)),
    decreases d,
{
    let enter = Event::Enter(k);
    let exit = Event::Exit(k);
    let ghost part1 = seq![Event::Enter(NodeKind::Do)];
    let ghost part2 = token_ref_trace(d.do_token);
    let ghost part3 = stmt_list_trace(d.block.stmts@);
    assert(part3 == block_trace(*d.block));
    let ghost part4 = token_ref_trace(d.end_token);
    let ghost part5 = seq![Event::Exit(NodeKind::Do)];
    lemma_count_single(Event::Enter(NodeKind::Do), enter);
    lemma_count_single(Event::Enter(NodeKind::Do), exit);
    lemma_count_single(Event::Exit(NodeKind::Do), enter);
    lemma_count_single(Event::Exit(NodeKind::Do), exit);
    lemma_token_ref_trace_no_nodes(d.do_token, k);
    lemma_stmt_list_trace_balanced(d.block.stmts@, k);
    lemma_token_ref_trace_no_nodes(d.end_token, k);
    lemma_count_concat(part1, part2, enter);
    lemma_count_concat(part1 + part2, part3, enter);
    lemma_count_concat(part1 + part2 + part3, part4, enter);
    lemma_count_concat(part1 + part2 + part3 + part4, part5, enter);
    lemma_count_concat(part1, part2, exit);
    lemma_count_concat(part1 + part2, part3, exit);
    lemma_count_concat(part1 + part2 + part3, part4, exit);
    lemma_count_concat(part1 + part2 + part3 + part4, part5, exit);
}

/// Law: within one statement's events, enter and exit hooks balance.
pub proof fn lemma_stmt_trace_balanced(s: Stmt, k: NodeKind)
    ensures
        count_events(stmt_trace(s), Event::Enter(k)) == count_events(
            stmt_trace(s),
            Event::Exit(k),
        ),
    decreases s,
{
    let enter = Event::Enter(k);
    let exit = Event::Exit(k);
    let mid = match s {
        Stmt::LocalAssignment(la) => local_assignment_trace(la),
        Stmt::Do(d) => do_trace(d),
    };
    match s {
        Stmt::LocalAssignment(la) => lemma_local_assignment_trace_balanced(la, k),
        Stmt::Do(d) => lemma_do_trace_balanced(d, k),
    }
    lemma_count_single(Event::Enter(NodeKind::Stmt), enter);
    lemma_count_single(Event::Enter(NodeKind::Stmt), exit);
    lemma_count_single(Event::Exit(NodeKind::Stmt), enter);
    lemma_count_single(Event::Exit(NodeKind::Stmt), exit);
    lemma_count_concat(seq![Event::Enter(NodeKind::Stmt)], mid, enter);
    lemma_count_concat(
        seq![Event::Enter(NodeKind::Stmt)] + mid,
        seq![Event::Exit(NodeKind::Stmt)],
        enter,
    );
    lemma_count_concat(seq![Event::Enter(NodeKind::Stmt)], mid, exit);
    lemma_count_concat(
        seq![Event::Enter(NodeKind::Stmt)] + mid,
        seq![Event::Exit(NodeKind::Stmt)],
        exit,
    );
}

/// Law: within a statement list's events, enter and exit hooks balance.
pub proof fn lemma_stmt_list_trace_balanced(ss: Seq<Stmt>, k: NodeKind)
    ensures
        count_events(stmt_list_trace(ss), Event::Enter(k)) == count_events(
            stmt_list_trace(ss),
            Event::Exit(k),
        ),
    decreases ss,
{
    if ss.len() > 0 {
        lemma_stmt_list_trace_balanced(ss.drop_last(), k);
        lemma_stmt_trace_balanced(ss.last(), k);
        lemma_count_concat(stmt_list_trace(ss.drop_last()), stmt_trace(ss.last()), Event::Enter(k));
        lemma_count_concat(stmt_list_trace(ss.drop_last()), stmt_trace(ss.last()), Event::Exit(k));
    }
}

proof fn lemma_sweep_no_node_hooks(toks: Seq<Token>, k: NodeKind)
    ensures
        count_events(sweep_trace(toks), Event::Enter(k)) == 0,
        count_events(sweep_trace(toks), Event::Exit(k)) == 0,
    decreases toks.len(),
{
    if toks.len() == 0 {
        assert(sweep_trace(toks) =~= Seq::<Event>::empty());
    } else {
        lemma_sweep_no_node_hooks(toks.drop_last(), k);
        assert(sweep_trace(toks).drop_last() =~= sweep_trace(toks.drop_last()));
    }
}

/// Law: over a whole traversal, every node kind's enter hook fires exactly
/// as often as its exit hook.
pub proof fn lemma_traversal_balanced(a: Ast, k: NodeKind)
    ensures
        count_events(ast_trace(a), Event::Enter(k)) == count_events(ast_trace(a), Event::Exit(k)),
{
    lemma_sweep_no_node_hooks(a.tokens@, k);
    lemma_stmt_list_trace_balanced(a.nodes.stmts@, k);
    lemma_count_concat(sweep_trace(a.tokens@), block_trace(a.nodes), Event::Enter(k));
    lemma_count_concat(sweep_trace(a.tokens@), block_trace(a.nodes), Event::Exit(k));
}

/// Law: the full-arena sweep stands at the front of the traversal and
/// observes every arena index exactly once, in strictly increasing order:
/// the observation at position i is the token hook for the token at index
/// i, for each of the indices in turn, before any structural event.
pub proof fn lemma_sweep_covers_arena(a: Ast)
    ensures
        ast_trace(a).len() == a.tokens@.len() + block_trace(a.nodes).len(),
        forall|i: int| 0 <= i < a.tokens@.len() ==> ast_trace(a)[i] == Event::Tok(a.tokens@[i]),
{
}

/// Law: a statement's own events begin with its enter hook and end with its
/// exit hook, so for any single node instance the enter observation
/// strictly precedes the matching exit observation.
pub proof fn lemma_stmt_trace_shape(s: Stmt)
    ensures
        stmt_trace(s).len() >= 2,
        stmt_trace(s).first() == Event::Enter(NodeKind::Stmt),
        stmt_trace(s).last() == Event::Exit(NodeKind::Stmt),
{
}

/// Law: a local assignment's own events begin with its enter hook and end
/// with its exit hook.
pub proof fn lemma_local_assignment_trace_shape(la: LocalAssignment)
    ensures
        local_assignment_trace(la).len() >= 2,
        local_assignment_trace(la).first() == Event::Enter(NodeKind::LocalAssignment),
        local_assignment_trace(la).last() == Event::Exit(NodeKind::LocalAssignment),
{
}

/// Law: a `do` node's own events begin with its enter hook and end with its
/// exit hook.
pub proof fn lemma_do_trace_shape(d: Do)
    ensures
        do_trace(d).len() >= 2,
        do_trace(d).first() == Event::Enter(NodeKind::Do),
        do_trace(d).last() == Event::Exit(NodeKind::Do),
{
}

/// Law: an expression's own events begin with its enter hook and end with
/// its exit hook.
pub proof fn lemma_expression_trace_shape(e: Expression)
    ensures
        expression_trace(e).len() >= 2,
        expression_trace(e).first() == Event::Enter(NodeKind::Expression),
        expression_trace(e).last() == Event::Exit(NodeKind::Expression),
{
}

/// Law: a value's own events begin with its enter hook and end with its
/// exit hook.
pub proof fn lemma_value_trace_shape(v: Value)
    ensures
        value_trace(v).len() >= 2,
        value_trace(v).first() == Event::Enter(NodeKind::Value),
        value_trace(v).last() == Event::Exit(NodeKind::Value),
{
}

/// Law: traversal is deterministic — the observation sequence is a function
/// of the tree value alone, so running the same read-only visitor twice
/// over the same tree yields the identical ordered sequence both times.
pub proof fn lemma_traversal_deterministic(a: Ast, b: Ast)
    requires
        a == b,
    ensures
        ast_trace(a) == ast_trace(b),
{
}

} // verus!
