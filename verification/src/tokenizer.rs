use vstd::prelude::*;

use std::sync::Arc;

verus! {

/// The lexical category of a token.
#[derive(Clone, Copy, PartialEq, Eq, Structural, Debug)]
pub enum TokenKind {
    Eof,
    Identifier,
    MultiLineComment,
    Number,
    SingleLineComment,
    StringLiteral,
    Symbol,
    Whitespace,
}

/// A lexical unit: its kind tag and its exact source text.
#[derive(Debug, PartialEq)]
pub struct Token {
    pub kind: TokenKind,
    pub text: String,
}

impl Clone for Token {
    fn clone(&self) -> (r: Token)
        ensures
            r == *self,
    {
        Token { kind: self.kind, text: self.text.clone() }
    }
}

/// The shared, ordered, append-only table of every token extracted from the
/// source, in left-to-right document order, trivia included. It is built once
/// at parse time and never reordered or shrunk afterwards; its abstract value
/// is the sequence of its tokens.
pub struct TokenArena {
    tokens: Vec<Token>,
}

impl View for TokenArena {
    type V = Seq<Token>;

    closed spec fn view(&self) -> Seq<Token> {
        self.tokens@
    }
}

impl TokenArena {
    /// Builds the arena from the tokens in source order.
    pub fn new(tokens: Vec<Token>) -> (arena: TokenArena)
        ensures
            arena@ == tokens@,
    {
        TokenArena { tokens }
    }

    /// How many tokens the arena holds.
    pub fn len(&self) -> (n: usize)
        ensures
            n == self@.len(),
    {
        self.tokens.len()
    }

    /// The token at a given index; the index must be in bounds.
    pub fn get(&self, index: usize) -> (t: &Token)
        requires
            index < self@.len(),
        ensures
            *t == self@[index as int],
    {
        &self.tokens[index]
    }
}

/// Relies on alloc::sync::Arc::clone: the returned handle refers to the same
/// underlying value as the argument, which it leaves unchanged.
#[verifier::external_body]
pub(crate) fn arc_clone<T>(a: &Arc<T>) -> (r: Arc<T>)
    ensures
        r == *a,
{
    Arc::clone(a)
}

enum TokenRefRepr {
    Borrowed { arena: Arc<TokenArena>, index: usize },
    Owned { token: Token },
}

/// A lightweight view of one token: either borrowed — an arena handle plus a
/// stable index, re-reading the arena on access — or an owned standalone
/// token, synthesized or detached during a rewrite. A borrowed reference is
/// never out of bounds: constructing one from an index outside the arena is a
/// programming-contract violation and is ruled out by `borrowed`.
pub struct TokenReference {
    repr: TokenRefRepr,
}

impl TokenReference {
    #[verifier::type_invariant]
    spec fn bounds_ok(self) -> bool {
        match self.repr {
            TokenRefRepr::Borrowed { arena, index } => index < arena@.len(),
            TokenRefRepr::Owned { .. } => true,
        }
    }

    /// The token this reference denotes: for a borrowed reference the arena
    /// entry at its index, for an owned one the standalone token.
    pub closed spec fn resolved(self) -> Token {
        match self.repr {
            TokenRefRepr::Borrowed { arena, index } => arena@[index as int],
            TokenRefRepr::Owned { token } => token,
        }
    }

    /// Whether this reference owns its token rather than borrowing the arena.
    pub closed spec fn is_owned_spec(self) -> bool {
        self.repr is Owned
    }

    /// A borrowed view into the arena at a stable index.
    pub fn borrowed(arena: Arc<TokenArena>, index: usize) -> (r: TokenReference)
        requires
            index < arena@.len(),
        ensures
            r.resolved() == arena@[index as int],
            !r.is_owned_spec(),
    {
        TokenReference { repr: TokenRefRepr::Borrowed { arena, index } }
    }

    /// An owned reference around a standalone token.
    pub fn owned(token: Token) -> (r: TokenReference)
        ensures
            r.resolved() == token,
            r.is_owned_spec(),
    {
        TokenReference { repr: TokenRefRepr::Owned { token } }
    }

    /// Reads through to the current token content, whichever variant holds it.
    pub fn resolve(&self) -> (t: Token)
        ensures
            t == self.resolved(),
    {
        proof {
            use_type_invariant(&*self);
        }
        match &self.repr {
            TokenRefRepr::Borrowed { arena, index } => (&**arena).get(*index).clone(),
            TokenRefRepr::Owned { token } => token.clone(),
        }
    }

    /// The kind of the referenced token.
    pub fn token_kind(&self) -> (k: TokenKind)
        ensures
            k == self.resolved().kind,
    {
        proof {
            use_type_invariant(&*self);
        }
        match &self.repr {
            TokenRefRepr::Borrowed { arena, index } => (&**arena).get(*index).kind,
            TokenRefRepr::Owned { token } => token.kind,
        }
    }

    /// Whether this reference owns its token.
    pub fn is_owned(&self) -> (b: bool)
        ensures
            b == self.is_owned_spec(),
    {
        match &self.repr {
            TokenRefRepr::Borrowed { .. } => false,
            TokenRefRepr::Owned { .. } => true,
        }
    }

    /// Captures the current content independent of the arena: the result is an
    /// owned reference that resolves to the same token.
    pub fn detach(&self) -> (r: TokenReference)
        ensures
            r.resolved() == self.resolved(),
            r.is_owned_spec(),
    {
        TokenReference::owned(self.resolve())
    }

    /// Content equality: it depends only on the referenced token's kind and
    /// text, never on which variant holds it.
    pub fn content_eq(&self, other: &TokenReference) -> (b: bool)
        ensures
            b == (self.resolved().kind == other.resolved().kind
                && self.resolved().text@ == other.resolved().text@),
    {
        let a = self.resolve();
        let c = other.resolve();
        a.kind == c.kind && a.text == c.text
    }
}

impl Clone for TokenReference {
    fn clone(&self) -> (r: TokenReference)
        ensures
            r == *self,
    {
        proof {
            use_type_invariant(&*self);
        }
        match &self.repr {
            TokenRefRepr::Borrowed { arena, index } => TokenReference {
                repr: TokenRefRepr::Borrowed { arena: arc_clone(arena), index: *index },
            },
            TokenRefRepr::Owned { token } => TokenReference {
                repr: TokenRefRepr::Owned { token: token.clone() },
            },
        }
    }
}

} // verus!
