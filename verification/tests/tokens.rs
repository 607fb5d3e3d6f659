use std::sync::Arc;
use treewalk::tokenizer::{Token, TokenArena, TokenKind, TokenReference};

fn tok(kind: TokenKind, text: &str) -> Token {
    Token { kind, text: text.to_string() }
}

#[test]
fn arena_keeps_tokens_in_order() {
    let arena = TokenArena::new(vec![
        tok(TokenKind::Identifier, "a"),
        tok(TokenKind::Whitespace, " "),
        tok(TokenKind::Eof, ""),
    ]);
    assert_eq!(arena.len(), 3);
    assert_eq!(arena.get(0).text, "a");
    assert_eq!(arena.get(1).kind, TokenKind::Whitespace);
    assert_eq!(arena.get(2).kind, TokenKind::Eof);
}

#[test]
fn borrowed_reference_reads_through_the_arena() {
    let arena = Arc::new(TokenArena::new(vec![
        tok(TokenKind::Identifier, "x"),
        tok(TokenKind::Eof, ""),
    ]));
    let r = TokenReference::borrowed(Arc::clone(&arena), 0);
    assert!(!r.is_owned());
    assert_eq!(r.resolve(), tok(TokenKind::Identifier, "x"));
    assert_eq!(r.token_kind(), TokenKind::Identifier);
}

#[test]
fn detach_captures_content_and_owns_it() {
    let arena = Arc::new(TokenArena::new(vec![tok(TokenKind::Number, "42")]));
    let r = TokenReference::borrowed(Arc::clone(&arena), 0);
    let owned = r.detach();
    assert!(owned.is_owned());
    assert_eq!(owned.resolve(), r.resolve());
}

#[test]
fn reference_equality_depends_only_on_content() {
    let arena = Arc::new(TokenArena::new(vec![tok(TokenKind::Symbol, "=")]));
    let borrowed = TokenReference::borrowed(Arc::clone(&arena), 0);
    let owned = TokenReference::owned(tok(TokenKind::Symbol, "="));
    let other = TokenReference::owned(tok(TokenKind::Symbol, ","));
    assert!(borrowed.content_eq(&owned));
    assert!(owned.content_eq(&borrowed));
    assert!(!borrowed.content_eq(&other));
}
