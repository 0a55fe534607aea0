use ironwood::Context;
use ironwood::StringId;
use ironwood::StringInterner;

#[test]
fn basic_interning() {
    let mut interner = StringInterner::new();

    let id1 = interner.intern("hello");
    let id2 = interner.intern("world");
    let id3 = interner.intern("hello");

    assert_eq!(id1, id3);
    assert_ne!(id1, id2);

    assert_eq!(interner.resolve(id1), Some("hello"));
    assert_eq!(interner.resolve(id2), Some("world"));
    assert_eq!(interner.len(), 2);
}

#[test]
fn lookup_operations() {
    let mut interner = StringInterner::new();

    let id = interner.intern("test");

    assert_eq!(interner.get_id("test"), Some(id));
    assert_eq!(interner.get_id("nonexistent"), None);
    assert!(interner.contains("test"));
    assert!(!interner.contains("nonexistent"));
}

#[test]
fn intern_is_idempotent() {
    let mut interner = StringInterner::new();
    let first = interner.intern("alpha");
    let len_after_first = interner.len();
    let second = interner.intern("alpha");
    assert_eq!(first, second);
    assert_eq!(interner.len(), len_after_first);
}

#[test]
fn ids_are_sequential_from_zero() {
    let mut interner = StringInterner::new();
    assert!(interner.is_empty());
    assert_eq!(interner.intern("a").raw(), 0);
    assert_eq!(interner.intern("b").raw(), 1);
    assert_eq!(interner.intern("c").raw(), 2);
    assert_eq!(interner.intern("b").raw(), 1);
    assert_eq!(interner.len(), 3);
    assert!(!interner.is_empty());
}

#[test]
fn empty_string_interns() {
    let mut interner = StringInterner::new();
    let id = interner.intern("");
    assert_eq!(interner.resolve(id), Some(""));
    assert!(interner.contains(""));
    assert_eq!(interner.len(), 1);
}

#[test]
fn foreign_id_does_not_resolve() {
    let interner = StringInterner::new();
    assert_eq!(interner.resolve(StringId::new(0)), None);
    let mut other = StringInterner::new();
    let id = other.intern("only-here");
    assert_eq!(interner.resolve(id), None);
}

#[test]
fn default_interner_is_empty() {
    let interner = StringInterner::default();
    assert!(interner.is_empty());
    assert_eq!(interner.len(), 0);
}

#[test]
fn context_interns_and_resolves() {
    let mut ctx = Context::new();
    let id = ctx.intern("field");
    let again = ctx.intern("field");
    assert_eq!(id, again);
    assert_eq!(ctx.resolve(id), Some("field"));
    assert_eq!(ctx.resolve(StringId::new(7)), None);
}

#[test]
fn default_context_is_fresh() {
    let mut ctx = Context::default();
    assert_eq!(ctx.intern("x").raw(), 0);
}

#[test]
fn string_id_raw_round_trip() {
    let id = StringId::new(42);
    assert_eq!(id.raw(), 42);
    assert_eq!(StringId::new(42), id);
    assert!(StringId::new(1) < StringId::new(2));
}
