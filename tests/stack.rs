use pyegui::error::UiError;
use pyegui::stack::{ScopeStack, ScopeToken};

#[test]
fn push_then_pop_returns_regions_in_reverse() {
    let mut s: ScopeStack<u32> = ScopeStack::new();
    assert_eq!(s.depth(), 0);
    let a = s.push(10).unwrap();
    let b = s.push(20).unwrap();
    assert_eq!(a, ScopeToken { depth: 0, stamp: 0 });
    assert_eq!(b, ScopeToken { depth: 1, stamp: 1 });
    assert_eq!(s.depth(), 2);
    assert_eq!(*s.top().unwrap(), 20);
    assert_eq!(s.pop(), Ok(20));
    assert_eq!(s.pop(), Ok(10));
    assert_eq!(s.depth(), 0);
}

#[test]
fn pop_on_empty_is_underflow() {
    let mut s: ScopeStack<u32> = ScopeStack::new();
    assert_eq!(s.pop(), Err(UiError::StackUnderflow));
    assert_eq!(s.depth(), 0);
}

#[test]
fn top_on_empty_is_no_active_scope() {
    let s: ScopeStack<u32> = ScopeStack::new();
    assert_eq!(s.top(), Err(UiError::NoActiveScope));
}

#[test]
fn token_dangles_once_its_scope_closed() {
    let mut s: ScopeStack<u32> = ScopeStack::new();
    let root = s.push(1).unwrap();
    let inner = s.push(2).unwrap();
    assert_eq!(s.resolve(inner), Ok(&2));
    assert_eq!(s.close(inner), Ok(2));
    assert_eq!(s.resolve(inner), Err(UiError::DanglingHandle));
    // a later scope at the same depth gets a fresh stamp
    let again = s.push(3).unwrap();
    assert_eq!(again.depth, inner.depth);
    assert_ne!(again.stamp, inner.stamp);
    assert_eq!(s.resolve(inner), Err(UiError::DanglingHandle));
    assert_eq!(s.resolve(again), Ok(&3));
    assert_eq!(s.resolve(root), Ok(&1));
}

#[test]
fn closing_outer_scope_drops_inner_ones_and_reports_fault() {
    let mut s: ScopeStack<u32> = ScopeStack::new();
    let _root = s.push(1).unwrap();
    let outer = s.push(2).unwrap();
    let _inner = s.push(3).unwrap();
    assert_eq!(s.close(outer), Err(UiError::StackConsistency));
    assert_eq!(s.depth(), 1);
    assert_eq!(*s.top().unwrap(), 1);
}

#[test]
fn closing_stale_token_changes_nothing() {
    let mut s: ScopeStack<u32> = ScopeStack::new();
    let root = s.push(1).unwrap();
    let inner = s.push(2).unwrap();
    assert_eq!(s.close(inner), Ok(2));
    assert_eq!(s.close(inner), Err(UiError::StackConsistency));
    assert_eq!(s.depth(), 1);
    assert_eq!(s.close(root), Ok(1));
    assert_eq!(s.depth(), 0);
}

#[test]
fn clear_drops_everything() {
    let mut s: ScopeStack<u32> = ScopeStack::new();
    s.push(1).unwrap();
    s.push(2).unwrap();
    s.clear();
    assert_eq!(s.depth(), 0);
    assert_eq!(s.top(), Err(UiError::NoActiveScope));
}
