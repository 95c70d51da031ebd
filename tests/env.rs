use unseemly::assoc::Assoc;
use unseemly::list::List;
use unseemly::name::Name;

#[test]
fn set_leaves_the_old_handle_alone() {
    let a: Assoc<u32> = Assoc::new();
    let b = a.set(Name::new(1), 10);
    let c = b.set(Name::new(1), 20);
    let d = b.set(Name::new(2), 30);
    assert!(a.find(&Name::new(1)).is_none());
    assert_eq!(b.find(&Name::new(1)), Some(&10));
    assert_eq!(c.find(&Name::new(1)), Some(&20));
    assert_eq!(d.find(&Name::new(1)), Some(&10));
    assert_eq!(d.find(&Name::new(2)), Some(&30));
    assert!(c.find(&Name::new(2)).is_none());
    assert!(a.is_empty() && !b.is_empty());
}

#[test]
fn list_positions() {
    let l = List::cons(5u8, List::cons(6u8, List::Nil));
    assert_eq!(l.len(), 2);
    assert_eq!(*l.nth(0), 5);
    assert_eq!(*l.nth(1), 6);
    let empty: List<u8> = List::Nil;
    assert_eq!(empty.len(), 0);
}
