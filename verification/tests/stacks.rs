use veight::stack::ArcStack;
use veight::stack::ArcStackItem;
use veight::stack::WeakItem;

#[test]
fn item_keeps_its_name_and_owner() {
    for name in ["", "f", "hello", "a name that is long enough to be interned", "\u{e9}\u{1F600}"] {
        let item = ArcStackItem::new(9, name);
        assert_eq!(item.name(), name);
        assert_eq!(item.state(), 9);
    }
}

#[test]
fn shared_item_outlives_the_stack() {
    let mut stack = ArcStack::new();
    let first = stack.push(ArcStackItem::new(9, "f"));
    let second = stack.push(ArcStackItem::new(9, "g"));
    let shared = stack.share(second).unwrap();
    assert_eq!(shared.get_weak(), second);
    stack.drop_all();
    assert!(stack.upgrade(first).is_none());
    let kept = stack.upgrade(shared.get_weak()).unwrap();
    assert_eq!((kept.name().as_str(), kept.state()), ("g", 9));
    stack.drop_all();
    assert!(stack.upgrade(second).is_some());
    stack.give_up(shared);
    assert!(stack.upgrade(second).is_none());
    assert!(stack.share(second).is_none());
}

#[test]
fn item_stays_until_its_last_holder_goes() {
    let mut stack = ArcStack::new();
    let item = stack.push(ArcStackItem::new(9, "f"));
    let one = stack.share(item).unwrap();
    let other = stack.share(item).unwrap();
    stack.give_up(one);
    assert!(stack.upgrade(item).is_some());
    stack.drop_all();
    assert!(stack.upgrade(item).is_some());
    stack.give_up(other);
    assert!(stack.upgrade(item).is_none());

    let item = stack.push(ArcStackItem::new(9, "g"));
    let only = stack.share(item).unwrap();
    stack.give_up(only);
    assert!(stack.upgrade(item).is_some());
    assert!(stack.share(WeakItem { slot: 7 }).is_none());
}

#[test]
fn pushed_items_are_found_again() {
    let mut stack = ArcStack::new();
    let first = stack.push(ArcStackItem::new(1, "first"));
    let second = stack.push(ArcStackItem::new(1, "second"));
    let third = stack.push(ArcStackItem::new(1, "first"));
    assert_eq!(first, WeakItem { slot: 0 });
    assert_eq!(stack.upgrade(first).unwrap().name(), "first");
    assert_eq!(stack.upgrade(second).unwrap().name(), "second");
    assert_eq!(stack.upgrade(third).unwrap().name(), "first");
    assert_ne!(first, third);
}

#[test]
fn unknown_reference_stands_for_nothing() {
    let stack = ArcStack::new();
    assert!(stack.upgrade(WeakItem { slot: 0 }).is_none());
    assert!(stack.upgrade(WeakItem { slot: usize::MAX }).is_none());
}

#[test]
fn dropped_items_are_not_found_even_after_others_are_pushed() {
    let mut stack = ArcStack::new();
    let old = stack.push(ArcStackItem::new(1, "old"));
    stack.drop_all();
    assert!(stack.upgrade(old).is_none());
    let new = stack.push(ArcStackItem::new(1, "new"));
    assert!(stack.upgrade(old).is_none());
    assert_eq!(stack.upgrade(new).unwrap().name(), "new");
    stack.drop_all();
    stack.drop_all();
    assert!(stack.upgrade(new).is_none());
}
