use supershuckie::counters::{extend_counter_map, CounterMap};
use supershuckie::packet::Counter;

fn name(s: &str) -> String {
    String::from(s)
}

#[test]
fn counters_start_at_delta_and_wrap() {
    let mut m = CounterMap::new();
    assert_eq!(m.get(&name("a")), None);
    m.change(name("a"), 5);
    assert_eq!(m.get(&name("a")), Some(5));
    m.change(name("a"), -7);
    assert_eq!(m.get(&name("a")), Some(-2));
    m.set(name("b"), i64::MAX);
    m.change(name("b"), 1);
    assert_eq!(m.get(&name("b")), Some(i64::MIN));
    m.clear();
    assert_eq!(m.get(&name("a")), None);
}

#[test]
fn later_counters_of_a_name_win() {
    let m = CounterMap::from_counters(&vec![
        Counter { name: name("x"), value: 1 },
        Counter { name: name("y"), value: 2 },
        Counter { name: name("x"), value: 3 },
    ]);
    assert_eq!(m.get(&name("x")), Some(3));
    assert_eq!(m.get(&name("y")), Some(2));
    let mut list = m.to_counters();
    list.sort_by(|a, b| a.name.cmp(&b.name));
    assert_eq!(list.len(), 2);
    assert_eq!((list[0].name.as_str(), list[0].value), ("x", 3));
}

#[test]
fn extending_copies_the_counters_exactly() {
    let mut from = CounterMap::new();
    from.set(name("kept"), 10);
    from.set(name("new"), 1);
    let mut into = CounterMap::new();
    into.set(name("kept"), 2);
    into.set(name("gone"), 3);
    extend_counter_map(&from, &mut into);
    assert_eq!(into.get(&name("kept")), Some(10));
    assert_eq!(into.get(&name("new")), Some(1));
    assert_eq!(into.get(&name("gone")), None);
}
