use trace::{Location, ReturnTrace};

fn trace_of(sites: &[Location]) -> ReturnTrace {
    let mut t = ReturnTrace::new();
    for s in sites {
        t.push(*s);
    }
    t
}

fn listed(t: &ReturnTrace) -> Vec<Location> {
    (0..t.len()).map(|i| t.get(i).unwrap()).collect()
}

#[test]
fn location_keeps_file_line_and_column() {
    let l = Location::new("src/main.rs", 12, 34);
    assert_eq!(l.file(), "src/main.rs");
    assert_eq!(l.line(), 12);
    assert_eq!(l.column(), 34);
    assert_eq!(l, Location::new("src/main.rs", 12, 34));
    assert_ne!(l, Location::new("src/main.rs", 12, 35));
    assert_ne!(l, Location::new("src/main.rs", 13, 34));
    assert_ne!(l, Location::new("src/lib.rs", 12, 34));
}

#[test]
fn new_and_default_are_empty() {
    let a = ReturnTrace::new();
    let b = ReturnTrace::default();
    assert!(a.is_empty());
    assert!(b.is_empty());
    assert_eq!(a.len(), 0);
    assert_eq!(b.len(), 0);
    assert_eq!(a.get(0), None);
}

#[test]
fn push_appends_at_the_end() {
    let a = Location::new("a.rs", 1, 1);
    let b = Location::new("b.rs", 2, 2);
    let mut t = ReturnTrace::new();
    t.push(a);
    assert_eq!(listed(&t), vec![a]);
    assert!(!t.is_empty());
    t.push(b);
    assert_eq!(listed(&t), vec![a, b]);
    t.push(a);
    assert_eq!(listed(&t), vec![a, b, a]);
    assert_eq!(t.len(), 3);
}

#[test]
fn get_is_none_from_the_length_on() {
    let a = Location::new("a.rs", 1, 1);
    let t = trace_of(&[a, a]);
    assert_eq!(t.get(0), Some(a));
    assert_eq!(t.get(1), Some(a));
    assert_eq!(t.get(2), None);
    assert_eq!(t.get(usize::MAX), None);
}

#[test]
fn caused_puts_the_cause_first() {
    let a1 = Location::new("a.rs", 1, 1);
    let a2 = Location::new("a.rs", 2, 1);
    let b1 = Location::new("b.rs", 1, 1);
    let cause = trace_of(&[a1, a2]);
    let mut effect = trace_of(&[b1]);
    cause.caused(&mut effect);
    assert_eq!(listed(&effect), vec![a1, a2, b1]);
}

#[test]
fn caused_with_an_empty_cause_changes_nothing() {
    let b1 = Location::new("b.rs", 1, 1);
    let mut effect = trace_of(&[b1]);
    ReturnTrace::new().caused(&mut effect);
    assert_eq!(listed(&effect), vec![b1]);
}

#[test]
fn caused_on_an_empty_trace_gives_the_cause() {
    let a1 = Location::new("a.rs", 1, 1);
    let a2 = Location::new("a.rs", 2, 1);
    let mut effect = ReturnTrace::new();
    trace_of(&[a1, a2]).caused(&mut effect);
    assert_eq!(listed(&effect), vec![a1, a2]);
}

#[test]
fn debug_lists_the_locations_in_order() {
    let t = trace_of(&[Location::new("first.rs", 1, 1), Location::new("second.rs", 2, 2)]);
    let shown = format!("{:?}", t);
    let first = shown.find("first.rs").unwrap();
    let second = shown.find("second.rs").unwrap();
    assert!(first < second);
}
