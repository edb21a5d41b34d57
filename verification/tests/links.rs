use simpl_actor::links::Links;

fn sorted(mut v: Vec<(u64, &'static str)>) -> Vec<(u64, &'static str)> {
    v.sort();
    v
}

#[test]
fn link_child_adds_one_link() {
    let mut l: Links<&'static str> = Links::new();
    l.link_child(1, 2, "two");
    assert!(l.contains(2));
    assert_eq!(l.len(), 1);
    l.link_child(1, 2, "two again");
    assert_eq!(l.len(), 1);
    assert_eq!(l.take_all(), vec![(2, "two again")]);
}

#[test]
fn no_link_to_self() {
    let mut l: Links<&'static str> = Links::new();
    l.link_child(5, 5, "me");
    assert_eq!(l.len(), 0);
    l.link_child(5, 6, "six");
    l.unlink_child(5, 5);
    assert_eq!(l.len(), 1);
}

#[test]
fn unlink_child_removes_it() {
    let mut l: Links<&'static str> = Links::new();
    l.link_child(1, 2, "two");
    l.link_child(1, 3, "three");
    l.unlink_child(1, 2);
    assert!(!l.contains(2));
    assert!(l.contains(3));
    l.unlink_child(1, 99);
    assert_eq!(l.len(), 1);
}

#[test]
fn link_together_is_mutual() {
    let mut a: Links<&'static str> = Links::new();
    let mut b: Links<&'static str> = Links::new();
    Links::link_together(1, &mut a, "a", 2, &mut b, "b");
    assert_eq!(a.take_all(), vec![(2, "b")]);
    assert_eq!(b.take_all(), vec![(1, "a")]);
}

#[test]
fn unlink_together_undoes_link_together() {
    let mut a: Links<&'static str> = Links::new();
    let mut b: Links<&'static str> = Links::new();
    a.link_child(1, 7, "seven");
    Links::link_together(1, &mut a, "a", 2, &mut b, "b");
    Links::unlink_together(1, &mut a, 2, &mut b);
    assert_eq!(a.take_all(), vec![(7, "seven")]);
    assert_eq!(b.len(), 0);
}

#[test]
fn link_together_with_self_changes_nothing() {
    let mut a: Links<&'static str> = Links::new();
    let mut b: Links<&'static str> = Links::new();
    Links::link_together(4, &mut a, "a", 4, &mut b, "b");
    assert_eq!(a.len(), 0);
    assert_eq!(b.len(), 0);
}

#[test]
fn take_all_returns_every_link_once_and_empties() {
    let mut l: Links<&'static str> = Links::new();
    l.link_child(0, 3, "c");
    l.link_child(0, 1, "a");
    l.link_child(0, 2, "b");
    let all = sorted(l.take_all());
    assert_eq!(all, vec![(1, "a"), (2, "b"), (3, "c")]);
    assert_eq!(l.len(), 0);
    assert_eq!(l.take_all(), vec![]);
}
