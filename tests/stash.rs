use lifeguard::{InitializeWith, Recycleable, Stash};

#[test]
fn stash_with_size_holds_fresh_values() {
    let mut s: Stash<String> = Stash::with_size(3);
    assert_eq!(s.len(), 3);
    assert_eq!(s.take(), "");
    assert_eq!(s.len(), 2);
}

#[test]
fn stash_is_last_in_first_out() {
    let mut s: Stash<Vec<u8>> = Stash::empty();
    s.push(vec![1]);
    s.push(vec![2]);
    assert_eq!(s.len(), 2);
    assert_eq!(s.take(), vec![2]);
    assert_eq!(s.take(), vec![1]);
    assert_eq!(s.len(), 0);
}

#[test]
fn stash_take_when_empty_makes_fresh_value() {
    let mut s: Stash<Vec<u8>> = Stash::empty();
    assert_eq!(s.take(), Vec::<u8>::new());
    assert_eq!(s.len(), 0);
}

#[test]
fn string_reset_empties_and_keeps_capacity() {
    let mut s = String::from("some text");
    let cap = s.capacity();
    Recycleable::reset(&mut s);
    assert_eq!(s, "");
    assert_eq!(s.capacity(), cap);
    Recycleable::reset(&mut s);
    assert_eq!(s, "");
}

#[test]
fn vec_reset_empties_and_keeps_capacity() {
    let mut v: Vec<u32> = vec![1, 2, 3];
    let cap = v.capacity();
    Recycleable::reset(&mut v);
    assert!(v.is_empty());
    assert_eq!(v.capacity(), cap);
}

#[test]
fn fresh_values_are_empty() {
    let s: String = Recycleable::new();
    let v: Vec<i8> = Recycleable::new();
    assert_eq!(s, "");
    assert!(v.is_empty());
}

#[test]
fn string_initialize_with_copies_source() {
    let mut s = String::new();
    s.initialize_with("copy me");
    assert_eq!(s, "copy me");
    let mut t = String::new();
    t.initialize_with(String::from("owned"));
    assert_eq!(t, "owned");
}
