use solid_principles::violations::{
    reverse_data_structure, CorrectStack, DataStructure, InconsistentStructure, MislabeledQueue,
    RandomStructure, RestrictiveStructure, SideEffectStructure, WeakStructure,
};

fn fill<D: DataStructure>(ds: &mut D, xs: &[i32]) {
    for &x in xs {
        assert!(ds.add(x).is_ok());
    }
}

#[test]
fn correct_stack_is_lifo() {
    let mut s = CorrectStack::new();
    fill(&mut s, &[10, 20, 30]);
    assert_eq!(s.size(), 3);
    assert_eq!(s.peek(), Ok(30));
    assert_eq!(s.remove(), Ok(30));
    assert_eq!(s.size(), 2);
    assert!(!s.is_empty());
}

#[test]
fn mislabeled_queue_is_fifo() {
    let mut q = MislabeledQueue::new();
    fill(&mut q, &[10, 20, 30]);
    assert_eq!(q.peek(), Ok(10));
    assert_eq!(q.remove(), Ok(10));
    assert_eq!(q.size(), 2);
    let mut e = MislabeledQueue::new();
    assert_eq!(e.remove(), Err("Queue is empty".to_string()));
}

#[test]
fn inconsistent_structure_switches_by_size() {
    let mut s = InconsistentStructure::new();
    fill(&mut s, &[10, 20, 30]);
    assert_eq!(s.peek(), Ok(30));
    assert_eq!(s.remove(), Ok(30));
    assert_eq!(s.peek(), Ok(10));
    assert_eq!(s.remove(), Ok(10));
    assert_eq!(s.remove(), Ok(20));
    assert_eq!(s.remove(), Err("Structure is empty".to_string()));
}

#[test]
fn restrictive_structure_refuses_values_and_last_element() {
    let mut r = RestrictiveStructure::new();
    assert_eq!(r.add(5), Ok(()));
    assert_eq!(r.add(-5), Err("Negative numbers not allowed!".to_string()));
    assert_eq!(r.add(150), Err("Numbers greater than 100 not allowed!".to_string()));
    assert_eq!(r.add(0), Ok(()));
    assert_eq!(r.add(100), Ok(()));
    assert_eq!(r.size(), 3);
    assert_eq!(r.remove(), Ok(100));
    assert_eq!(r.remove(), Ok(0));
    assert_eq!(r.peek(), Err("Cannot peek at last element!".to_string()));
    assert_eq!(r.remove(), Err("Cannot remove last element!".to_string()));
    assert_eq!(r.size(), 1);
    let e = RestrictiveStructure::new();
    assert_eq!(e.peek(), Err("Structure is empty".to_string()));
}

#[test]
fn side_effect_structure_duplicates_every_third_add() {
    let mut s = SideEffectStructure::new();
    let mut sizes = Vec::new();
    for i in 1..=5 {
        assert_eq!(s.add(i), Ok(()));
        sizes.push(s.size());
    }
    assert_eq!(sizes, vec![1, 2, 4, 5, 6]);
    assert_eq!(s.get_hidden_log().to_vec(), vec!["Secret: Added 3".to_string()]);
}

#[test]
fn side_effect_structure_drops_extra_on_fifth_operation() {
    let mut s = SideEffectStructure::new();
    fill(&mut s, &[1, 2, -40, 4]);
    // four adds (the third stored twice), so the next removal is operation five
    assert_eq!(s.size(), 5);
    assert_eq!(s.remove(), Ok(4));
    assert_eq!(s.size(), 3);
    assert_eq!(
        s.get_hidden_log().to_vec(),
        vec!["Secret: Added -40".to_string(), "Secret: Removed 4".to_string()]
    );
    assert_eq!(s.peek(), Ok(-40));
}

#[test]
fn side_effect_log_writes_extreme_values() {
    let mut s = SideEffectStructure::new();
    fill(&mut s, &[0, 0, i32::MIN]);
    assert_eq!(s.get_hidden_log().to_vec(), vec!["Secret: Added -2147483648".to_string()]);
    let mut t = SideEffectStructure::new();
    fill(&mut t, &[0, 0, i32::MAX]);
    assert_eq!(t.get_hidden_log().to_vec(), vec!["Secret: Added 2147483647".to_string()]);
}

#[test]
fn side_effect_structure_empty_remove_fails() {
    let mut s = SideEffectStructure::new();
    assert_eq!(s.remove(), Err("Structure is empty".to_string()));
    assert!(s.get_hidden_log().is_empty());
}

#[test]
fn weak_structure_given_draws() {
    let mut w = WeakStructure::new();
    fill(&mut w, &[7, 8, 9]);
    assert_eq!(w.peek_drawn(10), Ok(-999));
    assert_eq!(w.peek_drawn(11), Ok(9));
    assert_eq!(w.size_drawn(20), 4);
    assert_eq!(w.size_drawn(3), 3);
    assert_eq!(w.remove_drawn(0), Ok(-999));
    assert_eq!(w.remove_drawn(1), Ok(8));
    assert_eq!(w.size_drawn(1), 1);
    let mut e = WeakStructure::new();
    assert_eq!(e.remove_drawn(0), Err("Structure is empty".to_string()));
}

#[test]
fn weak_structure_random_answers_stay_in_range() {
    let mut w = WeakStructure::new();
    fill(&mut w, &[1, 2]);
    let p = w.peek();
    assert!(p == Ok(2) || p == Ok(-999));
    let n = w.size();
    assert!(n == 2 || n == 3);
    let r = w.remove();
    assert!(r == Ok(2) || r == Ok(-999));
}

#[test]
fn random_structure_removes_held_elements() {
    let mut r = RandomStructure::new();
    fill(&mut r, &[3, 6, 9]);
    assert_eq!(r.peek(), Ok(3));
    let mut out = Vec::new();
    for _ in 0..3 {
        out.push(r.remove().unwrap());
    }
    out.sort();
    assert_eq!(out, vec![3, 6, 9]);
    assert_eq!(r.remove(), Err("Structure is empty".to_string()));
}

#[test]
fn random_structure_given_position() {
    let mut r = RandomStructure::new();
    fill(&mut r, &[3, 6, 9]);
    assert_eq!(r.remove_drawn(1), Ok(6));
    assert_eq!(r.size(), 2);
    assert_eq!(r.peek(), Ok(3));
}

#[test]
fn reverse_reverses_a_stack() {
    let mut s = CorrectStack::new();
    fill(&mut s, &[1, 2, 3]);
    assert!(reverse_data_structure(&mut s));
    assert_eq!(s.remove(), Ok(1));
    assert_eq!(s.remove(), Ok(2));
    assert_eq!(s.remove(), Ok(3));
}

#[test]
fn reverse_keeps_a_queue_in_order() {
    let mut q = MislabeledQueue::new();
    fill(&mut q, &[1, 2, 3]);
    assert!(reverse_data_structure(&mut q));
    assert_eq!(q.remove(), Ok(1));
    assert_eq!(q.remove(), Ok(2));
    assert_eq!(q.remove(), Ok(3));
}

#[test]
fn reverse_of_empty_changes_nothing() {
    let mut s = CorrectStack::new();
    assert!(reverse_data_structure(&mut s));
    assert!(s.is_empty());
}
