use arm_core::history::RollingBuffer;

#[test]
fn keeps_only_the_most_recent_samples() {
    let mut b = RollingBuffer::new(3);
    for v in 1..=5 {
        b.push(v);
    }
    assert_eq!(b.len(), 3);
    assert_eq!(b.items().iter().copied().collect::<Vec<_>>(), vec![3, 4, 5]);
    assert_eq!(*b.get(0), 3);
    assert_eq!(*b.get(2), 5);
}

#[test]
fn below_capacity_keeps_everything() {
    let mut b = RollingBuffer::new(300);
    for v in 0..10 {
        b.push(v as f32 * 0.5);
    }
    assert_eq!(b.len(), 10);
    assert_eq!(*b.get(9), 4.5);
}

#[test]
fn zero_capacity_holds_nothing() {
    let mut b = RollingBuffer::new(0);
    b.push('x');
    assert_eq!(b.len(), 0);
}

#[test]
fn clear_empties() {
    let mut b = RollingBuffer::new(2);
    b.push(1);
    b.push(2);
    b.clear();
    assert_eq!(b.len(), 0);
    b.push(7);
    assert_eq!(*b.get(0), 7);
}
