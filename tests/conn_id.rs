use clipboard::{get_conn_id, ConnIdAllocator};

#[test]
fn fresh_allocator_issues_one_to_n() {
    let mut ids = ConnIdAllocator::new();
    assert_eq!(ids.last(), 0);
    let got: Vec<i32> = (0..100).map(|_| get_conn_id(&mut ids).unwrap()).collect();
    let want: Vec<i32> = (1..=100).collect();
    assert_eq!(got, want);
    assert_eq!(ids.last(), 100);
}

#[test]
fn first_id_is_one_not_zero() {
    let mut ids = ConnIdAllocator::new();
    assert_eq!(get_conn_id(&mut ids), Some(1));
}

#[test]
fn allocators_are_independent() {
    let mut a = ConnIdAllocator::new();
    let mut b = ConnIdAllocator::new();
    assert_eq!(get_conn_id(&mut a), Some(1));
    assert_eq!(get_conn_id(&mut a), Some(2));
    assert_eq!(get_conn_id(&mut b), Some(1));
}
