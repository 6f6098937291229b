use gd_closures::bindings::Bindings;

fn sum(args: &[i64]) -> i64 {
    args.iter().sum()
}

#[test]
fn nothing_bound_forwards_arguments_unchanged() {
    let b: Bindings<i64> = Bindings::new();
    assert_eq!(b.len(), 0);
    assert_eq!(b.forward(vec![2, 3]), vec![2, 3]);
    assert_eq!(sum(&b.forward(vec![2, 3])), 5);
    assert_eq!(b.forward(vec![]), Vec::<i64>::new());
}

#[test]
fn bound_value_takes_the_last_slot() {
    let b = Bindings::new().bind(10i64);
    assert_eq!(b.forward(vec![2]), vec![2, 10]);
    assert_eq!(sum(&b.forward(vec![2])), 12);
}

#[test]
fn later_binds_fill_earlier_slots() {
    let b = Bindings::new().bind(1i64).bind(2).bind(3);
    assert_eq!(b.len(), 3);
    assert_eq!(b.values, vec![3, 2, 1]);
    assert_eq!(b.forward(vec![7, 8]), vec![7, 8, 3, 2, 1]);
}

#[test]
fn binding_every_slot_leaves_no_open_argument() {
    let b = Bindings::new().bind("c".to_string()).bind("b".to_string()).bind("a".to_string());
    assert_eq!(b.forward(vec![]), vec!["a", "b", "c"]);
}

#[test]
fn last_argument_arrives_last_for_every_arity() {
    for n in 0..=10i64 {
        let args: Vec<i64> = (1..=n).map(|k| 100 + k).collect();
        let forwarded = Bindings::new().forward(args.clone());
        assert_eq!(forwarded.len(), n as usize);
        assert_eq!(forwarded.last().copied(), if n == 0 { None } else { Some(100 + n) });
        assert_eq!(forwarded, args);
    }
}

#[test]
fn palindromic_binds_read_in_bind_order() {
    let b = Bindings::new().bind(4i64).bind(5).bind(4);
    assert_eq!(b.forward(vec![1]), vec![1, 4, 5, 4]);
}
