use movie_recommendation::join::{failed_lookups, Join};

#[test]
fn a_new_join_waits_for_every_lookup() {
    let join: Join<i32> = Join::new(3);
    assert_eq!(join.width(), 3);
    assert_eq!(join.pending(), 3);
    assert!(!join.is_complete());
    assert_eq!(join.finish(), vec![None, None, None]);
}

#[test]
fn a_join_of_nothing_is_complete() {
    let join: Join<i32> = Join::new(0);
    assert_eq!(join.width(), 0);
    assert_eq!(join.pending(), 0);
    assert!(join.is_complete());
    assert_eq!(join.finish(), Vec::<Option<i32>>::new());
}

#[test]
fn reports_land_at_their_own_position_in_any_order() {
    let mut late_first: Join<&str> = Join::new(4);
    assert!(late_first.record(3, Some("d")));
    assert!(late_first.record(0, Some("a")));
    assert!(late_first.record(2, None));
    assert_eq!(late_first.pending(), 1);
    assert!(!late_first.is_complete());
    assert!(late_first.record(1, Some("b")));
    assert_eq!(late_first.pending(), 0);
    assert!(late_first.is_complete());

    let mut in_order: Join<&str> = Join::new(4);
    assert!(in_order.record(0, Some("a")));
    assert!(in_order.record(1, Some("b")));
    assert!(in_order.record(2, None));
    assert!(in_order.record(3, Some("d")));

    assert_eq!(late_first, in_order);
    assert_eq!(
        late_first.finish(),
        vec![Some("a"), Some("b"), None, Some("d")]
    );
}

#[test]
fn a_position_takes_one_report_only() {
    let mut join: Join<i32> = Join::new(2);
    assert!(join.record(1, Some(7)));
    assert!(!join.record(1, Some(8)));
    assert!(!join.record(1, None));
    assert!(join.record(0, None));
    assert!(!join.record(0, Some(9)));
    assert_eq!(join.finish(), vec![None, Some(7)]);
}

#[test]
fn a_report_from_outside_the_batch_is_ignored() {
    let mut join: Join<i32> = Join::new(2);
    assert!(!join.record(2, Some(1)));
    assert!(!join.record(usize::MAX, None));
    assert_eq!(join.pending(), 2);
    assert_eq!(join.finish(), vec![None, None]);
}

#[test]
fn failed_lookups_name_the_keys_without_an_outcome() {
    let keys = vec![82702, 62177, 438631];
    assert_eq!(
        failed_lookups(&keys, &vec![Some(1), None, Some(3)]),
        vec![62177]
    );
    assert_eq!(
        failed_lookups(&keys, &vec![None, None, None::<i32>]),
        vec![82702, 62177, 438631]
    );
    assert_eq!(failed_lookups(&keys, &vec![Some(1)]), vec![62177, 438631]);
    assert_eq!(
        failed_lookups(&keys, &vec![Some(1), Some(2), Some(3), None]),
        Vec::<i64>::new()
    );
    assert_eq!(
        failed_lookups(&vec![], &vec![None::<i32>]),
        Vec::<i64>::new()
    );
}
