use gero::combat::TurnQueue;
use std::collections::VecDeque;

#[test]
fn turn_order_cycles_and_tracks_current_unit() {
    let mut queue = TurnQueue::new();
    queue.add_unit("u1".into());
    queue.add_unit("u2".into());

    let first = queue.next_turn();
    assert_eq!(first.as_deref(), Some("u1"));
    assert_eq!(queue.current_unit_id.as_deref(), Some("u1"));
    assert_eq!(
        queue.initiative,
        VecDeque::from(vec!["u2".to_string(), "u1".to_string()])
    );

    let second = queue.next_turn();
    assert_eq!(second.as_deref(), Some("u2"));
    assert_eq!(queue.current_unit_id.as_deref(), Some("u2"));
    assert_eq!(
        queue.initiative,
        VecDeque::from(vec!["u1".to_string(), "u2".to_string()])
    );
}

#[test]
fn new_queue_is_empty_and_in_round_one() {
    let mut queue = TurnQueue::new();
    assert!(queue.initiative.is_empty());
    assert_eq!(queue.current_unit_id, None);
    assert_eq!(queue.round_number, 1);
    assert_eq!(queue.next_turn(), None);
    assert_eq!(queue.current_unit_id, None);
    assert!(queue.initiative.is_empty());
}

#[test]
fn three_units_take_their_turns_round_and_round() {
    let mut queue = TurnQueue::new();
    let ids = ["a", "b", "c"];
    for id in ids {
        queue.add_unit(id.to_string());
    }
    for turn in 0..10 {
        let next = queue.next_turn();
        assert_eq!(next.as_deref(), Some(ids[turn % 3]));
        assert_eq!(queue.current_unit_id, next);
        assert_eq!(queue.initiative.len(), 3);
        assert_eq!(queue.round_number, 1);
    }
}
