use running::logged::LoggedCallable;
use running::generate_task_id;
use running::task::TaskIdGenerator;

#[test]
fn task_ids_start_at_zero_and_count_up() {
    let mut generator = TaskIdGenerator::new();
    assert_eq!(generate_task_id(&mut generator), 0);
    assert_eq!(generate_task_id(&mut generator), 1);
    assert_eq!(generate_task_id(&mut generator), 2);
}

#[test]
fn task_ids_are_distinct_and_increasing() {
    let mut generator = TaskIdGenerator::new();
    let mut last = generate_task_id(&mut generator);
    for _ in 0..1000 {
        let next = generate_task_id(&mut generator);
        assert!(last < next);
        last = next;
    }
}

#[test]
fn logged_callables_get_increasing_task_ids() {
    let mut generator = TaskIdGenerator::new();
    let mut ids = Vec::new();
    for _ in 0..5 {
        let unit: LoggedCallable<u8, u8, _> =
            LoggedCallable::new(|x: u8| Ok(x), "identity", generate_task_id(&mut generator));
        ids.push(unit.task_id());
    }
    assert_eq!(ids, [0, 1, 2, 3, 4]);
}
