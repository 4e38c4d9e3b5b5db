use kestrel::task::group::{Group, GroupStep};
use kestrel::task::outcome::{
    allow_abort, maybe_result, task, Aborted, JoinFailure, Joined, Maybe, Task, TaskError, TaskId,
};

fn cancelled() -> JoinFailure {
    JoinFailure { cancelled: true, reason: "task 1 was cancelled".to_string() }
}

fn panicked() -> JoinFailure {
    JoinFailure { cancelled: false, reason: "task 1 panicked".to_string() }
}

/// Does what a group says on tasks that end as given once they are awaited.
fn drive(mut group: Group, aborted: &mut Vec<bool>, endings: Vec<Joined<i32>>) -> (Vec<GroupStep>, Result<(), TaskError>) {
    let mut tasks: Vec<Option<Task<i32>>> = Vec::new();
    for (place, ending) in endings.into_iter().enumerate() {
        let mut handle: Task<i32> = task(TaskId(place as u64));
        handle.finish(ending);
        tasks.push(Some(handle));
    }
    let mut steps = Vec::new();
    loop {
        let step = group.next();
        steps.push(step);
        match step {
            GroupStep::Abort(place) => {
                tasks[place].as_mut().unwrap().abort();
                aborted[place] = tasks[place].as_ref().unwrap().is_aborted();
            }
            GroupStep::Await(place) => {
                let handle = tasks[place].take().unwrap();
                group.report(handle.await_allow_abort().unwrap());
            }
            GroupStep::Done => break,
        }
    }
    (steps, group.result())
}

#[test]
fn test_await_allow_abort() {
    let mut aborted = vec![false, false];
    let (steps, result) =
        drive(Group::await_allow_abort(2), &mut aborted, vec![Joined::Output(1), Joined::Output(2)]);
    assert!(result.is_ok());
    assert_eq!(steps, vec![GroupStep::Await(0), GroupStep::Await(1), GroupStep::Done]);
    assert_eq!(aborted, vec![false, false]);
}

#[test]
fn test_abort() {
    let mut task1: Task<i32> = task(TaskId(1));
    let mut task2: Task<&str> = task(TaskId(2));
    let mut group = Group::abort(2);
    assert_eq!(group.next(), GroupStep::Abort(0));
    task1.abort();
    assert_eq!(group.next(), GroupStep::Abort(1));
    task2.abort();
    assert_eq!(group.next(), GroupStep::Done);
    assert!(group.result().is_ok());

    assert!(task1.is_aborted());
    assert!(task2.is_aborted());
    // the request does not end the work by itself
    assert!(!task1.is_finished());
    assert!(task1.join().is_none());
}

#[test]
fn test_end() {
    let mut aborted = vec![false, false];
    let (steps, result) = drive(Group::end(2), &mut aborted, vec![Joined::Aborted, Joined::Failed(cancelled())]);
    assert!(result.is_ok());
    assert_eq!(
        steps,
        vec![
            GroupStep::Abort(0),
            GroupStep::Abort(1),
            GroupStep::Await(0),
            GroupStep::Await(1),
            GroupStep::Done
        ]
    );
    assert_eq!(aborted, vec![true, true]);
}

#[test]
fn test_mixed_task_types() {
    let mut task1: Task<i32> = task(TaskId(1));
    let mut task2: Task<&str> = task(TaskId(2));
    let mut task3: Task<bool> = task(TaskId(3));
    task1.finish(Joined::Output(1));
    task2.finish(Joined::Output("hello"));
    task3.finish(Joined::Output(true));

    let mut group = Group::await_allow_abort(3);
    assert_eq!(group.next(), GroupStep::Await(0));
    group.report(task1.await_allow_abort().unwrap());
    assert_eq!(group.next(), GroupStep::Await(1));
    group.report(task2.await_allow_abort().unwrap());
    assert_eq!(group.next(), GroupStep::Await(2));
    group.report(task3.await_allow_abort().unwrap());
    assert_eq!(group.next(), GroupStep::Done);
    let result = group.result();
    assert!(result.is_ok());
}

#[test]
fn end_stops_awaiting_at_the_first_failure() {
    let mut aborted = vec![false, false, false];
    let (steps, result) = drive(
        Group::end(3),
        &mut aborted,
        vec![Joined::Output(1), Joined::Failed(panicked()), Joined::Output(3)],
    );
    assert_eq!(
        steps,
        vec![
            GroupStep::Abort(0),
            GroupStep::Abort(1),
            GroupStep::Abort(2),
            GroupStep::Await(0),
            GroupStep::Await(1),
            GroupStep::Done
        ]
    );
    assert_eq!(aborted, vec![true, true, true]);
    match result {
        Err(e @ TaskError::Join(_)) => assert_eq!(e.message(), "join error: task 1 panicked"),
        other => panic!("{other:?}"),
    }
}

#[test]
fn group_edges() {
    let mut none = Group::end(0);
    assert_eq!(none.next(), GroupStep::Done);
    assert!(none.result().is_ok());

    // asking again before the report gives the same await; a report that was
    // not asked for counts for nothing
    let mut group = Group::end(1);
    group.report(Err(TaskError::Aborted(Aborted)));
    assert_eq!(group.next(), GroupStep::Abort(0));
    assert_eq!(group.next(), GroupStep::Await(0));
    assert_eq!(group.next(), GroupStep::Await(0));
    group.report(Ok(()));
    assert_eq!(group.next(), GroupStep::Done);
    group.report(Err(TaskError::Aborted(Aborted)));
    assert!(group.result().is_ok());
}

#[test]
fn what_awaiting_gives() {
    let mut done: Task<u8> = Task::started(TaskId(7));
    assert_eq!(done.task_id(), TaskId(7));
    assert!(!done.is_aborted());
    done.finish(Joined::Output(5));
    assert!(done.is_finished());
    // only the first report counts, and a late request to stop changes nothing
    done.finish(Joined::Aborted);
    done.abort();
    assert!(done.is_aborted());
    assert!(matches!(done.join(), Some(Ok(5))));

    let mut stopped: Task<u8> = task(TaskId(8));
    stopped.finish(Joined::Aborted);
    assert!(matches!(stopped.join(), Some(Err(TaskError::Aborted(Aborted)))));

    let mut stopped: Task<u8> = task(TaskId(8));
    stopped.finish(Joined::Aborted);
    assert!(matches!(stopped.maybe(), Some(Ok(Maybe::Aborted(Aborted)))));

    let mut failed: Task<u8> = task(TaskId(9));
    failed.finish(Joined::Failed(panicked()));
    assert!(matches!(failed.maybe(), Some(Err(TaskError::Join(_)))));

    let running: Task<u8> = task(TaskId(10));
    assert!(running.maybe().is_none());
    let running: Task<u8> = task(TaskId(10));
    assert!(running.await_allow_abort().is_none());
}

#[test]
fn cancellation_counts_as_success() {
    assert!(matches!(maybe_result(Ok(3)), Ok(Maybe::Value(3))));
    assert!(matches!(maybe_result::<u8>(Err(TaskError::Aborted(Aborted))), Ok(Maybe::Aborted(_))));
    assert!(matches!(
        maybe_result::<u8>(Err(TaskError::MultipleErrors(vec![]))),
        Err(TaskError::MultipleErrors(_))
    ));

    assert!(allow_abort(Ok(3)).is_ok());
    assert!(allow_abort::<u8>(Err(TaskError::Aborted(Aborted))).is_ok());
    assert!(cancelled().is_cancelled());
    assert!(allow_abort::<u8>(Err(TaskError::Join(cancelled()))).is_ok());
    assert!(matches!(allow_abort::<u8>(Err(TaskError::Join(panicked()))), Err(TaskError::Join(_))));
    match allow_abort::<u8>(Err(TaskError::MultipleErrors(vec![TaskError::Aborted(Aborted)]))) {
        Err(e @ TaskError::MultipleErrors(_)) => {
            assert_eq!(e.message(), "multiple errors encountered across tasks");
        }
        other => panic!("{other:?}"),
    }
    assert_eq!(
        TaskError::Aborted(Aborted).message(),
        "task aborted: `Abortable` future has been aborted"
    );
}
