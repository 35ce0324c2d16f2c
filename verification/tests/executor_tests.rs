use p0nd_os::task::executor::Executor;
use p0nd_os::task::simple_executor::SimpleExecutor;
use p0nd_os::task::task::Task;
use p0nd_os::task::task::TaskPoll;

#[test]
fn simple_executor_hands_tasks_out_in_spawn_order() {
    let mut executor = SimpleExecutor::new();
    executor.spawn(Task::new(10));
    executor.spawn(Task::new(11));
    executor.spawn(Task::new(12));
    assert_eq!(executor.take_next().unwrap().id(), 10);
    assert_eq!(executor.take_next().unwrap().id(), 11);
    assert_eq!(executor.take_next().unwrap().id(), 12);
    assert!(executor.take_next().is_none());
}

/// A stand-in for the runtime glue's computations: task 1 completes
/// on its `budget`-th poll, task 2 always suspends.
struct Countdown {
    id: u64,
    budget: u64,
}

impl Countdown {
    fn poll(&mut self) -> TaskPoll {
        if self.budget == 0 {
            panic!("a completed task was polled again");
        }
        self.budget -= 1;
        if self.budget == 0 { TaskPoll::Ready } else { TaskPoll::Pending }
    }
}

#[test]
fn finite_task_completes_within_its_poll_budget() {
    // Two tasks: one completes after three polls, one never
    // completes but always yields.  The first is observed ready
    // within three executor passes; the second never blocks it.
    let polls_needed: u64 = 3;
    let mut computations =
        vec![Countdown { id: 1, budget: polls_needed }, Countdown { id: 2, budget: u64::MAX }];
    let mut executor = Executor::new();
    executor.spawn(Task::new(1));
    executor.spawn(Task::new(2));

    let mut passes_until_ready: u64 = 0;
    let mut finite_task_done = false;
    for pass in 1..=(2 * polls_needed + 2) {
        let Some(id) = executor.take_next() else { break };
        let computation = computations.iter_mut().find(|c| c.id == id).unwrap();
        let outcome = computation.poll();
        executor.report_poll(id, outcome);
        match outcome {
            TaskPoll::Ready => {
                if id == 1 {
                    finite_task_done = true;
                    passes_until_ready = pass;
                    break;
                }
            },
            TaskPoll::Pending => {
                // The glue's waker fires: the pending task may run
                // again next pass.
                executor.wake_task(id);
            },
        }
    }
    assert!(finite_task_done);
    // Task 2 is polled at most once between task 1's polls, so task 1
    // finishes by pass 2 * N - 1.
    assert!(passes_until_ready <= 2 * polls_needed - 1);
}

#[test]
fn waking_a_completed_task_is_a_no_op() {
    let mut executor = Executor::new();
    executor.spawn(Task::new(7));
    let id = executor.take_next().unwrap();
    assert_eq!(id, 7);
    executor.report_poll(id, TaskPoll::Ready);
    // The task is gone for good; a stale waker must do nothing.
    executor.wake_task(7);
    assert!(executor.take_next().is_none());
    assert!(executor.should_sleep());
}

#[test]
fn wake_signals_coalesce() {
    let mut executor = Executor::new();
    executor.spawn(Task::new(3));
    let id = executor.take_next().unwrap();
    executor.report_poll(id, TaskPoll::Pending);
    // Several wakes before the re-poll queue the task once.
    executor.wake_task(3);
    executor.wake_task(3);
    executor.wake_task(3);
    assert_eq!(executor.take_next(), Some(3));
    assert!(executor.take_next().is_none());
}

#[test]
fn pending_task_waits_for_its_waker() {
    let mut executor = Executor::new();
    executor.spawn(Task::new(5));
    let id = executor.take_next().unwrap();
    executor.report_poll(id, TaskPoll::Pending);
    // Not woken yet: nothing is ready, the processor may idle.
    assert!(executor.should_sleep());
    assert!(executor.take_next().is_none());
    executor.wake_task(5);
    assert!(!executor.should_sleep());
    assert_eq!(executor.take_next(), Some(5));
}

#[test]
fn waking_an_unknown_task_is_a_no_op() {
    let mut executor = Executor::new();
    executor.wake_task(99);
    assert!(executor.take_next().is_none());
    assert!(executor.should_sleep());
}
