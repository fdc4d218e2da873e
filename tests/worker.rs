use shuttle_core::ambulance::{Ambulance, Tick, WORKER_QUEUE_SIZE};
use shuttle_core::proxy::ProjectState;
use shuttle_core::worker::{apply_step, StepOutcome, Task, TaskKind, WorkerQueue};

fn task(project: &str, kind: TaskKind) -> Task {
    Task { project: project.to_string(), kind }
}

#[test]
fn queue_is_first_in_first_out() {
    let mut q = WorkerQueue::new();
    assert_eq!(q.capacity(), WORKER_QUEUE_SIZE);
    q.send(task("a", TaskKind::Start)).unwrap();
    q.send(task("b", TaskKind::Refresh)).unwrap();
    q.send(task("a", TaskKind::Stop)).unwrap();
    assert_eq!(q.len(), 3);
    assert_eq!(q.capacity(), WORKER_QUEUE_SIZE - 3);
    assert_eq!(q.next(), Some(task("a", TaskKind::Start)));
    assert_eq!(q.next(), Some(task("b", TaskKind::Refresh)));
    assert_eq!(q.next(), Some(task("a", TaskKind::Stop)));
    assert_eq!(q.next(), None);
}

#[test]
fn full_queue_refuses_and_ambulance_backs_off() {
    let mut q = WorkerQueue::new();
    for _ in 0..WORKER_QUEUE_SIZE {
        q.send(task("p", TaskKind::CheckHealth)).unwrap();
    }
    assert_eq!(q.capacity(), 0);
    let extra = task("late", TaskKind::Destroy);
    assert_eq!(q.send(extra.clone()), Err(extra));
    assert_eq!(q.len(), WORKER_QUEUE_SIZE);

    let mut a = Ambulance::new();
    a.tick(q.capacity());
    assert_eq!(a.tick(q.capacity()), Tick::Degraded);
}

#[test]
fn refused_step_changes_nothing() {
    assert_eq!(
        apply_step(ProjectState::Ready, StepOutcome::Refused),
        (ProjectState::Ready, false)
    );
    assert_eq!(
        apply_step(ProjectState::Started, StepOutcome::Next(ProjectState::Ready)),
        (ProjectState::Ready, true)
    );
}
