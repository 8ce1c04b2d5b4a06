use voxel_march::graphics::context::BufferId;
use voxel_march::graphics::handler::{Lookup, Ready, ResourceHandler, ResourceStatus, Task, TaskType};

fn ready(rsc: u32) -> Result<u32, String> {
    Ok(rsc)
}

#[test]
fn request_complete_and_get() {
    let mut handler: ResourceHandler<BufferId, u32> = ResourceHandler::new();
    let id = BufferId("a");
    assert!(handler.request_new(&id, None, 0));
    assert!(!handler.request_new(&id, None, 1));
    assert!(handler.is_pending(&id));
    assert_eq!(handler.get(&id, 2), None);
    handler.complete(id, ready(7), 3);
    assert!(handler.is_ready(&id));
    assert_eq!(handler.get(&id, 4), Some(&7));
    assert_eq!(handler.status_of(&id).unwrap().value().unwrap().accessed, 4);
    assert_eq!(handler.remove(&id), Some(7));
    assert!(!handler.contains(&id));
}

#[test]
fn failed_resources_keep_their_message_and_retry() {
    let mut handler: ResourceHandler<BufferId, u32> = ResourceHandler::new();
    let id = BufferId("a");
    handler.request_new(&id, None, 0);
    handler.complete(id, Err("no device".to_string()), 10);
    assert!(handler.is_failed(&id));
    assert_eq!(handler.get_err(&id), Some("no device"));
    assert!(handler.request_retry(&id, None, 11));
    assert!(handler.is_pending(&id));
    assert!(!handler.request_retry(&id, None, 12));
}

#[test]
fn stalled_workers_fail_then_expire() {
    let mut handler: ResourceHandler<BufferId, u32> = ResourceHandler::new();
    let id = BufferId("slow");
    handler.request_new(&id, None, 0);
    assert!(handler.sync(5000).is_empty());
    let stalled = handler.sync(5001);
    assert_eq!(stalled, vec![BufferId("slow")]);
    assert!(handler.is_failed(&id));
    assert_eq!(handler.get_err(&id), Some("Worker thread lost or stalled execution."));
    assert!(handler.sync(8001).is_empty());
    assert!(handler.contains(&id));
    handler.sync(8002);
    assert!(!handler.contains(&id));
}

#[test]
fn sync_twice_at_the_same_time_settles() {
    let mut handler: ResourceHandler<BufferId, u32> = ResourceHandler::new();
    handler.request_new(&BufferId("a"), None, 0);
    handler.request_new(&BufferId("b"), None, 4000);
    handler.store(&BufferId("c"), Some(1), 3, 0);
    let first = handler.sync(6000);
    assert_eq!(first, vec![BufferId("a")]);
    let second = handler.sync(6000);
    assert!(second.is_empty());
    assert!(handler.is_failed(&BufferId("a")));
    assert!(handler.is_pending(&BufferId("b")));
    assert!(!handler.contains(&BufferId("c")));
}

#[test]
fn held_resources_expire_unless_accessed() {
    let mut handler: ResourceHandler<BufferId, u32> = ResourceHandler::new();
    let id = BufferId("held");
    handler.store(&id, Some(2), 9, 0);
    handler.sync(1500);
    handler.mark_accessed(&id, 1500);
    handler.sync(3400);
    assert!(handler.is_ready(&id));
    handler.sync(3501);
    assert!(!handler.contains(&id));
}

#[test]
fn timeouts_can_be_changed() {
    let mut handler: ResourceHandler<BufferId, u32> = ResourceHandler::new();
    handler.set_thread_tmt(1);
    handler.set_failed_tmt(0);
    handler.request_new(&BufferId("a"), None, 0);
    assert_eq!(handler.sync(1001), vec![BufferId("a")]);
    handler.sync(1002);
    assert!(!handler.contains(&BufferId("a")));
}

#[test]
fn get_or_request_starts_once() {
    let mut handler: ResourceHandler<BufferId, u32> = ResourceHandler::new();
    let id = BufferId("a");
    assert!(matches!(handler.get_or_request(&id, None, 0), Lookup::Requested));
    assert!(matches!(handler.get_or_request(&id, None, 1), Lookup::Waiting));
    handler.complete(id, ready(5), 2);
    assert!(matches!(handler.get_or_request(&id, None, 3), Lookup::Found(&5)));
}

#[test]
fn statuses_answer_their_questions() {
    let pending: ResourceStatus<u32> = ResourceStatus::Pending(voxel_march::graphics::handler::Pending { requested_at: 4, hold_time: None });
    assert!(pending.is_pending());
    assert_eq!(pending.requested_at(), Some(4));
    assert!(pending.take().is_none());
    let done: ResourceStatus<u32> = ResourceStatus::Ready(Ready { rsc: 3, hold_time: None, accessed: 0 });
    assert!(done.is_ready());
    assert_eq!(done.take(), Some(3));
}

#[test]
fn tasks_carry_their_kind_and_hold_time() {
    let task: Task<u8, u32> = Task::non_blocking(1u8);
    assert!(matches!(task.ty, TaskType::NonBlocking));
    assert_eq!(task.hold_time, None);
    let task = Task::<u8, u32>::blocking(2u8).with_hold_time(30);
    assert!(matches!(task.ty, TaskType::Blocking));
    assert_eq!(task.hold_time, Some(30));
    assert_eq!(task.fut, 2);
}

#[test]
fn request_wait_stores_what_the_work_creates() {
    let mut handler: ResourceHandler<BufferId, u32> = ResourceHandler::new();
    let id = BufferId("w");
    let task = Task::blocking(|| Ok::<u32, String>(5)).with_hold_time(2);
    assert_eq!(handler.request_wait(&id, task, 10), Ok(Some(&5)));
    let ready = handler.status_of(&id).unwrap().value().unwrap();
    assert_eq!(ready.accessed, 10);
    assert_eq!(ready.hold_time, Some(2));
    let never_run = Task::blocking(|| -> Result<u32, String> { panic!("the key is known") });
    assert_eq!(handler.request_wait(&id, never_run, 11), Ok(Some(&5)));
    assert_eq!(handler.status_of(&id).unwrap().value().unwrap().accessed, 11);
}

#[test]
fn request_wait_hands_back_the_error_and_stores_nothing() {
    let mut handler: ResourceHandler<BufferId, u32> = ResourceHandler::new();
    let id = BufferId("w");
    let task = Task::non_blocking(|| Err::<u32, String>("no adapter".to_string()));
    assert_eq!(handler.request_wait(&id, task, 1), Err("no adapter".to_string()));
    assert!(!handler.contains(&id));
    handler.request_new(&id, None, 2);
    let never_run = Task::blocking(|| -> Result<u32, String> { panic!("the key is pending") });
    assert_eq!(handler.request_wait(&id, never_run, 3), Ok(None));
    assert!(handler.is_pending(&id));
}

#[test]
fn status_report_describes_each_resource() {
    let mut handler: ResourceHandler<BufferId, u32> = ResourceHandler::new();
    handler.request_new(&BufferId("p"), None, 1000);
    handler.request_new(&BufferId("f"), None, 1000);
    handler.complete(BufferId("f"), Err("no device".to_string()), 1200);
    handler.store(&BufferId("r"), None, 3, 2000);
    let report = handler.status_of_all(2500);
    assert_eq!(report.len(), 3);
    let line = |name: &str| report.iter().find(|(k, _)| k.0 == name).unwrap().1.clone();
    assert_eq!(line("p"), "[PENDING] Time since requested: 1.5ss.");
    assert_eq!(line("f"), "[FAILED] Error Message: no device");
    assert_eq!(line("r"), "[READY] Time since last accessed: 500mss");
}

#[test]
fn a_ready_status_is_changed_through_its_mutable_value() {
    let mut status: ResourceStatus<u32> = ResourceStatus::Ready(Ready { rsc: 1, hold_time: None, accessed: 0 });
    status.value_mut().unwrap().rsc = 9;
    assert_eq!(status.value().unwrap().rsc, 9);
    let mut pending: ResourceStatus<u32> = ResourceStatus::Pending(voxel_march::graphics::handler::Pending { requested_at: 0, hold_time: None });
    assert!(pending.value_mut().is_none());
}

#[test]
fn created_resource_keeps_the_hold_time_of_its_request() {
    let mut handler: ResourceHandler<BufferId, u32> = ResourceHandler::new();
    let held = BufferId("held");
    let plain = BufferId("plain");
    assert!(handler.request_new(&held, Some(30), 0));
    assert!(handler.request_new(&plain, None, 0));
    handler.complete(held, Ok(9), 250);
    handler.complete(plain, Ok(4), 260);
    let ready = handler.status_of(&held).unwrap().value().unwrap();
    assert_eq!((ready.rsc, ready.hold_time, ready.accessed), (9, Some(30), 250));
    assert_eq!(handler.status_of(&plain).unwrap().value().unwrap().hold_time, None);
    // a result for a key that is no longer pending is kept without a hold time
    let late = BufferId("late");
    handler.complete(late, Ok(1), 300);
    assert_eq!(handler.status_of(&late).unwrap().value().unwrap().hold_time, None);
}
