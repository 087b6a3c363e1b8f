//! The task executor's observable behaviour: counters, progress
//! snapshots, and the finality of shutdown.

use pixiv_crawler::TaskMng;

#[test]
fn taskmng_test() {
    let mut taskmng = TaskMng::new();
    taskmng.spawn_task().unwrap();
    taskmng.task_finished(true);
    assert_eq!(taskmng.process(), "1/1");
    taskmng.spawn_task().unwrap();
    taskmng.task_finished(true);
    assert_eq!(taskmng.process(), "2/2");
}

#[test]
fn shut_down_test() {
    let mut taskmng = TaskMng::new();
    taskmng.shutdown();
    assert!(taskmng.spawn_task().is_err());
}

#[test]
fn fresh_executor_reports_zero() {
    let taskmng = TaskMng::new();
    assert_eq!(taskmng.process(), "0/0");
}

#[test]
fn submissions_counted_exactly_once() {
    let mut taskmng = TaskMng::new();
    for _ in 0..25 {
        taskmng.spawn_task().unwrap();
    }
    assert_eq!(taskmng.process(), "0/25");
}

#[test]
fn completions_trail_submissions() {
    let mut taskmng = TaskMng::new();
    taskmng.spawn_task().unwrap();
    taskmng.spawn_task().unwrap();
    taskmng.spawn_task().unwrap();
    assert_eq!(taskmng.process(), "0/3");
    taskmng.task_finished(true);
    assert_eq!(taskmng.process(), "1/3");
    taskmng.task_finished(false);
    assert_eq!(taskmng.process(), "1/3");
    taskmng.task_finished(true);
    assert_eq!(taskmng.process(), "2/3");
}

#[test]
fn shutdown_keeps_counters_and_stays_closed() {
    let mut taskmng = TaskMng::new();
    taskmng.spawn_task().unwrap();
    taskmng.task_finished(true);
    taskmng.shutdown();
    assert_eq!(taskmng.process(), "1/1");
    assert!(taskmng.spawn_task().is_err());
    assert!(taskmng.spawn_task().is_err());
    assert_eq!(taskmng.process(), "1/1");
}

#[test]
fn completion_after_shutdown_is_not_counted() {
    let mut taskmng = TaskMng::new();
    taskmng.spawn_task().unwrap();
    taskmng.spawn_task().unwrap();
    taskmng.task_finished(true);
    taskmng.shutdown();
    taskmng.task_finished(true);
    assert_eq!(taskmng.process(), "1/2");
}
