use tauri_plugin_android_player::sleep::{wait_time, SharedTaskState, SleepSchedule, WorkerStep};

#[test]
fn first_sleep_starts_the_worker() {
    let mut s: SleepSchedule<u32> = SleepSchedule::new();
    assert!(s.push(100, 1));
    assert!(!s.push(50, 2));
}

#[test]
fn worker_round_wakes_due_sleeps_in_order() {
    let mut s: SleepSchedule<u32> = SleepSchedule::new();
    s.push(300, 1);
    s.push(100, 2);
    s.push(200, 3);
    s.push(100, 4);
    let (due, step) = s.worker_round(150);
    let ids: Vec<u32> = due.iter().map(|t| t.task).collect();
    assert_eq!(ids, vec![2, 4]);
    assert_eq!(step, WorkerStep::WaitUntil(200));
    let (due, step) = s.worker_round(200);
    assert_eq!(due.len(), 1);
    assert_eq!(due[0].task, 3);
    assert_eq!(step, WorkerStep::WaitUntil(300));
    let (due, step) = s.worker_round(1000);
    assert_eq!(due[0].task, 1);
    assert_eq!(step, WorkerStep::Exit);
    // With the worker gone, the next sleep starts a new one.
    assert!(s.push(2000, 5));
}

#[test]
fn wait_time_values() {
    assert_eq!(wait_time(100, 40), Some(60));
    assert_eq!(wait_time(100, 100), None);
    assert_eq!(wait_time(100, 140), None);
}

#[test]
fn poll_after_complete_is_ready() {
    let mut st: SharedTaskState<&str> = SharedTaskState::new();
    assert!(!st.poll("w1"));
    assert!(!st.poll("w2"));
    assert_eq!(st.complete(), Some("w2"));
    assert!(st.poll("w3"));
    assert_eq!(st.complete(), None);
}
