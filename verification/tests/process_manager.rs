use icepick::process_manager::instructions::execute_single_instr::{ExecuteSingleInstruction, HijackOnceInstruction};
use icepick::process_manager::instructions::join_all_instr::JoinAllInstruction;
use icepick::process_manager::instructions::race_instr::RaceInstruction;
use icepick::process_manager::instructions::stream_instr::StreamInstruction;
use icepick::process_manager::manager::{results_in_send_order, Manager, Status, Task, WorkerAction};

#[test]
fn status_queries() {
    assert!(Status::Idle.is_idle());
    assert!(!Status::Idle.is_processing());
    assert!(Status::Processing.is_processing());
    assert!(!Status::Processing.is_idle());
}

#[test]
fn manager_resume_takes_oldest_items() {
    let mut manager: Manager<u32> = Manager::new();
    assert!(manager.process_status().is_idle());
    manager.push(1);
    manager.push_many(vec![2, 3, 4]);
    assert_eq!(manager.len(), 4);
    assert_eq!(manager.resume(2), (Task::Resume(2), 2));
    assert_eq!(manager.resume(10), (Task::Resume(10), 4));
    assert_eq!(manager.resume_all(), (Task::Resume(4), 4));
    match manager.handle_task(Task::Resume(3)) {
        WorkerAction::Process(batch) => assert_eq!(batch, vec![1, 2, 3]),
        _ => panic!("expected a batch"),
    }
    assert!(manager.process_status().is_processing());
    assert_eq!(manager.len(), 1);
    match manager.handle_task(Task::Resume(5)) {
        WorkerAction::Process(batch) => assert_eq!(batch, vec![4]),
        _ => panic!("expected a batch"),
    }
    assert_eq!(manager.len(), 0);
}

#[test]
fn manager_polite_kill_drains_and_force_kill_stops() {
    let mut manager: Manager<&str> = Manager::new();
    manager.push_many(vec!["a", "b"]);
    assert!(matches!(manager.handle_task(Task::ForceKill), WorkerAction::Stop));
    assert_eq!(manager.len(), 2);
    match manager.handle_task(Task::PoliteKill) {
        WorkerAction::Process(batch) => assert_eq!(batch, vec!["a", "b"]),
        _ => panic!("expected a batch"),
    }
    assert_eq!(manager.len(), 0);
    assert!(matches!(manager.handle_closed_channel(), WorkerAction::Wait));
    assert!(manager.process_status().is_processing());
}

#[test]
fn results_are_sent_in_push_order() {
    assert_eq!(results_in_send_order(vec![1, 2, 3]), vec![1, 2, 3]);
    assert_eq!(results_in_send_order(Vec::<u8>::new()), Vec::<u8>::new());
}

#[test]
fn manager_constants() {
    assert_eq!(Manager::<u8>::STANDARD_BUFFER, 100);
    assert_eq!(Manager::<u8>::STANDARD_POLL_DELAY_MS, 400);
}

#[test]
fn join_all_instruction_keeps_order() {
    let mut instruction: JoinAllInstruction<String, usize> = JoinAllInstruction::new();
    instruction.push("names".to_string());
    instruction.push_many(vec!["aaaaa".to_string(), "bbbbbbb".to_string(), "ccc".to_string()]);
    assert_eq!(instruction.into_batch(), vec!["names", "aaaaa", "bbbbbbb", "ccc"]);
}

#[test]
fn stream_instruction_keeps_order() {
    let mut instruction = StreamInstruction::new();
    instruction.push_many(vec![1u8, 2]);
    instruction.push(3);
    assert_eq!(instruction.into_batch(), vec![1, 2, 3]);
}

#[test]
fn race_instruction_without_input_has_no_contenders() {
    let empty: RaceInstruction<u8> = RaceInstruction::new();
    assert!(empty.into_contenders().is_none());
    let mut race = RaceInstruction::new();
    race.push_many(vec!["one", "two"]);
    race.push("three");
    assert_eq!(race.into_contenders(), Some(vec!["one", "two", "three"]));
}

#[test]
fn single_instructions_carry_their_parts() {
    let single = ExecuteSingleInstruction::new(("sql".to_string(), 3u8));
    assert_eq!(single.into_input(), ("sql".to_string(), 3u8));
    let hijack = HijackOnceInstruction::new(5u32, |x: u32| x + 1);
    let (value, function) = hijack.into_parts();
    assert_eq!(function(value), 6);
}

#[test]
fn pushed_items_are_processed_in_push_order() {
    let mut manager: Manager<u32> = Manager::new();
    let mut processed: Vec<u32> = Vec::new();
    manager.push_many(vec![1, 2]);
    if let WorkerAction::Process(batch) = manager.handle_task(Task::Resume(1)) {
        processed.extend(results_in_send_order(batch));
    }
    manager.push(3);
    if let WorkerAction::Process(batch) = manager.handle_task(Task::Resume(5)) {
        processed.extend(results_in_send_order(batch));
    }
    manager.push(4);
    assert_eq!(processed, vec![1, 2, 3]);
    assert_eq!(manager.len(), 1);
}
