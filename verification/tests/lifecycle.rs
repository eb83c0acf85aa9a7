use todo_list::address::Address;
use todo_list::error::ErrorCode;
use todo_list::task::{
    adding_task, deleting_task, toggle_completion_status, updating_task, Task,
};

fn alice() -> Address {
    Address::new([0xA1; 32])
}

fn bob() -> Address {
    Address::new([0xB0; 32])
}

fn record_id() -> Address {
    let mut bytes = [0u8; 32];
    bytes[0] = 7;
    bytes[31] = 9;
    Address::new(bytes)
}

fn new_task(text: &str, now: i64) -> Task {
    adding_task(alice(), record_id(), text.to_string(), now).expect("text within the limit")
}

fn snapshot(task: &Task) -> ([u8; 32], [u8; 32], bool, String, i64, i64) {
    (
        task.id.to_bytes(),
        task.author.to_bytes(),
        task.is_done,
        task.text.clone(),
        task.created_at,
        task.updated_at,
    )
}

#[test]
fn create_gives_an_open_task_with_the_text_as_given() {
    let task = new_task("buy milk", 1_700_000_000);
    assert_eq!(task.id.to_bytes(), record_id().to_bytes());
    assert_eq!(task.author.to_bytes(), [0xA1; 32]);
    assert!(!task.is_done);
    assert_eq!(task.text, "buy milk");
    assert_eq!(task.created_at, 1_700_000_000);
    assert_eq!(task.updated_at, 1_700_000_000);
}

#[test]
fn create_accepts_the_empty_text() {
    let task = new_task("", 5);
    assert_eq!(task.text, "");
    assert!(!task.is_done);
    assert_eq!((task.created_at, task.updated_at), (5, 5));
}

#[test]
fn create_accepts_exactly_400_scalar_values() {
    let text = "x".repeat(400);
    let task = adding_task(alice(), record_id(), text.clone(), 1).unwrap();
    assert_eq!(task.text, text);
}

#[test]
fn create_refuses_401_scalar_values() {
    let text = "x".repeat(401);
    let res = adding_task(alice(), record_id(), text, 1);
    assert_eq!(res.err(), Some(ErrorCode::TextTooLong));
}

#[test]
fn create_counts_scalar_values_not_bytes() {
    // 400 scalar values of four bytes each: 1600 bytes, still within the limit.
    let wide = "\u{1F600}".repeat(400);
    assert_eq!(wide.len(), 1600);
    let task = adding_task(alice(), record_id(), wide.clone(), 1).unwrap();
    assert_eq!(task.text, wide);

    // One more scalar value is one too many, whatever its width.
    let mut longer = "\u{1F600}".repeat(400);
    longer.push('a');
    assert_eq!(
        adding_task(alice(), record_id(), longer, 1).err(),
        Some(ErrorCode::TextTooLong)
    );

    // A text of 401 bytes but 400 scalar values is accepted.
    let mut mixed = "y".repeat(399);
    mixed.push('\u{E9}');
    assert_eq!(mixed.len(), 401);
    assert!(adding_task(alice(), record_id(), mixed, 1).is_ok());
}

#[test]
fn create_counts_a_combining_mark_as_a_scalar_value_of_its_own() {
    // 200 pairs of a letter and a combining accent: 400 scalar values.
    let pairs = "e\u{301}".repeat(200);
    assert!(adding_task(alice(), record_id(), pairs, 1).is_ok());
    let more = "e\u{301}".repeat(201);
    assert_eq!(
        adding_task(alice(), record_id(), more, 1).err(),
        Some(ErrorCode::TextTooLong)
    );
}

#[test]
fn create_takes_any_time_as_given() {
    let task = new_task("early", i64::MIN);
    assert_eq!((task.created_at, task.updated_at), (i64::MIN, i64::MIN));
    let task = new_task("late", i64::MAX);
    assert_eq!((task.created_at, task.updated_at), (i64::MAX, i64::MAX));
}

#[test]
fn author_sets_the_flag() {
    let mut task = new_task("water plants", 100);
    assert_eq!(updating_task(&alice(), &mut task, true, 101), Ok(()));
    assert!(task.is_done);
    assert_eq!(task.updated_at, 101);
    assert_eq!(task.created_at, 100);
}

#[test]
fn setting_the_flag_it_already_has_still_stamps_the_task() {
    let mut task = new_task("water plants", 100);
    assert_eq!(updating_task(&alice(), &mut task, false, 150), Ok(()));
    assert!(!task.is_done);
    assert_eq!(task.updated_at, 150);
}

#[test]
fn set_then_clear_leaves_the_flag_cleared() {
    let mut task = new_task("water plants", 100);
    assert_eq!(updating_task(&alice(), &mut task, true, 101), Ok(()));
    let after_first = task.updated_at;
    assert!(after_first > 100);
    assert_eq!(updating_task(&alice(), &mut task, false, 102), Ok(()));
    assert!(!task.is_done);
    assert!(task.updated_at > after_first);
    assert_eq!(task.updated_at, 102);
}

#[test]
fn toggle_twice_brings_the_flag_back() {
    let mut task = new_task("call home", 10);
    assert_eq!(toggle_completion_status(&alice(), &mut task, 11), Ok(()));
    assert!(task.is_done);
    assert_eq!(task.updated_at, 11);
    assert_eq!(toggle_completion_status(&alice(), &mut task, 12), Ok(()));
    assert!(!task.is_done);
    assert_eq!(task.updated_at, 12);
    assert_eq!(task.created_at, 10);
    assert_eq!(task.text, "call home");
}

#[test]
fn delete_twice_keeps_the_flag_on_and_stamps_each_time() {
    let mut task = new_task("old chore", 20);
    assert_eq!(deleting_task(&alice(), &mut task, 21), Ok(()));
    assert!(task.is_done);
    assert_eq!(task.updated_at, 21);
    assert_eq!(deleting_task(&alice(), &mut task, 22), Ok(()));
    assert!(task.is_done);
    assert_eq!(task.updated_at, 22);
}

#[test]
fn a_deleted_task_stays_readable_and_can_be_reopened() {
    let mut task = new_task("old chore", 20);
    assert_eq!(deleting_task(&alice(), &mut task, 21), Ok(()));
    assert_eq!(task.text, "old chore");
    assert_eq!(task.id.to_bytes(), record_id().to_bytes());
    assert_eq!(updating_task(&alice(), &mut task, false, 22), Ok(()));
    assert!(!task.is_done);
}

#[test]
fn delete_is_the_same_as_setting_the_flag() {
    let mut deleted = new_task("same", 1);
    let mut set = new_task("same", 1);
    assert_eq!(deleting_task(&alice(), &mut deleted, 2), Ok(()));
    assert_eq!(updating_task(&alice(), &mut set, true, 2), Ok(()));
    assert_eq!(snapshot(&deleted), snapshot(&set));
}

#[test]
fn a_stranger_cannot_set_the_flag() {
    let mut task = new_task("mine", 30);
    let before = snapshot(&task);
    assert_eq!(
        updating_task(&bob(), &mut task, true, 31),
        Err(ErrorCode::Unauthorized)
    );
    assert_eq!(snapshot(&task), before);
    assert_eq!(
        updating_task(&bob(), &mut task, false, 32),
        Err(ErrorCode::Unauthorized)
    );
    assert_eq!(snapshot(&task), before);
}

#[test]
fn a_stranger_cannot_toggle() {
    let mut task = new_task("mine", 30);
    let before = snapshot(&task);
    assert_eq!(
        toggle_completion_status(&bob(), &mut task, 31),
        Err(ErrorCode::Unauthorized)
    );
    assert_eq!(snapshot(&task), before);
}

#[test]
fn a_stranger_cannot_delete() {
    let mut task = new_task("mine", 30);
    let before = snapshot(&task);
    assert_eq!(
        deleting_task(&bob(), &mut task, 31),
        Err(ErrorCode::Unauthorized)
    );
    assert_eq!(snapshot(&task), before);
}

#[test]
fn an_address_that_differs_in_one_byte_is_a_stranger() {
    let mut task = new_task("mine", 30);
    let before = snapshot(&task);
    for at in [0usize, 15, 31] {
        let mut bytes = [0xA1u8; 32];
        bytes[at] ^= 1;
        let near = Address::new(bytes);
        assert_eq!(
            toggle_completion_status(&near, &mut task, 31),
            Err(ErrorCode::Unauthorized)
        );
        assert_eq!(snapshot(&task), before);
    }
}

#[test]
fn the_record_id_gives_no_right_to_change_the_task() {
    let mut task = new_task("mine", 30);
    let before = snapshot(&task);
    assert_eq!(
        deleting_task(&record_id(), &mut task, 31),
        Err(ErrorCode::Unauthorized)
    );
    assert_eq!(snapshot(&task), before);
}

#[test]
fn changes_keep_id_author_text_and_creation_time() {
    let mut task = new_task("keep me", 40);
    updating_task(&alice(), &mut task, true, 41).unwrap();
    toggle_completion_status(&alice(), &mut task, 42).unwrap();
    deleting_task(&alice(), &mut task, 43).unwrap();
    assert_eq!(task.id.to_bytes(), record_id().to_bytes());
    assert_eq!(task.author.to_bytes(), alice().to_bytes());
    assert_eq!(task.text, "keep me");
    assert_eq!(task.created_at, 40);
    assert_eq!(task.updated_at, 43);
    assert!(task.is_done);
}

#[test]
fn a_change_is_stamped_with_the_time_it_was_handed() {
    let mut task = new_task("same second", 50);
    toggle_completion_status(&alice(), &mut task, 50).unwrap();
    assert_eq!(task.updated_at, 50);
    assert!(task.updated_at >= task.created_at);
}

#[test]
fn guard_tells_the_author_from_anyone_else() {
    let task = new_task("guarded", 1);
    assert!(task.is_authored_by(&alice()));
    assert!(!task.is_authored_by(&bob()));
    assert!(!task.is_authored_by(&record_id()));
}

#[test]
fn buy_milk_scenario() {
    let a = alice();
    let b = bob();
    let mut task = adding_task(a, record_id(), String::from("buy milk"), 1000).unwrap();
    assert_eq!(task.author.to_bytes(), a.to_bytes());
    assert!(!task.is_done);
    assert_eq!(task.text, "buy milk");

    assert_eq!(toggle_completion_status(&a, &mut task, 1001), Ok(()));
    assert!(task.is_done);

    assert_eq!(
        toggle_completion_status(&b, &mut task, 1002),
        Err(ErrorCode::Unauthorized)
    );
    assert!(task.is_done);
    assert_eq!(task.updated_at, 1001);

    assert_eq!(deleting_task(&a, &mut task, 1003), Ok(()));
    assert!(task.is_done);
    assert_eq!(task.updated_at, 1003);
    assert!(task.updated_at > 1001);
}
