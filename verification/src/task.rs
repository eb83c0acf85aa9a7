//! The task record and the four operations on it.
//!
//! Each operation is one atomic step on one record: it either succeeds and
//! stamps the record with the time it was handed, or it is refused and leaves
//! the record exactly as it was. The time is read by the caller, once per
//! operation, from a source it trusts.

use vstd::prelude::*;
use vstd::string::*;
use crate::address::Address;
use crate::error::ErrorCode;

verus! {

/// Most Unicode scalar values that the text of a task may hold.
pub const MAX_TEXT_CHARS: usize = 400;

/// A task as stored.
#[derive(Clone, Debug)]
pub struct Task {
    /// Identifier of the record, assigned when it is created.
    pub id: Address,
    /// Who created the task; the only identity that may change it.
    pub author: Address,
    /// Completion flag. A soft-deleted task is one whose flag was forced on.
    pub is_done: bool,
    /// What is to be done.
    pub text: String,
    /// When the task was created, in seconds.
    pub created_at: i64,
    /// When the task was last created or changed, in seconds.
    pub updated_at: i64,
}

/// What a task is, mathematically.
pub ghost struct TaskView {
    pub id: Seq<u8>,
    pub author: Seq<u8>,
    pub is_done: bool,
    pub text: Seq<char>,
    pub created_at: int,
    pub updated_at: int,
}

impl View for Task {
    type V = TaskView;

    open spec fn view(&self) -> TaskView {
        TaskView {
            id: self.id@,
            author: self.author@,
            is_done: self.is_done,
            text: self.text@,
            created_at: self.created_at as int,
            updated_at: self.updated_at as int,
        }
    }
}

/// Whether a text is short enough for a task.
pub open spec fn text_fits(text: Seq<char>) -> bool {
    text.len() <= MAX_TEXT_CHARS
}

impl TaskView {
    /// What holds of every stored task: the text is within its bound, and the
    /// task was not changed before it was created.
    pub open spec fn wf(self) -> bool {
        &&& text_fits(self.text)
        &&& self.created_at <= self.updated_at
    }

    /// The task as it is after a change of its flag at `now`: nothing else
    /// moves.
    pub open spec fn stamped(self, is_done: bool, now: int) -> TaskView {
        TaskView { is_done, updated_at: now, ..self }
    }

    /// Creation: a text within the bound gives a fresh, open task; a longer
    /// one is refused.
    pub open spec fn create(actor: Seq<u8>, id: Seq<u8>, text: Seq<char>, now: int) -> Result<
        TaskView,
        ErrorCode,
    > {
        if text_fits(text) {
            Ok(
                TaskView {
                    id,
                    author: actor,
                    is_done: false,
                    text,
                    created_at: now,
                    updated_at: now,
                },
            )
        } else {
            Err(ErrorCode::TextTooLong)
        }
    }

    /// Setting the flag: the author gets the flag asked for, anyone else is
    /// refused.
    pub open spec fn set_status(self, actor: Seq<u8>, is_done: bool, now: int) -> Result<
        TaskView,
        ErrorCode,
    > {
        if actor == self.author {
            Ok(self.stamped(is_done, now))
        } else {
            Err(ErrorCode::Unauthorized)
        }
    }

    /// Toggling: the author gets the opposite flag, anyone else is refused.
    pub open spec fn toggle(self, actor: Seq<u8>, now: int) -> Result<TaskView, ErrorCode> {
        self.set_status(actor, !self.is_done, now)
    }

    /// Soft deletion: the author gets the flag forced on, anyone else is
    /// refused. The record itself stays.
    pub open spec fn soft_delete(self, actor: Seq<u8>, now: int) -> Result<TaskView, ErrorCode> {
        self.set_status(actor, true, now)
    }
}

impl Task {
    /// What holds of every stored task.
    pub open spec fn wf(&self) -> bool {
        self@.wf()
    }

    /// The authorization guard: whether `actor` is the author of the task.
    pub fn is_authored_by(&self, actor: &Address) -> (yes: bool)
        ensures
            yes == (actor@ == self@.author),
    {
        self.author == *actor
    }

    /// Stamps the task with a new flag and the time of the change.
    fn stamp(&mut self, is_done: bool, now: i64)
        ensures
            final(self)@ == old(self)@.stamped(is_done, now as int),
    {
        self.is_done = is_done;
        self.updated_at = now;
    }
}

/// Whether `text` has at most 400 Unicode scalar values.
pub fn text_within_limit(text: &str) -> (fits: bool)
    ensures
        fits == text_fits(text@),
{
    text.unicode_len() <= MAX_TEXT_CHARS
}

/// Creates the task `id` for `actor`, at time `now`.
///
/// A text of more than 400 Unicode scalar values is refused with
/// `TextTooLong`, and no task comes into being. Otherwise the new task is
/// open, holds the text as given, and is created and updated at `now`.
pub fn adding_task(actor: Address, id: Address, text: String, now: i64) -> (res: Result<
    Task,
    ErrorCode,
>)
    ensures
        match TaskView::create(actor@, id@, text@, now as int) {
            Ok(created) => res is Ok && res->Ok_0@ == created && res->Ok_0.wf(),
            Err(e) => res == Err::<Task, ErrorCode>(e),
        },
{
    if !text_within_limit(text.as_str()) {
        return Err(ErrorCode::TextTooLong);
    }
    Ok(Task { id, author: actor, is_done: false, text, created_at: now, updated_at: now })
}

/// Sets the completion flag of `task` to `is_done`, at time `now`.
///
/// Anyone but the author is refused with `Unauthorized`, and the task stays
/// as it was. For the author only the flag and the time of the last update
/// change.
pub fn updating_task(actor: &Address, task: &mut Task, is_done: bool, now: i64) -> (res: Result<
    (),
    ErrorCode,
>)
    ensures
        match old(task)@.set_status(actor@, is_done, now as int) {
            Ok(changed) => res is Ok && final(task)@ == changed,
            Err(e) => res == Err::<(), ErrorCode>(e) && *final(task) == *old(task),
        },
        old(task).wf() && old(task).created_at <= now ==> final(task).wf(),
{
    if !task.is_authored_by(actor) {
        return Err(ErrorCode::Unauthorized);
    }
    task.stamp(is_done, now);
    Ok(())
}

/// Marks `task` as deleted, at time `now`: its flag is forced on, and the
/// record stays where it is.
///
/// Anyone but the author is refused with `Unauthorized`, and the task stays
/// as it was.
pub fn deleting_task(actor: &Address, task: &mut Task, now: i64) -> (res: Result<(), ErrorCode>)
    ensures
        match old(task)@.soft_delete(actor@, now as int) {
            Ok(changed) => res is Ok && final(task)@ == changed,
            Err(e) => res == Err::<(), ErrorCode>(e) && *final(task) == *old(task),
        },
        old(task).wf() && old(task).created_at <= now ==> final(task).wf(),
{
    if !task.is_authored_by(actor) {
        return Err(ErrorCode::Unauthorized);
    }
    task.stamp(true, now);
    Ok(())
}

/// Turns the completion flag of `task` over, at time `now`.
///
/// Anyone but the author is refused with `Unauthorized`, and the task stays
/// as it was.
pub fn toggle_completion_status(actor: &Address, task: &mut Task, now: i64) -> (res: Result<
    (),
    ErrorCode,
>)
    ensures
        match old(task)@.toggle(actor@, now as int) {
            Ok(changed) => res is Ok && final(task)@ == changed,
            Err(e) => res == Err::<(), ErrorCode>(e) && *final(task) == *old(task),
        },
        old(task).wf() && old(task).created_at <= now ==> final(task).wf(),
{
    if !task.is_authored_by(actor) {
        return Err(ErrorCode::Unauthorized);
    }
    let flipped = !task.is_done;
    task.stamp(flipped, now);
    Ok(())
}

} // verus!
