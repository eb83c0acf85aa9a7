//! Laws of the task lifecycle, stated over the model that the contracts of
//! the operations use.

use vstd::prelude::*;
use crate::error::ErrorCode;
use crate::task::{text_fits, TaskView};

verus! {

/// Creation succeeds exactly on a text within the bound. The task it gives
/// is open, belongs to the actor, holds the text as given, and is created
/// and updated at the same moment; so it is well formed.
pub proof fn lemma_create_within_limit(actor: Seq<u8>, id: Seq<u8>, text: Seq<char>, now: int)
    requires
        text_fits(text),
    ensures
        TaskView::create(actor, id, text, now) is Ok,
        TaskView::create(actor, id, text, now)->Ok_0.id == id,
        TaskView::create(actor, id, text, now)->Ok_0.author == actor,
        TaskView::create(actor, id, text, now)->Ok_0.is_done == false,
        TaskView::create(actor, id, text, now)->Ok_0.text == text,
        TaskView::create(actor, id, text, now)->Ok_0.created_at == now,
        TaskView::create(actor, id, text, now)->Ok_0.updated_at == now,
        TaskView::create(actor, id, text, now)->Ok_0.wf(),
{
}

/// Creation with a text beyond the bound is refused as too long, whoever
/// asks and whenever.
pub proof fn lemma_create_beyond_limit(actor: Seq<u8>, id: Seq<u8>, text: Seq<char>, now: int)
    requires
        !text_fits(text),
    ensures
        TaskView::create(actor, id, text, now) == Err::<TaskView, ErrorCode>(
            ErrorCode::TextTooLong,
        ),
{
}

/// Whoever is not the author is refused by all three changes, whatever flag
/// and time come with the request.
pub proof fn lemma_stranger_is_refused(task: TaskView, actor: Seq<u8>, is_done: bool, now: int)
    requires
        actor != task.author,
    ensures
        task.set_status(actor, is_done, now) == Err::<TaskView, ErrorCode>(ErrorCode::Unauthorized),
        task.toggle(actor, now) == Err::<TaskView, ErrorCode>(ErrorCode::Unauthorized),
        task.soft_delete(actor, now) == Err::<TaskView, ErrorCode>(ErrorCode::Unauthorized),
{
}

/// The author is never refused: each change succeeds, gives the flag it
/// stands for, and is stamped with the time of the request.
pub proof fn lemma_author_succeeds(task: TaskView, is_done: bool, now: int)
    ensures
        task.set_status(task.author, is_done, now) is Ok,
        task.set_status(task.author, is_done, now)->Ok_0.is_done == is_done,
        task.set_status(task.author, is_done, now)->Ok_0.updated_at == now,
        task.toggle(task.author, now) is Ok,
        task.toggle(task.author, now)->Ok_0.is_done == !task.is_done,
        task.toggle(task.author, now)->Ok_0.updated_at == now,
        task.soft_delete(task.author, now) is Ok,
        task.soft_delete(task.author, now)->Ok_0.is_done,
        task.soft_delete(task.author, now)->Ok_0.updated_at == now,
{
}

/// A change touches the flag and the time of the last update only: the
/// identifier, the author, the text and the time of creation stay.
pub proof fn lemma_changes_keep_identity(
    task: TaskView,
    actor: Seq<u8>,
    is_done: bool,
    now: int,
    after: TaskView,
)
    requires
        task.set_status(actor, is_done, now) == Ok::<TaskView, ErrorCode>(after)
            || task.toggle(actor, now) == Ok::<TaskView, ErrorCode>(after) || task.soft_delete(
            actor,
            now,
        ) == Ok::<TaskView, ErrorCode>(after),
    ensures
        after.id == task.id,
        after.author == task.author,
        after.text == task.text,
        after.created_at == task.created_at,
        after.updated_at == now,
{
}

/// A well-formed task stays well formed under every change made no earlier
/// than its creation; so it does whenever time does not run backwards.
pub proof fn lemma_changes_keep_wf(
    task: TaskView,
    actor: Seq<u8>,
    is_done: bool,
    now: int,
    after: TaskView,
)
    requires
        task.wf(),
        task.created_at <= now,
        task.set_status(actor, is_done, now) == Ok::<TaskView, ErrorCode>(after)
            || task.toggle(actor, now) == Ok::<TaskView, ErrorCode>(after) || task.soft_delete(
            actor,
            now,
        ) == Ok::<TaskView, ErrorCode>(after),
    ensures
        after.wf(),
        task.updated_at <= now ==> task.updated_at <= after.updated_at,
{
}

/// Setting the flag and then clearing it leaves the flag cleared. Each of
/// the two steps is stamped with its own time, so while time advances the
/// time of the last update advances with it.
pub proof fn lemma_set_then_clear(task: TaskView, first: int, second: int)
    ensures
        task.set_status(task.author, true, first) is Ok,
        task.set_status(task.author, true, first)->Ok_0.is_done,
        task.set_status(task.author, true, first)->Ok_0.set_status(task.author, false, second)
            == Ok::<TaskView, ErrorCode>(task.stamped(false, second)),
        task.updated_at < first ==> task.updated_at < task.set_status(
            task.author,
            true,
            first,
        )->Ok_0.updated_at,
        first < second ==> task.set_status(task.author, true, first)->Ok_0.updated_at
            < task.stamped(false, second).updated_at,
{
}

/// Toggling twice brings the flag back to where it was, and each of the two
/// steps leaves its own time on the task: after both, the task differs from
/// what it was in the time of its last update only.
pub proof fn lemma_toggle_twice(task: TaskView, first: int, second: int)
    ensures
        task.toggle(task.author, first) is Ok,
        task.toggle(task.author, first)->Ok_0.is_done == !task.is_done,
        task.toggle(task.author, first)->Ok_0.updated_at == first,
        task.toggle(task.author, first)->Ok_0.toggle(task.author, second) is Ok,
        task.toggle(task.author, first)->Ok_0.toggle(task.author, second)->Ok_0 == (TaskView {
            updated_at: second,
            ..task
        }),
{
}

/// Deleting a deleted task leaves the flag on, and still stamps the task
/// with the time of the second request.
pub proof fn lemma_delete_twice(task: TaskView, first: int, second: int)
    ensures
        task.soft_delete(task.author, first) is Ok,
        task.soft_delete(task.author, first)->Ok_0.is_done,
        task.soft_delete(task.author, first)->Ok_0.updated_at == first,
        task.soft_delete(task.author, first)->Ok_0.soft_delete(task.author, second) is Ok,
        task.soft_delete(task.author, first)->Ok_0.soft_delete(task.author, second)->Ok_0
            == task.stamped(true, second),
        task.stamped(true, second).is_done,
        task.stamped(true, second).updated_at == second,
{
}

/// At the level of the data a soft deletion is the setting of the flag: no
/// field tells the two apart.
pub proof fn lemma_delete_is_set(task: TaskView, actor: Seq<u8>, now: int)
    ensures
        task.soft_delete(actor, now) == task.set_status(actor, true, now),
{
}

} // verus!
