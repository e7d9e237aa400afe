//! What holds of the journal under its operations, whatever its tasks are.

use crate::tasks::{
    added, completed, listing, names_task, stamps_at, TaskView, EMPTY_NOTICE,
};
use vstd::prelude::*;

verus! {

/// The journal after the tasks of `new_tasks` are added one after another,
/// the first of them first.
pub open spec fn added_all(journal: Seq<TaskView>, new_tasks: Seq<TaskView>) -> Seq<TaskView>
    decreases new_tasks.len(),
{
    if new_tasks.len() == 0 {
        journal
    } else {
        added(added_all(journal, new_tasks.drop_last()), new_tasks.last())
    }
}

/// Adding tasks one after another keeps what the journal held and puts the
/// new tasks behind it, in the order in which they were added and each with
/// the text and the creation second it was handed over with. A journal that
/// was empty before holds exactly the added tasks, as many as were added.
pub proof fn adding_keeps_order(journal: Seq<TaskView>, new_tasks: Seq<TaskView>)
    ensures
        added_all(journal, new_tasks) == journal + new_tasks,
        added_all(Seq::empty(), new_tasks) == new_tasks,
        added_all(Seq::empty(), new_tasks).len() == new_tasks.len(),
    decreases new_tasks.len(),
{
    if new_tasks.len() > 0 {
        adding_keeps_order(journal, new_tasks.drop_last());
    }
}

/// Completing the task at a position that names one takes exactly that task
/// out: the journal is one task shorter, the tasks before the position stay
/// where they were, and each task behind it stands one position earlier.
pub proof fn completing_removes_one(journal: Seq<TaskView>, position: int)
    requires
        names_task(journal, position),
    ensures
        completed(journal, position).len() == journal.len() - 1,
        forall|p: int|
            1 <= p < position ==> #[trigger] completed(journal, position)[p - 1] == journal[p - 1],
        forall|p: int|
            position < p <= journal.len() ==> completed(journal, position)[p - 2]
                == #[trigger] journal[p - 1],
{
}

/// The position 0 and the position one behind the last task name no task,
/// so completing either is refused.
pub proof fn positions_outside_name_no_task(journal: Seq<TaskView>)
    ensures
        !names_task(journal, 0),
        !names_task(journal, journal.len() as int + 1),
{
}

/// A listing depends on the journal and on the offsets of the clock alone:
/// two listings of one journal have the same number of lines, and they show
/// the same line for each task at whose creation the clock ran at the same
/// offset both times. A journal without tasks is listed as the notice,
/// whatever the clock.
pub proof fn listings_agree(journal: Seq<TaskView>, offsets: Seq<int>, other_offsets: Seq<int>)
    requires
        offsets.len() == journal.len(),
        other_offsets.len() == journal.len(),
    ensures
        listing(journal, stamps_at(journal, offsets)).len() == listing(
            journal,
            stamps_at(journal, other_offsets),
        ).len(),
        forall|i: int|
            0 <= i < journal.len() && offsets[i] == other_offsets[i] ==> #[trigger] listing(
                journal,
                stamps_at(journal, offsets),
            )[i] == listing(journal, stamps_at(journal, other_offsets))[i],
        journal.len() == 0 ==> listing(journal, stamps_at(journal, offsets)) == seq![
            EMPTY_NOTICE@,
        ],
{
}

} // verus!
