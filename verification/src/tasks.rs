//! Tasks and the operations of the journal that holds them.

use crate::document::{encode_journal, ended_early, journal_text};
use crate::line::{number_line, numbered, render_line, rendered, texts};
use crate::timestamp::{
    are_zone_offsets, current_second, in_calendar, is_calendar_second, is_zone_offset,
    local_offset, minute_stamp, minute_stamp_at,
};
use vstd::prelude::*;

verus! {

/// What a task is: its text and the second it was created at, counted from
/// 1 January 1970, 00:00:00 UTC.
pub struct TaskView {
    pub text: Seq<char>,
    pub created_at: int,
}

/// One entry of the journal. The text is free; the creation second is set
/// when the task is made, stays as it is, and always names an instant of the
/// calendar.
#[derive(Debug)]
pub struct Task {
    text: String,
    created_at: i64,
}

impl View for Task {
    type V = TaskView;

    closed spec fn view(&self) -> TaskView {
        TaskView { text: self.text@, created_at: self.created_at as int }
    }
}

impl Clone for Task {
    fn clone(&self) -> (copy: Task)
        ensures
            copy@ == self@,
    {
        proof {
            use_type_invariant(self);
        }
        Task { text: self.text.clone(), created_at: self.created_at }
    }
}

/// The tasks of a vector, each as what it is.
pub open spec fn task_views(tasks: Seq<Task>) -> Seq<TaskView> {
    tasks.map_values(|task: Task| task@)
}

impl Task {
    #[verifier::type_invariant]
    spec fn created_in_calendar(&self) -> bool {
        is_calendar_second(self.created_at as int)
    }

    /// A task with the given text, created now. Any text is taken, the empty
    /// one too.
    ///
    /// The time is read with `chrono`, which stops the program where the
    /// clock of the machine stands before 1970.
    pub fn new(text: String) -> (task: Task)
        ensures
            task@.text == text@,
            is_calendar_second(task@.created_at),
    {
        let created_at: i64 = current_second();
        Task { text, created_at }
    }

    /// A task with the given text and creation second, where that second is
    /// one of the calendar; `None` where it is not.
    pub fn from_parts(text: String, created_at: i64) -> (task: Option<Task>)
        ensures
            match task {
                Some(made) => is_calendar_second(created_at as int) && made@.text == text@
                    && made@.created_at == created_at,
                None => !is_calendar_second(created_at as int),
            },
    {
        if in_calendar(created_at) {
            Some(Task { text, created_at })
        } else {
            None
        }
    }

    /// The text of the task.
    pub fn text(&self) -> (text: &str)
        ensures
            text@ == self@.text,
    {
        self.text.as_str()
    }

    /// The second the task was created at.
    pub fn created_at(&self) -> (seconds: i64)
        ensures
            seconds == self@.created_at,
            is_calendar_second(seconds as int),
    {
        proof {
            use_type_invariant(self);
        }
        self.created_at
    }

    /// The display line of the task, with `stamp` for its creation time.
    pub fn render_with(&self, stamp: &str) -> (line: String)
        ensures
            line@ == rendered(self@.text, stamp@),
    {
        render_line(self.text.as_str(), stamp)
    }

    /// The display line of the task for a clock that runs `offset` seconds
    /// ahead of UTC: its text in the text column, then the minute it was
    /// created in on that clock. `None` where no clock runs at that offset.
    pub fn render_at(&self, offset: i32) -> (line: Option<String>)
        ensures
            match line {
                Some(shown) => is_zone_offset(offset as int) && shown@ == rendered(
                    self@.text,
                    minute_stamp(self@.created_at, offset as int),
                ),
                None => !is_zone_offset(offset as int),
            },
    {
        proof {
            use_type_invariant(self);
        }
        match minute_stamp_at(self.created_at, offset) {
            Some(stamp) => Some(self.render_with(stamp.as_str())),
            None => None,
        }
    }

    /// The display line of the task: its text in the text column, then the
    /// minute it was created in, on the clock of this machine's time zone.
    ///
    /// The time zone is read with `chrono`, which stops the program where
    /// the zone data of the machine gives an offset of a whole day or more.
    pub fn render(&self) -> (line: String)
        ensures
            exists|offset: int|
                is_zone_offset(offset) && line@ == rendered(
                    self@.text,
                    #[trigger] minute_stamp(self@.created_at, offset),
                ),
    {
        proof {
            use_type_invariant(self);
        }
        let offset: i32 = match local_offset(self.created_at) {
            Some(offset) => offset,
            None => vstd::pervasive::unreached(),
        };
        match self.render_at(offset) {
            Some(line) => line,
            None => vstd::pervasive::unreached(),
        }
    }
}

/// Why an operation of the journal failed.
#[derive(Debug)]
pub enum JournalError {
    /// The file holds text that is no journal document; the decoder's error
    /// says where and why.
    Malformed(serde_json::Error),
    /// The position names no task of the journal.
    InvalidPosition,
}

/// The line that a listing shows for a journal without tasks.
pub const EMPTY_NOTICE: &'static str = "Task list is empty!";

/// The journal after `task` is added: the tasks as they were, and the new
/// one last.
pub open spec fn added(journal: Seq<TaskView>, task: TaskView) -> Seq<TaskView> {
    journal.push(task)
}

/// Whether `position` names a task of the journal. Positions count from 1.
pub open spec fn names_task(journal: Seq<TaskView>, position: int) -> bool {
    1 <= position <= journal.len()
}

/// The journal after the task at `position` is completed: that task is gone
/// and the tasks behind it have moved up by one.
pub open spec fn completed(journal: Seq<TaskView>, position: int) -> Seq<TaskView>
    recommends
        names_task(journal, position),
{
    journal.remove(position - 1)
}

/// The listing of a journal whose tasks have the creation stamps `stamps`,
/// one for each task: the notice alone for a journal without tasks, else
/// one line for each task, in order, numbered from 1.
pub open spec fn listing(journal: Seq<TaskView>, stamps: Seq<Seq<char>>) -> Seq<Seq<char>>
    recommends
        stamps.len() == journal.len(),
{
    if journal.len() == 0 {
        seq![EMPTY_NOTICE@]
    } else {
        Seq::new(
            journal.len(),
            |i: int| numbered((i + 1) as nat, rendered(journal[i].text, stamps[i])),
        )
    }
}

/// The creation stamps of the tasks of a journal, where the clock runs at
/// `offsets[i]` seconds ahead of UTC at the instant the task at `i` was
/// created.
pub open spec fn stamps_at(journal: Seq<TaskView>, offsets: Seq<int>) -> Seq<Seq<char>>
    recommends
        offsets.len() == journal.len(),
{
    Seq::new(journal.len(), |i: int| minute_stamp(journal[i].created_at, offsets[i]))
}

/// The journal that a failed decoding leaves: an empty one where the input
/// ended before a document was read, the decoder's error in every other
/// case.
pub fn recover_journal(
    end_of_input: bool,
    error: serde_json::Error,
) -> (journal: Result<Vec<Task>, JournalError>)
    ensures
        match journal {
            Ok(tasks) => end_of_input && tasks@.len() == 0,
            Err(failure) => !end_of_input && failure == JournalError::Malformed(error),
        },
{
    if end_of_input {
        Ok(Vec::new())
    } else {
        Err(JournalError::Malformed(error))
    }
}

/// The tasks of the journal, from the content of its file and from what
/// that content decoded to. A decoded document is the journal as it stands.
/// A file without content is an empty journal: that is how a journal begins.
/// Where other content could not be decoded, the journal is empty if the
/// decoder's error says that the input ended before a document was read,
/// and the failure is reported if it says anything else.
pub fn collect_tasks(
    content: &[u8],
    decoded: Result<Vec<Task>, serde_json::Error>,
) -> (journal: Result<Vec<Task>, JournalError>)
    ensures
        match decoded {
            Ok(tasks) => journal == Ok::<Vec<Task>, JournalError>(tasks),
            Err(error) => if content@.len() == 0 {
                journal is Ok && journal->Ok_0@.len() == 0
            } else {
                match journal {
                    Ok(tasks) => ended_early(error) && tasks@.len() == 0,
                    Err(failure) => !ended_early(error) && failure == JournalError::Malformed(
                        error,
                    ),
                }
            },
        },
{
    match decoded {
        Ok(tasks) => Ok(tasks),
        Err(error) => {
            if content.len() == 0 {
                Ok(Vec::new())
            } else {
                let end_of_input: bool = error.is_eof();
                recover_journal(end_of_input, error)
            }
        },
    }
}

/// Adds `task` behind the tasks of the journal and returns the document to
/// store: it replaces the whole content of the file.
pub fn add_task(tasks: Vec<Task>, task: Task) -> (document: String)
    ensures
        document@ == journal_text(added(task_views(tasks@), task@)),
{
    let mut tasks: Vec<Task> = tasks;
    let ghost before: Seq<Task> = tasks@;
    tasks.push(task);
    assert(task_views(tasks@) =~= added(task_views(before), task@));
    encode_journal(&tasks)
}

/// Completes the task at `task_position`, counted from 1, and returns the
/// document to store: it replaces the whole content of the file. A position
/// that names no task is refused, and nothing is to be stored then.
pub fn complete_task(
    tasks: Vec<Task>,
    task_position: usize,
) -> (document: Result<String, JournalError>)
    ensures
        match document {
            Ok(text) => names_task(task_views(tasks@), task_position as int) && text@
                == journal_text(completed(task_views(tasks@), task_position as int)),
            Err(failure) => !names_task(task_views(tasks@), task_position as int)
                && failure is InvalidPosition,
        },
{
    if task_position == 0 || task_position > tasks.len() {
        return Err(JournalError::InvalidPosition);
    }
    let mut tasks: Vec<Task> = tasks;
    let ghost before: Seq<Task> = tasks@;
    tasks.remove(task_position - 1);
    assert(task_views(tasks@) =~= completed(task_views(before), task_position as int));
    Ok(encode_journal(&tasks))
}

/// The listing line of `task` at `position`, with `stamp` for its creation
/// time.
pub fn listing_line(position: usize, task: &Task, stamp: &str) -> (line: String)
    ensures
        line@ == numbered(position as nat, rendered(task@.text, stamp@)),
{
    let shown: String = task.render_with(stamp);
    number_line(position, shown.as_str())
}

/// The lines that show the journal: the notice alone where it has no task,
/// else one line for each task in order, with its position counted from 1,
/// its text, and the minute it was created in, on the clock of this
/// machine's time zone.
///
/// The time zone is read with `chrono`, which stops the program where the
/// zone data of the machine gives an offset of a whole day or more.
pub fn list_tasks(tasks: &Vec<Task>) -> (lines: Vec<String>)
    ensures
        lines@.len() == if tasks@.len() == 0 {
            1
        } else {
            tasks@.len()
        },
        exists|offsets: Seq<int>|
            offsets.len() == tasks@.len() && are_zone_offsets(offsets) && texts(lines@) == listing(
                task_views(tasks@),
                #[trigger] stamps_at(task_views(tasks@), offsets),
            ),
{
    let ghost journal: Seq<TaskView> = task_views(tasks@);
    let mut lines: Vec<String> = Vec::new();
    if tasks.len() == 0 {
        lines.push(String::from_str(EMPTY_NOTICE));
        assert(texts(lines@) =~= listing(journal, stamps_at(journal, Seq::empty())));
        return lines;
    }
    let ghost mut offsets: Seq<int> = Seq::empty();
    let mut index: usize = 0;
    while index < tasks.len()
        invariant
            journal == task_views(tasks@),
            index <= tasks.len(),
            lines@.len() == index,
            offsets.len() == index,
            are_zone_offsets(offsets),
            forall|i: int|
                0 <= i < index ==> #[trigger] lines@[i]@ == numbered(
                    (i + 1) as nat,
                    rendered(journal[i].text, minute_stamp(journal[i].created_at, offsets[i])),
                ),
        decreases tasks.len() - index,
    {
        let task: &Task = &tasks[index];
        let offset: i32 = match local_offset(task.created_at()) {
            Some(offset) => offset,
            None => vstd::pervasive::unreached(),
        };
        let stamp: String = match minute_stamp_at(task.created_at(), offset) {
            Some(stamp) => stamp,
            None => vstd::pervasive::unreached(),
        };
        let line: String = listing_line(index + 1, task, stamp.as_str());
        proof {
            offsets = offsets.push(offset as int);
        }
        lines.push(line);
        index = index + 1;
    }
    assert(texts(lines@) =~= listing(journal, stamps_at(journal, offsets)));
    lines
}

} // verus!
