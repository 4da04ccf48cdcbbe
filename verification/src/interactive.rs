//! The decisions of the interactive commands: `retrieve` with `--delete` and `--update`,
//! `time start` and `time stop`, and the choice of the store to work on.
use vstd::prelude::*;

use crate::args::{store_position, Config, Store};
use crate::create::NewTimesheet;
use crate::export::{Expense, JobView, TimesheetView};
use crate::text::{int_text, int_to_text};
use crate::time::{chrono_rounded, round_failure, Duration, RoundError, Timestamp};
use crate::views::{EmployeeView, Id};

verus! {

/// `clinvoice time start` and `clinvoice time stop`.
#[derive(Clone, Copy, Debug)]
pub enum TimeCommand {
    Start,
    Stop,
}

/// The name of a time command, as `Display` writes it.
pub open spec fn time_command_text(c: TimeCommand) -> Seq<char> {
    match c {
        TimeCommand::Start => "start"@,
        TimeCommand::Stop => "stop"@,
    }
}

impl TimeCommand {
    /// The name of this command, as `Display` writes it.
    pub fn display(&self) -> (res: &'static str)
        ensures
            res@ == time_command_text(*self),
    {
        match self {
            TimeCommand::Start => "start",
            TimeCommand::Stop => "stop",
        }
    }

    /// The question that selects the job this command works on.
    pub fn job_prompt(&self) -> (res: String)
        ensures
            res@ == "Select the job to "@ + time_command_text(*self) + " working on"@,
    {
        let mut res = String::from_str("Select the job to ");
        res.append(self.display());
        res.append(" working on");
        res
    }
}

/// The employee whose work `clinvoice time` records: the default one where asked for, none
/// (the user chooses) otherwise.
pub fn time_employee(use_default: bool, default_employee_id: Option<Id>) -> (res: Option<Id>)
    ensures
        res == (if use_default { default_employee_id } else { None }),
{
    if use_default {
        default_employee_id
    } else {
        None
    }
}

/// The positions of the jobs among `jobs` that are open (`closed` false) or closed (`closed`
/// true), in order.
pub fn job_positions(jobs: &Vec<JobView>, closed: bool) -> (res: Vec<usize>)
    ensures
        forall|k: int| 0 <= k < res.len() ==> (#[trigger] res@[k]) < jobs.len() && (jobs@[res@[k] as int].date_close is Some) == closed,
        forall|k: int, l: int| 0 <= k < l < res.len() ==> res@[k] < res@[l],
        forall|i: int|
            0 <= i < jobs.len() && (#[trigger] jobs@[i].date_close is Some) == closed ==> res@.contains(
                i as usize,
            ),
{
    let mut res: Vec<usize> = Vec::new();
    let mut i: usize = 0;
    while i < jobs.len()
        invariant
            i <= jobs.len(),
            forall|k: int| 0 <= k < res.len() ==> (#[trigger] res@[k]) < i && (jobs@[res@[k] as int].date_close is Some) == closed,
            forall|k: int, l: int| 0 <= k < l < res.len() ==> res@[k] < res@[l],
            forall|j: int|
                0 <= j < i && (#[trigger] jobs@[j].date_close is Some) == closed ==> res@.contains(
                    j as usize,
                ),
        decreases jobs.len() - i,
    {
        if jobs[i].date_close.is_some() == closed {
            let ghost before = res@;
            res.push(i);
            assert forall|j: int|
                0 <= j <= i && (#[trigger] jobs@[j].date_close is Some) == closed implies res@.contains(
                    j as usize,
                ) by {
                if j < i {
                    let idx = choose|idx: int| 0 <= idx < before.len() && before[idx] == j as usize;
                    assert(res@[idx] == j as usize);
                } else {
                    assert(res@[res.len() - 1] == i);
                }
            }
        }
        i = i + 1;
    }
    res
}

/// Sets the closing date of every job in `jobs` to `close` (a point in time to close them, or
/// `None` to reopen them), leaving all else as it was.
pub fn set_closing(jobs: &mut Vec<JobView>, close: Option<Timestamp>)
    ensures
        final(jobs).len() == old(jobs).len(),
        forall|k: int|
            0 <= k < final(jobs).len() ==> {
                &&& (#[trigger] final(jobs)@[k]).date_close == close
                &&& final(jobs)@[k].client == old(jobs)@[k].client
                &&& final(jobs)@[k].date_open == old(jobs)@[k].date_open
                &&& final(jobs)@[k].id == old(jobs)@[k].id
                &&& final(jobs)@[k].increment == old(jobs)@[k].increment
                &&& final(jobs)@[k].invoice == old(jobs)@[k].invoice
                &&& final(jobs)@[k].notes == old(jobs)@[k].notes
                &&& final(jobs)@[k].objectives == old(jobs)@[k].objectives
            },
{
    let mut i: usize = 0;
    while i < jobs.len()
        invariant
            i <= jobs.len(),
            jobs.len() == old(jobs).len(),
            forall|k: int|
                0 <= k < i ==> {
                    &&& (#[trigger] jobs@[k]).date_close == close
                    &&& jobs@[k].client == old(jobs)@[k].client
                    &&& jobs@[k].date_open == old(jobs)@[k].date_open
                    &&& jobs@[k].id == old(jobs)@[k].id
                    &&& jobs@[k].increment == old(jobs)@[k].increment
                    &&& jobs@[k].invoice == old(jobs)@[k].invoice
                    &&& jobs@[k].notes == old(jobs)@[k].notes
                    &&& jobs@[k].objectives == old(jobs)@[k].objectives
                },
            forall|k: int| i <= k < jobs.len() ==> #[trigger] jobs@[k] == old(jobs)@[k],
        decreases jobs.len() - i,
    {
        jobs[i].date_close = close;
        i = i + 1;
    }
}

/// The timesheet that `clinvoice time start` creates: `employee` working on `job` from `now`,
/// not ended, with no expenses and no work notes yet.
pub fn started_timesheet(employee: EmployeeView, job: JobView, now: Timestamp) -> (res: NewTimesheet)
    ensures
        res.employee == employee,
        res.expenses@ == Seq::<Expense>::empty(),
        res.job == job,
        res.time_begin == now,
        res.time_end is None,
        res.work_notes@ == Seq::<char>::empty(),
{
    NewTimesheet {
        employee,
        expenses: Vec::new(),
        job,
        time_begin: now,
        time_end: None,
        work_notes: String::new(),
    }
}

/// Stops `timesheet` as `clinvoice time stop` does once the user has written the notes and
/// expenses: when it began is rounded to a multiple of the job's `increment`, and it ends at
/// `now`, rounded alike. Where either cannot be rounded, the timesheet is left as it was and
/// the first failure is returned.
pub fn stop_timesheet(timesheet: &mut TimesheetView, now: Timestamp, increment: Duration) -> (res:
    Result<(), RoundError>)
    requires
        increment.nanos < 1_000_000_000,
    ensures
        match round_failure(old(timesheet).time_begin, increment) {
            Some(e) => res matches Err(f) && f == e && *final(timesheet) == *old(timesheet),
            None => match round_failure(now, increment) {
                Some(e) => res matches Err(f) && f == e && *final(timesheet) == *old(timesheet),
                None => {
                    let span = increment.secs * 1_000_000_000 + increment.nanos;
                    &&& res is Ok
                    &&& (final(timesheet).time_begin.spec_secs() as int, final(timesheet).time_begin.spec_nanos() as int)
                        == chrono_rounded(old(timesheet).time_begin.spec_secs() as int, old(timesheet).time_begin.spec_nanos() as int, span)
                    &&& final(timesheet).time_end matches Some(end) && (end.spec_secs() as int, end.spec_nanos() as int)
                        == chrono_rounded(now.spec_secs() as int, now.spec_nanos() as int, span)
                    &&& final(timesheet).employee == old(timesheet).employee
                    &&& final(timesheet).expenses == old(timesheet).expenses
                    &&& final(timesheet).id == old(timesheet).id
                    &&& final(timesheet).job == old(timesheet).job
                    &&& final(timesheet).work_notes == old(timesheet).work_notes
                },
            },
        },
{
    let begin = match timesheet.time_begin.round_to(increment) {
        Ok(b) => b,
        Err(e) => return Err(e),
    };
    let end = match now.round_to(increment) {
        Ok(e) => e,
        Err(e) => return Err(e),
    };
    timesheet.time_begin = begin;
    timesheet.time_end = Some(end);
    Ok(())
}

/// The message of exporting jobs without a configured employer.
pub open spec fn employer_required_text() -> Seq<char> {
    "You must specify the `Organization` you work for before exporting `Job`s."@
}

/// The employer whose jobs are exported: the one configured, or the message that one must be.
pub fn export_employer_id(employer_id: Option<Id>) -> (res: Result<Id, String>)
    ensures
        match employer_id {
            Some(id) => res matches Ok(i) && i == id,
            None => res matches Err(m) && m@ == employer_required_text(),
        },
{
    match employer_id {
        Some(id) => Ok(id),
        None => Err(
            String::from_str(
                "You must specify the `Organization` you work for before exporting `Job`s.",
            ),
        ),
    }
}

/// The message of a configured employer that no stored organization has.
pub open spec fn unknown_employer_text(id: Id) -> Seq<char> {
    "Your configuration specifies that your employer has ID "@ + int_text(id as int)
        + ", however no `Organization` in the database has this ID."@
}

/// The message of a configured employer that no stored organization has (see
/// `unknown_employer_text`).
pub fn unknown_employer(id: Id) -> (res: String)
    ensures
        res@ == unknown_employer_text(id),
{
    let mut res = String::from_str("Your configuration specifies that your employer has ID ");
    let number = int_to_text(id);
    res.append(number.as_str());
    res.append(", however no `Organization` in the database has this ID.");
    res
}

/// Whether `clinvoice retrieve employee` prints the employees it found: not where they are
/// being deleted or updated, or one is being set as the default.
pub fn prints_employees(set_default: bool, delete: bool, update: bool) -> (res: bool)
    ensures
        res == (!set_default && !(delete || update)),
{
    !set_default && !(delete || update)
}

/// Whether `clinvoice retrieve job` prints the jobs it found: not where they are being
/// exported, closed, deleted, reopened or updated.
pub fn prints_jobs(export: bool, close: bool, delete: bool, reopen: bool, update: bool) -> (res:
    bool)
    ensures
        res == (!export && !(close || delete || reopen || update)),
{
    !export && !(close || delete || reopen || update)
}

/// Whether `clinvoice retrieve location` prints the locations it found: not where new
/// locations are being created inside one, nor where they are being deleted or updated.
pub fn prints_locations(create_inner: bool, delete: bool, update: bool) -> (res: bool)
    ensures
        res == (!create_inner && !(delete || update)),
{
    !create_inner && !(delete || update)
}

/// Whether `clinvoice retrieve organization` prints the organizations it found: not where
/// they are being updated or deleted.
pub fn prints_organizations(delete: bool, update: bool) -> (res: bool)
    ensures
        res == (!update && !delete),
{
    !update && !delete
}

/// How the new default employee is found among those retrieved.
#[derive(Clone, Copy, Debug)]
pub enum DefaultChoice {
    /// Several were found: the user chooses.
    Ask,
    /// One was found: it is the one.
    Only,
    /// None was found: there is no data to choose from.
    NoData,
}

/// How the new default employee is found among `count` retrieved employees.
pub fn default_choice(count: usize) -> (res: DefaultChoice)
    ensures
        res == (if count > 1 {
            DefaultChoice::Ask
        } else if count == 1 {
            DefaultChoice::Only
        } else {
            DefaultChoice::NoData
        }),
{
    if count > 1 {
        DefaultChoice::Ask
    } else if count == 1 {
        DefaultChoice::Only
    } else {
        DefaultChoice::NoData
    }
}

/// The message of a store name that the configuration does not know.
pub open spec fn unknown_store_text(name: Seq<char>) -> Seq<char> {
    "\""@ + name + "\" is not a valid store name."@
}

/// The store named `name`, or the message that it is not a valid store name.
pub fn store_named<'a>(config: &'a Config, name: &str) -> (res: Result<&'a Store, String>)
    ensures
        match store_position(config.stores@, name@) {
            Some(i) => res matches Ok(s) && *s == config.stores@[i].1,
            None => res matches Err(m) && m@ == unknown_store_text(name@),
        },
{
    match config.get_store(name) {
        Some(s) => Ok(s),
        None => {
            let mut message = String::from_str("\"");
            message.append(name);
            message.append("\" is not a valid store name.");
            Err(message)
        },
    }
}

/// What is printed when a record was created, deleted or updated: its kind, its number, and
/// the action, e.g. `Job #3 has been deleted.`
pub open spec fn report_text(kind: Seq<char>, id: Id, action: Seq<char>) -> Seq<char> {
    kind + " #"@ + int_text(id as int) + " has been "@ + action + "."@
}

/// What is printed when a record was created, deleted or updated (see `report_text`).
pub fn report_action(kind: &str, id: Id, action: &str) -> (res: String)
    ensures
        res@ == report_text(kind@, id, action@),
{
    let mut res = String::from_str(kind);
    res.append(" #");
    let number = int_to_text(id);
    res.append(number.as_str());
    res.append(" has been ");
    res.append(action);
    res.append(".");
    res
}

} // verus!
