//! Jobs and timesheets, and how they are exported to markdown.
use vstd::prelude::*;

use crate::markdown::{
    block_text,
    bold_text,
    element_text,
    heading_text,
    text_markdown,
    unordered_item_text,
    Element,
    Text,
};
use crate::money::{money_text, Money};
use crate::text::{int_text, int_to_text};
use crate::sorting::pick;
use crate::time::{naive_text, utc_text, Duration, Timestamp};
use crate::views::{
    append_sorted_contacts,
    contact_exported,
    organization_text,
    sorted_contact_lines,
    ContactView,
    EmployeeView,
    Id,
    OrganizationView,
};

verus! {

/// Money spent during some work.
#[derive(Debug)]
pub struct Expense {
    pub id: Id,
    pub category: String,
    pub cost: Money,
    pub description: String,
    pub timesheet_id: Id,
}

/// When an invoice was issued and, if it was, paid.
#[derive(Debug)]
pub struct InvoiceDate {
    pub issued: Timestamp,
    pub paid: Option<Timestamp>,
}

/// The invoice of a job: its dates and the rate charged per hour.
#[derive(Debug)]
pub struct Invoice {
    pub date: Option<InvoiceDate>,
    pub hourly_rate: Money,
}

/// Work done for a client.
#[derive(Debug)]
pub struct JobView {
    pub client: OrganizationView,
    pub date_close: Option<Timestamp>,
    pub date_open: Timestamp,
    pub id: Id,
    pub increment: Duration,
    pub invoice: Invoice,
    pub notes: String,
    pub objectives: String,
}

/// A period of work by an employee on a job.
#[derive(Debug)]
pub struct TimesheetView {
    pub employee: EmployeeView,
    pub expenses: Vec<Expense>,
    pub id: Id,
    pub job: JobView,
    pub time_begin: Timestamp,
    pub time_end: Option<Timestamp>,
    pub work_notes: String,
}

/// The period a timesheet covers: when it began (as a UTC time) and when it ended (as a time
/// of day), or "Current" while it goes on.
pub open spec fn timesheet_period(t: TimesheetView) -> Seq<char> {
    match t.time_end {
        Some(end) => utc_text(t.time_begin) + " – "@ + naive_text(end),
        None => utc_text(t.time_begin) + " – Current"@,
    }
}

/// A line `- **label**: value` of an exported list.
pub open spec fn field_line(label: Seq<char>, value: Seq<char>) -> Seq<char> {
    unordered_item_text(0, bold_text(label)) + ": "@ + value + "\n"@
}

/// The labelled contacts of `s` that are to be exported, in the order given.
pub open spec fn exported_contacts(s: Seq<(String, ContactView)>) -> Seq<(String, ContactView)>
    decreases s.len(),
{
    if s.len() == 0 {
        s
    } else if contact_exported(s.last().1) {
        exported_contacts(s.drop_last()).push(s.last())
    } else {
        exported_contacts(s.drop_last())
    }
}

/// An expense exported: a heading with its category and cost, then its description.
pub open spec fn expense_block(x: Expense) -> Seq<char> {
    heading_text(5, x.category@ + " – "@ + money_text(x.cost)) + "\n"@ + block_text(x.description@)
        + "\n"@
}

/// The expenses `s` exported, in the order given.
pub open spec fn expense_blocks(s: Seq<Expense>) -> Seq<char>
    decreases s.len(),
{
    if s.len() == 0 {
        Seq::empty()
    } else {
        expense_block(s[0]) + expense_blocks(s.drop_first())
    }
}

/// The contacts of a timesheet's employee that are marked for export, listed by label under
/// a heading; nothing where none is marked.
pub open spec fn contact_section(t: TimesheetView) -> Seq<char> {
    let exported = exported_contacts(t.employee.contact_info@);
    if exported.len() > 0 {
        unordered_item_text(0, bold_text("Contact Information"@)) + ":"@ + "\n"@
            + sorted_contact_lines(exported, true)
    } else {
        Seq::empty()
    }
}

/// The contact section of an exported timesheet: written only the first time one of the
/// employee's timesheets is exported (their id is not yet in `seen`), so that it is not
/// repeated with every timesheet.
pub open spec fn timesheet_contacts(t: TimesheetView, seen: Set<Id>) -> Seq<char> {
    if seen.contains(t.employee.id) {
        Seq::empty()
    } else {
        contact_section(t)
    }
}

/// The expense section of an exported timesheet, present when it has expenses.
pub open spec fn timesheet_expenses(t: TimesheetView) -> Seq<char> {
    if t.expenses@.len() > 0 {
        heading_text(4, "Expenses"@) + "\n"@ + expense_blocks(t.expenses@)
    } else {
        Seq::empty()
    }
}

/// The work notes section of an exported timesheet, present when it has notes.
pub open spec fn timesheet_notes(t: TimesheetView) -> Seq<char> {
    if t.work_notes@.len() > 0 {
        heading_text(4, "Work Notes"@) + "\n"@ + block_text(t.work_notes@) + "\n"@
    } else {
        Seq::empty()
    }
}

/// The employee section of an exported timesheet.
pub open spec fn timesheet_employee(t: TimesheetView) -> Seq<char> {
    heading_text(4, "Employee Information"@) + "\n"@ + field_line(
        "Name"@,
        t.employee.person.name@,
    ) + field_line("Employer"@, organization_text(t.employee.organization)) + field_line(
        "Title"@,
        t.employee.title@,
    )
}

/// A timesheet exported to markdown, where `seen` holds the ids of the employees whose
/// timesheets were exported before it.
pub open spec fn timesheet_text(t: TimesheetView, seen: Set<Id>) -> Seq<char> {
    heading_text(3, timesheet_period(t)) + "\n"@ + timesheet_employee(t) + timesheet_contacts(
        t,
        seen,
    ) + "\n"@ + timesheet_expenses(t) + timesheet_notes(t)
}

/// Appends the line `- **label**: value` to `out`.
fn push_field(out: &mut String, label: &str, value: &str)
    ensures
        final(out)@ == old(out)@ + field_line(label@, value@),
{
    let bold = Text::Bold(String::from_str(label)).render();
    let item = Element::UnorderedList { depth: 0, text: bold }.render();
    out.append(item.as_str());
    out.append(": ");
    out.append(value);
    out.append("\n");
}

/// Appends the expenses `expenses` to `out`, in order.
fn append_expenses(out: &mut String, expenses: &Vec<Expense>)
    ensures
        final(out)@ == old(out)@ + expense_blocks(expenses@),
{
    let mut i: usize = 0;
    assert(expenses@.skip(0) =~= expenses@);
    while i < expenses.len()
        invariant
            i <= expenses.len(),
            out@ + expense_blocks(expenses@.skip(i as int)) == old(out)@ + expense_blocks(
                expenses@,
            ),
        decreases expenses.len() - i,
    {
        let x = &expenses[i];
        let ghost before = out@;
        let mut title = x.category.clone();
        title.append(" – ");
        let cost = x.cost.display();
        title.append(cost.as_str());
        let heading = Element::Heading { depth: 5, text: title }.render();
        out.append(heading.as_str());
        out.append("\n");
        let description = Element::BlockText(x.description.clone()).render();
        out.append(description.as_str());
        out.append("\n");
        assert(out@ =~= before + expense_block(*x));
        assert(expenses@.skip(i as int).drop_first() =~= expenses@.skip(i + 1));
        assert(expenses@.skip(i as int)[0] == *x);
        assert(before + expense_block(*x) + expense_blocks(expenses@.skip(i + 1)) =~= before
            + expense_blocks(expenses@.skip(i as int)));
        i = i + 1;
    }
    assert(expenses@.skip(i as int).len() == 0);
    assert(out@ =~= old(out)@ + expense_blocks(expenses@));
}

/// The positions of the contacts in `entries` that are to be exported, in order.
fn exported_positions(entries: &Vec<(String, ContactView)>) -> (res: Vec<usize>)
    ensures
        pick(entries@, res@) == exported_contacts(entries@),
        forall|k: int| 0 <= k < res.len() ==> (#[trigger] res[k]) < entries.len(),
{
    let mut res: Vec<usize> = Vec::new();
    let mut i: usize = 0;
    while i < entries.len()
        invariant
            i <= entries.len(),
            pick(entries@, res@) == exported_contacts(entries@.take(i as int)),
            forall|k: int| 0 <= k < res.len() ==> (#[trigger] res[k]) < i,
        decreases entries.len() - i,
    {
        assert(entries@.take(i + 1).drop_last() =~= entries@.take(i as int));
        assert(entries@.take(i + 1).last() == entries@[i as int]);
        if entries[i].1.exported() {
            res.push(i);
            assert(pick(entries@, res@) =~= exported_contacts(entries@.take(i as int)).push(
                entries@[i as int],
            ));
        }
        i = i + 1;
    }
    assert(entries@.take(entries.len() as int) =~= entries@);
    res
}

impl TimesheetView {
    /// The period this timesheet covers, as written in its heading.
    pub fn period(&self) -> (res: String)
        ensures
            res@ == timesheet_period(*self),
    {
        let mut res = self.time_begin.utc_text();
        match &self.time_end {
            Some(end) => {
                res.append(" – ");
                let end_text = end.naive_text();
                res.append(end_text.as_str());
            },
            None => {
                res.append(" – Current");
            },
        }
        res
    }

    /// Appends the heading and the employee section of this timesheet to `output`.
    fn append_head(&self, output: &mut String)
        ensures
            final(output)@ == old(output)@ + heading_text(3, timesheet_period(*self)) + "\n"@
                + timesheet_employee(*self),
    {
        let heading = Element::Heading { depth: 3, text: self.period() }.render();
        output.append(heading.as_str());
        output.append("\n");
        let ghost after_period = output@;
        let info = Element::Heading {
            depth: 4,
            text: String::from_str("Employee Information"),
        }.render();
        output.append(info.as_str());
        output.append("\n");
        push_field(output, "Name", self.employee.person.name.as_str());
        let employer = self.employee.organization.display();
        push_field(output, "Employer", employer.as_str());
        push_field(output, "Title", self.employee.title.as_str());
        assert(output@ =~= after_period + timesheet_employee(*self));
    }

    /// Appends the contact section of this timesheet to `output`.
    fn append_contacts(&self, seen: &std::collections::HashSet<Id>, output: &mut String)
        ensures
            final(output)@ == old(output)@ + timesheet_contacts(*self, seen@),
    {
        broadcast use vstd::std_specs::hash::group_hash_axioms;

        if !seen.contains(&self.employee.id) {
            let positions = exported_positions(&self.employee.contact_info);
            if positions.len() > 0 {
                let bold = Text::Bold(String::from_str("Contact Information")).render();
                let item = Element::UnorderedList { depth: 0, text: bold }.render();
                output.append(item.as_str());
                output.append(":");
                output.append("\n");
                append_sorted_contacts(output, &self.employee.contact_info, positions, true);
            }
        }
        assert(output@ =~= old(output)@ + timesheet_contacts(*self, seen@));
    }

    /// Appends the expense section of this timesheet to `output`.
    fn append_expense_section(&self, output: &mut String)
        ensures
            final(output)@ == old(output)@ + timesheet_expenses(*self),
    {
        if self.expenses.len() > 0 {
            let expenses = Element::Heading { depth: 4, text: String::from_str("Expenses") }.render();
            output.append(expenses.as_str());
            output.append("\n");
            append_expenses(output, &self.expenses);
        }
        assert(output@ =~= old(output)@ + timesheet_expenses(*self));
    }

    /// Appends the work notes section of this timesheet to `output`.
    fn append_notes(&self, output: &mut String)
        ensures
            final(output)@ == old(output)@ + timesheet_notes(*self),
    {
        if self.work_notes.unicode_len() > 0 {
            let notes = Element::Heading { depth: 4, text: String::from_str("Work Notes") }.render();
            output.append(notes.as_str());
            output.append("\n");
            let block = Element::BlockText(self.work_notes.clone()).render();
            output.append(block.as_str());
            output.append("\n");
        }
        assert(output@ =~= old(output)@ + timesheet_notes(*self));
    }

    /// Exports this timesheet to markdown, appending it to `output`.
    ///
    /// `serialized_employees` holds the ids of the employees whose timesheets were exported
    /// before; this employee's contact information marked for export is written only when
    /// their id is not among them, so that it is not repeated with every timesheet. Afterwards
    /// it holds this employee's id too.
    pub fn export(
        &self,
        serialized_employees: &mut std::collections::HashSet<Id>,
        output: &mut String,
    )
        requires
            self.employee.well_formed(),
        ensures
            final(output)@ == old(output)@ + timesheet_text(*self, old(serialized_employees)@),
            final(serialized_employees)@ == old(serialized_employees)@.insert(self.employee.id),
    {
        broadcast use vstd::std_specs::hash::group_hash_axioms;

        let ghost seen = serialized_employees@;
        self.append_head(output);
        let ghost a = output@;
        self.append_contacts(serialized_employees, output);
        let ghost b = output@;
        let space = Element::Break.render();
        output.append(space.as_str());
        output.append("\n");
        assert(output@ =~= b + "\n"@);
        self.append_expense_section(output);
        self.append_notes(output);
        assert(output@ =~= old(output)@ + timesheet_text(*self, seen));
        serialized_employees.insert(self.employee.id);
    }
}

/// Timesheets exported one after the other, where `seen` holds the ids of the employees
/// whose timesheets were exported before the first.
pub open spec fn timesheets_text(ts: Seq<TimesheetView>, seen: Set<Id>) -> Seq<char>
    decreases ts.len(),
{
    if ts.len() == 0 {
        Seq::empty()
    } else {
        timesheet_text(ts[0], seen) + timesheets_text(ts.drop_first(), seen.insert(ts[0].employee.id))
    }
}

/// The head of an exported job: its number, client and dates.
pub open spec fn job_head(job: JobView, date_open: Seq<char>, date_close: Seq<char>) -> Seq<char> {
    heading_text(1, "Job #"@ + int_text(job.id as int)) + "\n"@ + field_line(
        "Client"@,
        organization_text(job.client),
    ) + field_line("Date Opened"@, date_open) + (if job.date_close is Some {
        field_line("Date Closed"@, date_close)
    } else {
        Seq::empty()
    }) + "\n"@
}

/// The invoice section of an exported job.
pub open spec fn job_invoice(job: JobView, status: Seq<char>, total: Money) -> Seq<char> {
    heading_text(2, "Invoice"@) + "\n"@ + unordered_item_text(0, bold_text("Hourly Rate"@)) + " "@
        + money_text(job.invoice.hourly_rate) + "\n"@ + (if job.invoice.date is Some {
        field_line("Status"@, status)
    } else {
        Seq::empty()
    }) + field_line("Total Amount Owed"@, money_text(total)) + "\n"@
}

/// The objectives and notes of an exported job; the notes only when there are any.
pub open spec fn job_body(job: JobView) -> Seq<char> {
    heading_text(2, "Objectives"@) + "\n"@ + block_text(job.objectives@) + "\n"@ + (
    if job.notes@.len() > 0 {
        heading_text(2, "Notes"@) + "\n"@ + block_text(job.notes@) + "\n"@
    } else {
        Seq::empty()
    })
}

/// The timesheets section of an exported job, present when there are timesheets. No
/// employee counts as exported before the first timesheet.
pub open spec fn job_timesheets(ts: Seq<TimesheetView>) -> Seq<char> {
    if ts.len() > 0 {
        heading_text(2, "Timesheets"@) + "\n"@ + timesheets_text(ts, Set::empty())
    } else {
        Seq::empty()
    }
}

/// A job exported to markdown with its timesheets.
pub open spec fn job_text(
    job: JobView,
    timesheets: Seq<TimesheetView>,
    date_open: Seq<char>,
    date_close: Seq<char>,
    status: Seq<char>,
    total: Money,
) -> Seq<char> {
    job_head(job, date_open, date_close) + job_invoice(job, status, total) + job_body(job)
        + job_timesheets(timesheets)
}

/// Appends the timesheets `ts` to `out`, one after the other, tracking in `seen` whose
/// timesheets were exported.
fn append_timesheets(
    out: &mut String,
    seen: &mut std::collections::HashSet<Id>,
    ts: &Vec<TimesheetView>,
)
    requires
        forall|k: int| 0 <= k < ts.len() ==> (#[trigger] ts@[k]).employee.well_formed(),
    ensures
        final(out)@ == old(out)@ + timesheets_text(ts@, old(seen)@),
{
    let mut i: usize = 0;
    assert(ts@.skip(0) =~= ts@);
    while i < ts.len()
        invariant
            i <= ts.len(),
            forall|k: int| 0 <= k < ts.len() ==> (#[trigger] ts@[k]).employee.well_formed(),
            out@ + timesheets_text(ts@.skip(i as int), seen@) == old(out)@ + timesheets_text(
                ts@,
                old(seen)@,
            ),
        decreases ts.len() - i,
    {
        let ghost before = out@;
        let ghost before_seen = seen@;
        ts[i].export(seen, out);
        assert(ts@.skip(i as int).drop_first() =~= ts@.skip(i + 1));
        assert(ts@.skip(i as int)[0] == ts@[i as int]);
        assert(before + timesheet_text(ts@[i as int], before_seen) + timesheets_text(
            ts@.skip(i + 1),
            before_seen.insert(ts@[i as int].employee.id),
        ) =~= before + timesheets_text(ts@.skip(i as int), before_seen));
        i = i + 1;
    }
    assert(ts@.skip(i as int).len() == 0);
    assert(out@ =~= old(out)@ + timesheets_text(ts@, old(seen)@));
}

/// Appends the head of the exported `job` to `out`.
fn append_job_head(out: &mut String, job: &JobView, date_open: &str, date_close: &str)
    ensures
        final(out)@ == old(out)@ + job_head(*job, date_open@, date_close@),
{
    let mut title = String::from_str("Job #");
    let number = int_to_text(job.id);
    title.append(number.as_str());
    let heading = Element::Heading { depth: 1, text: title }.render();
    out.append(heading.as_str());
    out.append("\n");
    let client = job.client.display();
    push_field(out, "Client", client.as_str());
    push_field(out, "Date Opened", date_open);
    if job.date_close.is_some() {
        push_field(out, "Date Closed", date_close);
    }
    let space = Element::Break.render();
    out.append(space.as_str());
    out.append("\n");
    assert(out@ =~= old(out)@ + job_head(*job, date_open@, date_close@));
}

/// Appends the invoice section of the exported `job` to `out`.
fn append_job_invoice(out: &mut String, job: &JobView, status: &str, total: &Money)
    ensures
        final(out)@ == old(out)@ + job_invoice(*job, status@, *total),
{
    let heading = Element::Heading { depth: 2, text: String::from_str("Invoice") }.render();
    out.append(heading.as_str());
    out.append("\n");
    let bold = Text::Bold(String::from_str("Hourly Rate")).render();
    let item = Element::UnorderedList { depth: 0, text: bold }.render();
    out.append(item.as_str());
    out.append(" ");
    let rate = job.invoice.hourly_rate.display();
    out.append(rate.as_str());
    out.append("\n");
    if job.invoice.date.is_some() {
        push_field(out, "Status", status);
    }
    let owed = total.display();
    push_field(out, "Total Amount Owed", owed.as_str());
    let space = Element::Break.render();
    out.append(space.as_str());
    out.append("\n");
    assert(out@ =~= old(out)@ + job_invoice(*job, status@, *total));
}

/// Appends the objectives and notes of the exported `job` to `out`.
fn append_job_body(out: &mut String, job: &JobView)
    ensures
        final(out)@ == old(out)@ + job_body(*job),
{
    let heading = Element::Heading { depth: 2, text: String::from_str("Objectives") }.render();
    out.append(heading.as_str());
    out.append("\n");
    let objectives = Element::BlockText(job.objectives.clone()).render();
    out.append(objectives.as_str());
    out.append("\n");
    if job.notes.unicode_len() > 0 {
        let heading = Element::Heading { depth: 2, text: String::from_str("Notes") }.render();
        out.append(heading.as_str());
        out.append("\n");
        let notes = Element::BlockText(job.notes.clone()).render();
        out.append(notes.as_str());
        out.append("\n");
    }
    assert(out@ =~= old(out)@ + job_body(*job));
}

/// Exports `job` and its `timesheets` to markdown.
///
/// What the job's own record cannot tell is handed in as text: when it was opened and closed,
/// written in the user's time zone (`date_close` is written only for a closed job), the status
/// of its invoice (written only once the invoice has a date), and the total amount owed.
pub fn job(
    view: &JobView,
    timesheets: &Vec<TimesheetView>,
    date_open: &str,
    date_close: &str,
    status: &str,
    total: &Money,
) -> (res: String)
    requires
        forall|k: int| 0 <= k < timesheets.len() ==> (#[trigger] timesheets@[k]).employee.well_formed(),
    ensures
        res@ == job_text(*view, timesheets@, date_open@, date_close@, status@, *total),
{
    broadcast use vstd::std_specs::hash::group_hash_axioms;

    let mut output = String::new();
    append_job_head(&mut output, view, date_open, date_close);
    append_job_invoice(&mut output, view, status, total);
    append_job_body(&mut output, view);
    let ghost before = output@;
    if timesheets.len() > 0 {
        let heading = Element::Heading { depth: 2, text: String::from_str("Timesheets") }.render();
        output.append(heading.as_str());
        output.append("\n");
        let mut employees: std::collections::HashSet<Id> = std::collections::HashSet::new();
        append_timesheets(&mut output, &mut employees, timesheets);
    }
    assert(output@ =~= before + job_timesheets(timesheets@));
    assert(output@ =~= job_text(*view, timesheets@, date_open@, date_close@, status@, *total));
    output
}

} // verus!
