//! The decisions of `clinvoice retrieve`: what is printed, and how jobs are exported.
use vstd::prelude::*;

use crate::args::RetrieveCommand;
use crate::export::{InvoiceDate, JobView, TimesheetView};
use crate::interactive::job_positions;
use crate::sorting::{sort_by, min_index_by, lemma_min_index_by_bounds};
use crate::text::{int_text, int_to_text, push_char, seq_lt, str_lt};
use crate::time::{before, Timestamp};
use crate::views::{Contact, Id};

verus! {

/// Whether `clinvoice retrieve` prints what it retrieved: not for employees and organizations
/// that are being set as the default, nor for jobs being exported.
pub open spec fn prints_retrieved(command: RetrieveCommand) -> bool {
    match command {
        RetrieveCommand::Employee { set_default, .. } => !set_default,
        RetrieveCommand::Job { export, .. } => !export,
        RetrieveCommand::Organization { set_employer, .. } => !set_employer,
        _ => true,
    }
}

/// Whether `clinvoice retrieve` prints what it retrieved (see `prints_retrieved`).
pub fn prints(command: &RetrieveCommand) -> (res: bool)
    ensures
        res == prints_retrieved(*command),
{
    match command {
        RetrieveCommand::Employee { set_default, .. } => !*set_default,
        RetrieveCommand::Job { export, .. } => !*export,
        RetrieveCommand::Organization { set_employer, .. } => !*set_employer,
        _ => true,
    }
}

/// Whether an exported job's invoice is still unpaid: it has no paid date.
pub open spec fn unpaid(job: JobView) -> bool {
    match job.invoice.date {
        Some(d) => d.paid is None,
        None => true,
    }
}

/// Marks the invoice of each unpaid job among `jobs` as issued `now` (and unpaid), as
/// exporting does; paid jobs are left as they are.
pub fn issue_unpaid(jobs: &mut Vec<JobView>, now: Timestamp)
    ensures
        final(jobs).len() == old(jobs).len(),
        forall|k: int|
            0 <= k < final(jobs).len() ==> {
                &&& (#[trigger] final(jobs)@[k]).invoice.date == (if unpaid(old(jobs)@[k]) {
                    Some(InvoiceDate { issued: now, paid: None })
                } else {
                    old(jobs)@[k].invoice.date
                })
                &&& final(jobs)@[k].invoice.hourly_rate == old(jobs)@[k].invoice.hourly_rate
                &&& final(jobs)@[k].client == old(jobs)@[k].client
                &&& final(jobs)@[k].date_close == old(jobs)@[k].date_close
                &&& final(jobs)@[k].date_open == old(jobs)@[k].date_open
                &&& final(jobs)@[k].id == old(jobs)@[k].id
                &&& final(jobs)@[k].increment == old(jobs)@[k].increment
                &&& final(jobs)@[k].notes == old(jobs)@[k].notes
                &&& final(jobs)@[k].objectives == old(jobs)@[k].objectives
            },
{
    let mut i: usize = 0;
    while i < jobs.len()
        invariant
            i <= jobs.len(),
            jobs.len() == old(jobs).len(),
            forall|k: int|
                0 <= k < i ==> {
                    &&& (#[trigger] jobs@[k]).invoice.date == (if unpaid(old(jobs)@[k]) {
                        Some(InvoiceDate { issued: now, paid: None })
                    } else {
                        old(jobs)@[k].invoice.date
                    })
                    &&& jobs@[k].invoice.hourly_rate == old(jobs)@[k].invoice.hourly_rate
                    &&& jobs@[k].client == old(jobs)@[k].client
                    &&& jobs@[k].date_close == old(jobs)@[k].date_close
                    &&& jobs@[k].date_open == old(jobs)@[k].date_open
                    &&& jobs@[k].id == old(jobs)@[k].id
                    &&& jobs@[k].increment == old(jobs)@[k].increment
                    &&& jobs@[k].notes == old(jobs)@[k].notes
                    &&& jobs@[k].objectives == old(jobs)@[k].objectives
                },
            forall|k: int| i <= k < jobs.len() ==> #[trigger] jobs@[k] == old(jobs)@[k],
        decreases jobs.len() - i,
    {
        let is_unpaid = match &jobs[i].invoice.date {
            Some(d) => d.paid.is_none(),
            None => true,
        };
        if is_unpaid {
            jobs[i].invoice.date = Some(InvoiceDate { issued: now, paid: None });
        }
        i = i + 1;
    }
}

/// The jobs that `clinvoice retrieve job --export` offers to export: the positions of the
/// closed ones among `jobs`, in order.
pub fn export_candidates(jobs: &Vec<JobView>) -> (res: Vec<usize>)
    ensures
        forall|k: int|
            0 <= k < res.len() ==> (#[trigger] res@[k]) < jobs.len() && jobs@[res@[k] as int].date_close is Some,
        forall|k: int, l: int| 0 <= k < l < res.len() ==> res@[k] < res@[l],
        forall|i: int|
            0 <= i < jobs.len() && (#[trigger] jobs@[i].date_close is Some) ==> res@.contains(
                i as usize,
            ),
{
    job_positions(jobs, true)
}

/// `name` with every space replaced by a hyphen.
pub open spec fn hyphenated(name: Seq<char>) -> Seq<char> {
    name.map_values(|c: char| if c == ' ' { '-' } else { c })
}

/// The name of the file a job is exported to: the client's name with spaces replaced by
/// hyphens, `--`, the job's id, a dot and the format's extension.
pub open spec fn export_file_name_text(client_name: Seq<char>, id: Id, extension: Seq<char>) -> Seq<
    char,
> {
    hyphenated(client_name) + "--"@ + int_text(id as int) + "."@ + extension
}

/// The name of the file a job is exported to (see `export_file_name_text`).
pub fn export_file_name(client_name: &str, id: Id, extension: &str) -> (res: String)
    ensures
        res@ == export_file_name_text(client_name@, id, extension@),
{
    let n = client_name.unicode_len();
    let mut res = String::new();
    let mut i: usize = 0;
    while i < n
        invariant
            n == client_name@.len(),
            i <= n,
            res@ == hyphenated(client_name@.take(i as int)),
        decreases n - i,
    {
        let c = client_name.get_char(i);
        let out = if c == ' ' { '-' } else { c };
        push_char(&mut res, out);
        assert(hyphenated(client_name@.take(i + 1)) =~= hyphenated(client_name@.take(i as int)).push(out));
        i = i + 1;
    }
    assert(client_name@.take(n as int) =~= client_name@);
    res.append("--");
    let number = int_to_text(id);
    res.append(number.as_str());
    res.append(".");
    res.append(extension);
    res
}

/// The order of timesheets: by when they began.
pub open spec fn by_time_begin() -> spec_fn(TimesheetView, TimesheetView) -> bool {
    |a: TimesheetView, b: TimesheetView| before(a.time_begin, b.time_begin)
}

/// The order of contacts: by label, as text sorts.
pub open spec fn by_contact_label() -> spec_fn(Contact, Contact) -> bool {
    |a: Contact, b: Contact| seq_lt(a.label@, b.label@)
}

/// `timesheets` sorted by when they began, those that began together in the order given.
pub fn sort_timesheets(timesheets: Vec<TimesheetView>) -> (res: Vec<TimesheetView>)
    ensures
        res@ == sort_by(timesheets@, by_time_begin()),
{
    let mut rest = timesheets;
    let ghost original = rest@;
    let mut res: Vec<TimesheetView> = Vec::new();
    while rest.len() > 0
        invariant
            res@ + sort_by(rest@, by_time_begin()) == sort_by(original, by_time_begin()),
        decreases rest.len(),
    {
        let mut m: usize = 0;
        let mut i: usize = 1;
        assert(rest@.take(1).drop_last().len() == 0);
        while i < rest.len()
            invariant
                1 <= i <= rest.len(),
                m < i,
                m as int == min_index_by(rest@.take(i as int), by_time_begin()),
            decreases rest.len() - i,
        {
            let ghost t = rest@.take(i + 1);
            assert(t.drop_last() =~= rest@.take(i as int));
            assert(t.last() == rest@[i as int]);
            assert(t[m as int] == rest@[m as int]);
            if rest[i].time_begin.is_before(&rest[m].time_begin) {
                m = i;
            }
            i = i + 1;
        }
        assert(rest@.take(rest.len() as int) =~= rest@);
        let ghost before_rest = rest@;
        proof {
            lemma_min_index_by_bounds(before_rest, by_time_begin());
        }
        let least = rest.remove(m);
        assert(sort_by(before_rest, by_time_begin()) == seq![least] + sort_by(
            rest@,
            by_time_begin(),
        ));
        res.push(least);
        assert(res@ + sort_by(rest@, by_time_begin()) =~= sort_by(original, by_time_begin()));
    }
    assert(res@ =~= sort_by(original, by_time_begin()));
    res
}

/// `contacts` sorted by label, those of equal label in the order given.
pub fn sort_contacts(contacts: Vec<Contact>) -> (res: Vec<Contact>)
    ensures
        res@ == sort_by(contacts@, by_contact_label()),
{
    let mut rest = contacts;
    let ghost original = rest@;
    let mut res: Vec<Contact> = Vec::new();
    while rest.len() > 0
        invariant
            res@ + sort_by(rest@, by_contact_label()) == sort_by(original, by_contact_label()),
        decreases rest.len(),
    {
        let mut m: usize = 0;
        let mut i: usize = 1;
        assert(rest@.take(1).drop_last().len() == 0);
        while i < rest.len()
            invariant
                1 <= i <= rest.len(),
                m < i,
                m as int == min_index_by(rest@.take(i as int), by_contact_label()),
            decreases rest.len() - i,
        {
            let ghost t = rest@.take(i + 1);
            assert(t.drop_last() =~= rest@.take(i as int));
            assert(t.last() == rest@[i as int]);
            assert(t[m as int] == rest@[m as int]);
            if str_lt(rest[i].label.as_str(), rest[m].label.as_str()) {
                m = i;
            }
            i = i + 1;
        }
        assert(rest@.take(rest.len() as int) =~= rest@);
        let ghost before_rest = rest@;
        proof {
            lemma_min_index_by_bounds(before_rest, by_contact_label());
        }
        let least = rest.remove(m);
        assert(sort_by(before_rest, by_contact_label()) == seq![least] + sort_by(
            rest@,
            by_contact_label(),
        ));
        res.push(least);
        assert(res@ + sort_by(rest@, by_contact_label()) =~= sort_by(original, by_contact_label()));
    }
    assert(res@ =~= sort_by(original, by_contact_label()));
    res
}

} // verus!
