//! The decisions of `clinvoice update`: what changes each selected record undergoes.
use vstd::prelude::*;

use crate::args::{flag_of, FlagOrArgument};
use crate::export::{InvoiceDate, JobView, TimesheetView};
use crate::text::push_char;
use crate::time::Timestamp;
use crate::views::{Contact, ContactKind};

verus! {

/// The first line of `s`: everything before the first line feed, without a carriage return
/// that ends it; all of `s` when it has no line feed (as `str::lines` gives it).
pub open spec fn first_line_of(s: Seq<char>) -> Seq<char> {
    if exists|k: int| 0 <= k < s.len() && s[k] == '\n' {
        let k = choose|k: int|
            0 <= k < s.len() && s[k] == '\n' && forall|j: int| 0 <= j < k ==> s[j] != '\n';
        let line = s.take(k);
        if line.len() > 0 && line.last() == '\r' {
            line.drop_last()
        } else {
            line
        }
    } else {
        s
    }
}

/// The first line of `s`. An empty text has no line at all (`str::lines` yields none of it),
/// so `requires` leaves it out.
pub fn first_line(s: &str) -> (res: String)
    requires
        s@.len() > 0,
    ensures
        res@ == first_line_of(s@),
{
    let n = s.unicode_len();
    let mut i: usize = 0;
    let mut line = String::new();
    while i < n
        invariant
            n == s@.len(),
            i <= n,
            line@ == s@.take(i as int),
            forall|j: int| 0 <= j < i ==> s@[j] != '\n',
        decreases n - i,
    {
        let c = s.get_char(i);
        if c == '\n' {
            assert(forall|j: int| 0 <= j < i ==> s@[j] != '\n');
            assert(s@[i as int] == '\n');
            let ghost k = choose|k: int|
                0 <= k < s@.len() && s@[k] == '\n' && forall|j: int| 0 <= j < k ==> s@[j] != '\n';
            assert(k == i) by {
                if k < i {
                } else if k > i {
                    assert(s@[i as int] != '\n');
                }
            }
            let len = line.unicode_len();
            if len > 0 && line.get_char(len - 1) == '\r' {
                let mut trimmed = String::new();
                let mut j: usize = 0;
                while j < len - 1
                    invariant
                        len == line@.len(),
                        len > 0,
                        j <= len - 1,
                        trimmed@ == line@.take(j as int),
                    decreases len - 1 - j,
                {
                    push_char(&mut trimmed, line.get_char(j));
                    assert(line@.take(j + 1) =~= line@.take(j as int).push(line@[j as int]));
                    j = j + 1;
                }
                assert(trimmed@ =~= line@.drop_last());
                return trimmed;
            }
            return line;
        }
        push_char(&mut line, c);
        assert(s@.take(i + 1) =~= s@.take(i as int).push(c));
        i = i + 1;
    }
    assert(s@.take(n as int) =~= s@);
    line
}

/// Whether `clinvoice update job` changes dates itself (closing, invoicing, reopening) rather
/// than only letting the user edit the jobs.
pub open spec fn job_dates_requested(
    close: FlagOrArgument<Timestamp>,
    issued: FlagOrArgument<Timestamp>,
    paid: FlagOrArgument<Timestamp>,
    reopen: bool,
) -> bool {
    flag_of(close) || flag_of(issued) || flag_of(paid) || reopen
}

/// Whether `clinvoice update job` changes dates itself (closing, invoicing, reopening) rather
/// than only letting the user edit the jobs.
pub fn job_dates_requested_exec(
    close: &FlagOrArgument<Timestamp>,
    issued: &FlagOrArgument<Timestamp>,
    paid: &FlagOrArgument<Timestamp>,
    reopen: bool,
) -> (res: bool)
    ensures
        res == job_dates_requested(*close, *issued, *paid, reopen),
{
    close.flag() || issued.flag() || paid.flag() || reopen
}

/// Whether `clinvoice update timesheet` changes times itself rather than only letting the
/// user edit the timesheets.
pub fn timesheet_times_requested(
    restart: &FlagOrArgument<Timestamp>,
    stop: &FlagOrArgument<Timestamp>,
) -> (res: bool)
    ensures
        res == (flag_of(*restart) || flag_of(*stop)),
{
    restart.flag() || stop.flag()
}

/// The dates of a job after `clinvoice update job`, given the points in time chosen for
/// closing, issuing and paying (`None` where not asked for) and whether to reopen.
///
/// Reopening clears the closing date and the invoice dates. Otherwise closing sets the
/// closing date, issuing sets a new invoice date that is unpaid, and paying sets the paid date
/// of an invoice that has been issued (and nothing where it has not).
pub open spec fn updated_dates(
    date_close: Option<Timestamp>,
    invoice_date: Option<InvoiceDate>,
    close: Option<Timestamp>,
    issued: Option<Timestamp>,
    paid: Option<Timestamp>,
    reopen: bool,
) -> (Option<Timestamp>, Option<InvoiceDate>) {
    if reopen {
        (None, None)
    } else {
        let date_close = if close is Some { close } else { date_close };
        let invoice_date = match issued {
            Some(i) => Some(InvoiceDate { issued: i, paid: None }),
            None => invoice_date,
        };
        let invoice_date = match (paid, invoice_date) {
            (Some(p), Some(d)) => Some(InvoiceDate { issued: d.issued, paid: Some(p) }),
            _ => invoice_date,
        };
        (date_close, invoice_date)
    }
}

/// Changes the dates of `job` as `clinvoice update job` does (see `updated_dates`), and says
/// whether the user is to be asked for the expenses of closing it.
pub fn apply_job_dates(
    job: &mut JobView,
    close: Option<Timestamp>,
    issued: Option<Timestamp>,
    paid: Option<Timestamp>,
    reopen: bool,
) -> (ask_expenses: bool)
    ensures
        (final(job).date_close, final(job).invoice.date) == updated_dates(
            old(job).date_close,
            old(job).invoice.date,
            close,
            issued,
            paid,
            reopen,
        ),
        final(job).client == old(job).client,
        final(job).date_open == old(job).date_open,
        final(job).id == old(job).id,
        final(job).increment == old(job).increment,
        final(job).invoice.hourly_rate == old(job).invoice.hourly_rate,
        final(job).notes == old(job).notes,
        final(job).objectives == old(job).objectives,
        ask_expenses == (!reopen && close is Some),
{
    if reopen {
        job.date_close = None;
        job.invoice.date = None;
        return false;
    }
    let ask_expenses = close.is_some();
    if ask_expenses {
        job.date_close = close;
    }
    match issued {
        Some(i) => {
            job.invoice.date = Some(InvoiceDate { issued: i, paid: None });
        },
        None => {},
    }
    match paid {
        Some(p) => {
            let taken = job.invoice.date.take();
            match taken {
                Some(d) => {
                    job.invoice.date = Some(InvoiceDate { issued: d.issued, paid: Some(p) });
                },
                None => {},
            }
        },
        None => {},
    }
    ask_expenses
}

/// The times of a timesheet after `clinvoice update timesheet`: restarting makes it active
/// again, beginning at the time given and not ended; otherwise stopping marks it finished at
/// the time given.
pub open spec fn updated_times(
    time_begin: Timestamp,
    time_end: Option<Timestamp>,
    restart: Option<Timestamp>,
    stop: Option<Timestamp>,
) -> (Timestamp, Option<Timestamp>) {
    match restart {
        Some(r) => (r, None),
        None => if stop is Some {
            (time_begin, stop)
        } else {
            (time_begin, time_end)
        },
    }
}

/// Changes the times of `timesheet` as `clinvoice update timesheet` does (see
/// `updated_times`).
pub fn apply_timesheet_times(
    timesheet: &mut TimesheetView,
    restart: Option<Timestamp>,
    stop: Option<Timestamp>,
)
    ensures
        (final(timesheet).time_begin, final(timesheet).time_end) == updated_times(
            old(timesheet).time_begin,
            old(timesheet).time_end,
            restart,
            stop,
        ),
        final(timesheet).employee == old(timesheet).employee,
        final(timesheet).expenses == old(timesheet).expenses,
        final(timesheet).id == old(timesheet).id,
        final(timesheet).job == old(timesheet).job,
        final(timesheet).work_notes == old(timesheet).work_notes,
{
    match restart {
        Some(r) => {
            timesheet.time_begin = r;
            timesheet.time_end = None;
        },
        None => {
            if stop.is_some() {
                timesheet.time_end = stop;
            }
        },
    }
}

/// Whether `clinvoice update contact` offers to move a contact to another location: only
/// addresses are offered.
pub fn offers_new_location(contact: &Contact) -> (res: bool)
    ensures
        res == (contact.kind is Address),
{
    match contact.kind {
        ContactKind::Address(_) => true,
        _ => false,
    }
}

} // verus!
