//! The decisions of `clinvoice create`: what is asked for and what is stored.
use vstd::prelude::*;

use crate::args::{flag_of, Config, ConfigError, FlagOrArgument};
use crate::export::{Expense, Invoice, InvoiceDate, JobView};
use crate::money::Money;
use crate::time::{Duration, Timestamp};
use crate::views::{EmployeeView, Id, LocationView, OrganizationView};

verus! {

/// Where the condition that selects a stored record comes from: a file given on the command
/// line (if any; without one the user is asked), or the id that the configuration names.
#[derive(Debug)]
pub enum MatchSource {
    File(Option<String>),
    Id(Id),
}

/// The condition that selects a record: the configured id where `use_configured` is set
/// (an error where none is configured), the file otherwise.
pub open spec fn match_source(
    use_configured: bool,
    configured: Option<Id>,
    file: Option<String>,
) -> Option<MatchSource> {
    if use_configured {
        match configured {
            Some(id) => Some(MatchSource::Id(id)),
            None => None,
        }
    } else {
        Some(MatchSource::File(file))
    }
}

/// The condition that selects the employee: the default employee of the configuration where
/// `use_default` is set, the file otherwise.
pub fn employee_match(config: &Config, use_default: bool, file: Option<String>) -> (res: Result<
    MatchSource,
    ConfigError,
>)
    ensures
        match match_source(use_default, config.employees.id, file) {
            Some(m) => res == Ok::<MatchSource, ConfigError>(m),
            None => res matches Err(ConfigError::NotConfigured(key, section)) && key@ == "id"@
                && section@ == "employees"@,
        },
{
    if use_default {
        match config.employee_id_or_err() {
            Ok(id) => Ok(MatchSource::Id(id)),
            Err(e) => Err(e),
        }
    } else {
        Ok(MatchSource::File(file))
    }
}

/// The condition that selects the organization: the employer of the configuration where
/// `use_employer` is set, the file otherwise.
pub fn employer_match(config: &Config, use_employer: bool, file: Option<String>) -> (res: Result<
    MatchSource,
    ConfigError,
>)
    ensures
        match match_source(use_employer, config.organizations.employer_id, file) {
            Some(m) => res == Ok::<MatchSource, ConfigError>(m),
            None => res matches Err(ConfigError::NotConfigured(key, section)) && key@
                == "employer_id"@ && section@ == "organizations"@,
        },
{
    if use_employer {
        match config.employer_id_or_err() {
            Ok(id) => Ok(MatchSource::Id(id)),
            Err(e) => Err(e),
        }
    } else {
        Ok(MatchSource::File(file))
    }
}

/// The kind of contact that `clinvoice create contact` stores.
#[derive(Clone, Copy, Debug)]
pub enum ContactChoice {
    Address,
    Email,
    Phone,
    Other,
}

/// The kind of contact to store: an address where `--address` was given, else an email where
/// `--email` was, else a phone number where `--phone` was, else other text.
pub fn contact_choice(address: &FlagOrArgument<String>, email: bool, phone: bool) -> (res:
    ContactChoice)
    ensures
        res == (if flag_of(*address) {
            ContactChoice::Address
        } else if email {
            ContactChoice::Email
        } else if phone {
            ContactChoice::Phone
        } else {
            ContactChoice::Other
        }),
{
    if address.flag() {
        ContactChoice::Address
    } else if email {
        ContactChoice::Email
    } else if phone {
        ContactChoice::Phone
    } else {
        ContactChoice::Other
    }
}

/// The invoice of a new job: its hourly rate, and a date where it was issued, paid where
/// given.
pub fn new_invoice(hourly_rate: Money, issued: Option<Timestamp>, paid: Option<Timestamp>) -> (res:
    Invoice)
    ensures
        res.hourly_rate == hourly_rate,
        res.date == (match issued {
            Some(i) => Some(InvoiceDate { issued: i, paid }),
            None => None,
        }),
{
    let date = match issued {
        Some(i) => Some(InvoiceDate { issued: i, paid }),
        None => None,
    };
    Invoice { date, hourly_rate }
}

/// The rounding increment of a new job: the one given, else the configured default.
pub fn job_increment(increment: Option<Duration>, config: &Config) -> (res: Duration)
    ensures
        res == (match increment {
            Some(i) => i,
            None => config.jobs.default_increment,
        }),
{
    match increment {
        Some(i) => i,
        None => config.jobs.default_increment,
    }
}

/// The order in which new locations are created: the last name given (the outermost place)
/// first, the first name (the innermost) last, each inside the one before.
pub open spec fn creation_order(names: Seq<String>) -> Seq<String> {
    names.reverse()
}

/// The names of new locations in the order they are created (see `creation_order`); none
/// where no name is given.
pub fn location_creation_order(names: Vec<String>) -> (res: Vec<String>)
    ensures
        res@ == creation_order(names@),
        res.len() == names.len(),
{
    let mut rest = names;
    let ghost original = rest@;
    let mut res: Vec<String> = Vec::new();
    while rest.len() > 0
        invariant
            res@ + rest@.reverse() == original.reverse(),
        decreases rest.len(),
    {
        let ghost before = rest@;
        let name = rest.pop().unwrap();
        assert(before =~= rest@.push(name));
        assert(before.reverse() =~= seq![name] + rest@.reverse());
        res.push(name);
        assert(res@ + rest@.reverse() =~= original.reverse());
    }
    assert(rest@.reverse() =~= Seq::<String>::empty());
    assert(res@ =~= original.reverse());
    res
}

/// Where a new location goes.
#[derive(Clone, Copy, Debug)]
pub enum NewOuter {
    /// Inside no location.
    Nowhere,
    /// Inside the location selected with `--inside`.
    Selected,
    /// Inside the location created just before it.
    Previous,
}

/// A location to create: its name, and where it goes.
#[derive(Debug)]
pub struct NewLocation {
    pub name: String,
    pub outer: NewOuter,
}

/// The locations that `clinvoice create location` creates, in the order it creates them: the
/// names are given innermost first, so the last name is created first, inside the location
/// selected with `--inside` (`inside`) or inside none, and each next one inside the one created
/// just before it. No name, no location. (The locations matched by `--outside` then go inside
/// the last one created: see `put_inside`.)
pub fn location_plan(names: Vec<String>, inside: bool) -> (res: Vec<NewLocation>)
    ensures
        res.len() == names.len(),
        forall|i: int|
            0 <= i < res.len() ==> {
                &&& (#[trigger] res@[i]).name == names@[names.len() - 1 - i]
                &&& res@[i].outer == (if i > 0 {
                    NewOuter::Previous
                } else if inside {
                    NewOuter::Selected
                } else {
                    NewOuter::Nowhere
                })
            },
{
    let mut rest = names;
    let ghost original = rest@;
    let mut res: Vec<NewLocation> = Vec::new();
    while rest.len() > 0
        invariant
            res.len() + rest.len() == original.len(),
            rest@ == original.take(rest.len() as int),
            forall|i: int|
                0 <= i < res.len() ==> {
                    &&& (#[trigger] res@[i]).name == original[original.len() - 1 - i]
                    &&& res@[i].outer == (if i > 0 {
                        NewOuter::Previous
                    } else if inside {
                        NewOuter::Selected
                    } else {
                        NewOuter::Nowhere
                    })
                },
        decreases rest.len(),
    {
        let ghost before = rest@;
        let name = rest.pop().unwrap();
        assert(name == original[before.len() - 1]);
        assert(rest@ =~= original.take(rest.len() as int));
        let outer = if res.len() > 0 {
            NewOuter::Previous
        } else if inside {
            NewOuter::Selected
        } else {
            NewOuter::Nowhere
        };
        res.push(NewLocation { name, outer });
    }
    res
}

/// Puts each of `locations` directly inside `created`, as `--outside` does.
pub fn put_inside(locations: &mut Vec<LocationView>, created: &LocationView)
    ensures
        final(locations).len() == old(locations).len(),
        forall|k: int|
            0 <= k < final(locations).len() ==> {
                &&& (#[trigger] final(locations)@[k]).id == old(locations)@[k].id
                &&& final(locations)@[k].name == old(locations)@[k].name
                &&& final(locations)@[k].outer == Some(Box::new(*created))
            },
{
    let mut i: usize = 0;
    while i < locations.len()
        invariant
            i <= locations.len(),
            locations.len() == old(locations).len(),
            forall|k: int|
                0 <= k < i ==> {
                    &&& (#[trigger] locations@[k]).id == old(locations)@[k].id
                    &&& locations@[k].name == old(locations)@[k].name
                    &&& locations@[k].outer == Some(Box::new(*created))
                },
            forall|k: int| i <= k < locations.len() ==> #[trigger] locations@[k] == old(locations)@[k],
        decreases locations.len() - i,
    {
        let outer = created.duplicate();
        locations[i].outer = Some(Box::new(outer));
        i = i + 1;
    }
}

/// Whether `clinvoice create timesheet` asks for expenses: only for a timesheet that has
/// ended.
pub fn asks_for_expenses(time_end: &Option<Timestamp>) -> (res: bool)
    ensures
        res == (time_end is Some),
{
    time_end.is_some()
}

/// Why the date of a job could not be put together.
#[derive(Clone, Copy, Debug)]
pub enum DateError {
    /// A year was given without its month.
    MissingMonth,
    /// A month was given without its day.
    MissingDay,
    /// An hour was given without its minute.
    MissingMinute,
}

impl DateError {
    /// The message the user sees.
    pub fn message(&self) -> (res: &'static str)
        ensures
            res@ == date_error_text(*self),
    {
        match self {
            DateError::MissingMonth => "`--month` requires `--year`",
            DateError::MissingDay => "`--day` requires `--month`",
            DateError::MissingMinute => "`--hour` requires `--minute`",
        }
    }
}

/// The message of a `DateError`.
pub open spec fn date_error_text(e: DateError) -> Seq<char> {
    match e {
        DateError::MissingMonth => "`--month` requires `--year`"@,
        DateError::MissingDay => "`--day` requires `--month`"@,
        DateError::MissingMinute => "`--hour` requires `--minute`"@,
    }
}

/// The date (and time of day) a job was opened, put together from the parts given: nothing
/// without a year (the current date and time is used); with a year, its month and day are
/// needed, and with an hour, its minute.
pub fn job_open_date(
    year: Option<i32>,
    month: Option<u32>,
    day: Option<u32>,
    hour: Option<u32>,
    minute: Option<u32>,
) -> (res: Result<Option<(i32, u32, u32, Option<(u32, u32)>)>, DateError>)
    ensures
        match year {
            None => res == Ok::<Option<(i32, u32, u32, Option<(u32, u32)>)>, DateError>(None),
            Some(y) => match (month, day) {
                (None, _) => res == Err::<Option<(i32, u32, u32, Option<(u32, u32)>)>, DateError>(
                    DateError::MissingMonth,
                ),
                (Some(_), None) => res == Err::<
                    Option<(i32, u32, u32, Option<(u32, u32)>)>,
                    DateError,
                >(DateError::MissingDay),
                (Some(mo), Some(d)) => match (hour, minute) {
                    (Some(_), None) => res == Err::<
                        Option<(i32, u32, u32, Option<(u32, u32)>)>,
                        DateError,
                    >(DateError::MissingMinute),
                    (Some(h), Some(mi)) => res == Ok::<
                        Option<(i32, u32, u32, Option<(u32, u32)>)>,
                        DateError,
                    >(Some((y, mo, d, Some((h, mi))))),
                    (None, _) => res == Ok::<
                        Option<(i32, u32, u32, Option<(u32, u32)>)>,
                        DateError,
                    >(Some((y, mo, d, None))),
                },
            },
        },
{
    match year {
        None => Ok(None),
        Some(y) => {
            let mo = match month {
                Some(mo) => mo,
                None => return Err(DateError::MissingMonth),
            };
            let d = match day {
                Some(d) => d,
                None => return Err(DateError::MissingDay),
            };
            let time = match hour {
                Some(h) => match minute {
                    Some(mi) => Some((h, mi)),
                    None => return Err(DateError::MissingMinute),
                },
                None => None,
            };
            Ok(Some((y, mo, d, time)))
        },
    }
}

/// The local wall-clock time a job opens at, from a date put together by `job_open_date`: that
/// day at the hour and minute given, or at midnight without them.
pub fn opening_wall_clock(date: (i32, u32, u32, Option<(u32, u32)>)) -> (res: (i32, u32, u32, u32, u32))
    ensures
        res == (match date.3 {
            Some((h, mi)) => (date.0, date.1, date.2, h, mi),
            None => (date.0, date.1, date.2, 0u32, 0u32),
        }),
{
    let (year, month, day, time) = date;
    let (hour, minute) = match time {
        Some(t) => t,
        None => (0, 0),
    };
    (year, month, day, hour, minute)
}

/// A job as it is handed to the store to be created; the store gives it its id.
#[derive(Debug)]
pub struct NewJob {
    pub client: OrganizationView,
    pub date_close: Option<Timestamp>,
    pub date_open: Timestamp,
    pub increment: Duration,
    pub invoice: Invoice,
    pub notes: String,
    pub objectives: String,
}

/// The job that `clinvoice create job` creates for `client`: closed, invoiced and paid at the
/// points given (see `new_invoice`), opened at the point given or else `now`, rounding time to
/// the increment given or else the configured one (see `job_increment`), with the notes and
/// objectives given.
pub fn new_job(
    client: OrganizationView,
    date_close: Option<Timestamp>,
    date_open: Option<Timestamp>,
    now: Timestamp,
    increment: Option<Duration>,
    config: &Config,
    hourly_rate: Money,
    issued: Option<Timestamp>,
    paid: Option<Timestamp>,
    notes: String,
    objectives: String,
) -> (res: NewJob)
    ensures
        res.client == client,
        res.date_close == date_close,
        res.date_open == (match date_open {
            Some(d) => d,
            None => now,
        }),
        res.increment == (match increment {
            Some(i) => i,
            None => config.jobs.default_increment,
        }),
        res.invoice.hourly_rate == hourly_rate,
        res.invoice.date == (match issued {
            Some(i) => Some(InvoiceDate { issued: i, paid }),
            None => None,
        }),
        res.notes == notes,
        res.objectives == objectives,
{
    let opened = match date_open {
        Some(d) => d,
        None => now,
    };
    NewJob {
        client,
        date_close,
        date_open: opened,
        increment: job_increment(increment, config),
        invoice: new_invoice(hourly_rate, issued, paid),
        notes,
        objectives,
    }
}

/// The job that `clinvoice create job` of the earlier command line creates for `client`: open
/// from `date_open` (the local wall-clock time of `opening_wall_clock`, or the current time),
/// not closed, with an invoice that has not been issued, no notes, and the objectives written.
pub fn opened_job(
    client: OrganizationView,
    date_open: Timestamp,
    increment: Duration,
    hourly_rate: Money,
    objectives: String,
) -> (res: NewJob)
    ensures
        res.client == client,
        res.date_close is None,
        res.date_open == date_open,
        res.increment == increment,
        res.invoice.date is None,
        res.invoice.hourly_rate == hourly_rate,
        res.notes@ == Seq::<char>::empty(),
        res.objectives == objectives,
{
    NewJob {
        client,
        date_close: None,
        date_open,
        increment,
        invoice: Invoice { date: None, hourly_rate },
        notes: String::new(),
        objectives,
    }
}

/// A timesheet as it is handed to the store to be created; the store gives it its id.
#[derive(Debug)]
pub struct NewTimesheet {
    pub employee: EmployeeView,
    pub expenses: Vec<Expense>,
    pub job: JobView,
    pub time_begin: Timestamp,
    pub time_end: Option<Timestamp>,
    pub work_notes: String,
}

/// The timesheet that `clinvoice create timesheet` creates: begun at the point given or else
/// `now`, ended at the point given (if any), with the expenses entered only where it has ended
/// (see `asks_for_expenses`), and the work notes given or else none.
pub fn new_timesheet(
    employee: EmployeeView,
    expenses: Vec<Expense>,
    job: JobView,
    time_begin: Option<Timestamp>,
    time_end: Option<Timestamp>,
    work_notes: Option<String>,
    now: Timestamp,
) -> (res: NewTimesheet)
    ensures
        res.employee == employee,
        res.expenses@ == (if time_end is Some {
            expenses@
        } else {
            Seq::<Expense>::empty()
        }),
        res.job == job,
        res.time_begin == (match time_begin {
            Some(t) => t,
            None => now,
        }),
        res.time_end == time_end,
        res.work_notes@ == (match work_notes {
            Some(w) => w@,
            None => Seq::<char>::empty(),
        }),
{
    let kept = if asks_for_expenses(&time_end) {
        expenses
    } else {
        Vec::new()
    };
    let begun = match time_begin {
        Some(t) => t,
        None => now,
    };
    let notes = match work_notes {
        Some(w) => w,
        None => String::new(),
    };
    NewTimesheet { employee, expenses: kept, job, time_begin: begun, time_end, work_notes: notes }
}

} // verus!
