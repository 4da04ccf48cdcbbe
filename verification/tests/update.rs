use clinvoice::args::FlagOrArgument;
use clinvoice::export::{Invoice, InvoiceDate, JobView, TimesheetView};
use clinvoice::money::Money;
use clinvoice::time::{Duration, Timestamp};
use clinvoice::update::{
	apply_job_dates,
	apply_timesheet_times,
	first_line,
	job_dates_requested_exec,
	offers_new_location,
	timesheet_times_requested,
};
use clinvoice::views::{
	Contact,
	ContactKind,
	EmployeeStatus,
	EmployeeView,
	LocationView,
	OrganizationView,
	PersonView,
};

fn at(secs: i64) -> Timestamp
{
	Timestamp::new(secs, 0).unwrap()
}

fn place(name: &str) -> LocationView
{
	LocationView { id: 0, name: name.into(), outer: None }
}

fn organization() -> OrganizationView
{
	OrganizationView { id: 1, location: place("Phoenix"), name: "Big Old Test".into() }
}

fn job(date_close: Option<i64>, invoice: Option<(i64, Option<i64>)>) -> JobView
{
	JobView {
		client: organization(),
		date_close: date_close.map(at),
		date_open: at(100),
		id: 7,
		increment: Duration { secs: 900, nanos: 0 },
		invoice: Invoice {
			date: invoice.map(|(issued, paid)| InvoiceDate { issued: at(issued), paid: paid.map(at) }),
			hourly_rate: Money::new(20_00, 2, "USD".into()),
		},
		notes: "notes".into(),
		objectives: "objectives".into(),
	}
}

fn dates(job: &JobView) -> (Option<i64>, Option<(i64, Option<i64>)>)
{
	(
		job.date_close.map(|t| t.secs()),
		job.invoice.date.as_ref().map(|d| (d.issued.secs(), d.paid.map(|t| t.secs()))),
	)
}

#[test]
fn first_lines()
{
	assert_eq!(first_line("Contact\nEmployee"), "Contact");
	assert_eq!(first_line("Contact\r\nEmployee"), "Contact");
	assert_eq!(first_line("just one"), "just one");
	assert_eq!(first_line("\nsecond"), "");
	assert_eq!(first_line("ends in\r"), "ends in\r");
}

#[test]
fn dates_are_requested_by_any_option()
{
	let none: FlagOrArgument<Timestamp> = FlagOrArgument::Flag(false);
	let set: FlagOrArgument<Timestamp> = FlagOrArgument::Flag(true);
	let given = FlagOrArgument::Argument(at(5));
	assert!(!job_dates_requested_exec(&none, &none, &none, false));
	assert!(job_dates_requested_exec(&set, &none, &none, false));
	assert!(job_dates_requested_exec(&none, &given, &none, false));
	assert!(job_dates_requested_exec(&none, &none, &set, false));
	assert!(job_dates_requested_exec(&none, &none, &none, true));
	assert!(!timesheet_times_requested(&none, &none));
	assert!(timesheet_times_requested(&given, &none));
	assert!(timesheet_times_requested(&none, &set));
}

#[test]
fn reopening_clears_all_dates()
{
	let mut j = job(Some(500), Some((600, Some(700))));
	assert!(!apply_job_dates(&mut j, Some(at(1)), Some(at(2)), Some(at(3)), true));
	assert_eq!(dates(&j), (None, None));
	assert_eq!(j.id, 7);
	assert_eq!(j.date_open.secs(), 100);
}

#[test]
fn closing_issuing_and_paying()
{
	let mut j = job(None, None);
	assert!(apply_job_dates(&mut j, Some(at(500)), None, None, false));
	assert_eq!(dates(&j), (Some(500), None));

	let mut j = job(None, None);
	assert!(!apply_job_dates(&mut j, None, None, Some(at(800)), false));
	assert_eq!(dates(&j), (None, None));

	let mut j = job(None, None);
	assert!(!apply_job_dates(&mut j, None, Some(at(600)), None, false));
	assert_eq!(dates(&j), (None, Some((600, None))));

	let mut j = job(Some(500), Some((600, None)));
	assert!(!apply_job_dates(&mut j, None, None, Some(at(800)), false));
	assert_eq!(dates(&j), (Some(500), Some((600, Some(800)))));

	let mut j = job(None, Some((600, Some(700))));
	assert!(apply_job_dates(&mut j, Some(at(900)), Some(at(1000)), Some(at(1100)), false));
	assert_eq!(dates(&j), (Some(900), Some((1000, Some(1100)))));
}

fn timesheet(begin: i64, end: Option<i64>) -> TimesheetView
{
	TimesheetView {
		employee: EmployeeView {
			contact_info: Vec::new(),
			id: 2,
			organization: organization(),
			person: PersonView { id: 2, name: "Testy McTesterson".into() },
			status: EmployeeStatus::Employed,
			title: "CEO of Tests".into(),
		},
		expenses: Vec::new(),
		id: 9,
		job: job(None, None),
		time_begin: at(begin),
		time_end: end.map(at),
		work_notes: "- Wrote the test.".into(),
	}
}

#[test]
fn restarting_and_stopping()
{
	let mut t = timesheet(100, None);
	apply_timesheet_times(&mut t, None, Some(at(200)));
	assert_eq!((t.time_begin.secs(), t.time_end.map(|e| e.secs())), (100, Some(200)));

	let mut t = timesheet(100, Some(200));
	apply_timesheet_times(&mut t, Some(at(300)), Some(at(400)));
	assert_eq!((t.time_begin.secs(), t.time_end.map(|e| e.secs())), (300, None));

	let mut t = timesheet(100, Some(200));
	apply_timesheet_times(&mut t, Some(at(150)), None);
	assert_eq!((t.time_begin.secs(), t.time_end.map(|e| e.secs())), (150, None));

	let mut t = timesheet(100, Some(200));
	apply_timesheet_times(&mut t, None, None);
	assert_eq!((t.time_begin.secs(), t.time_end.map(|e| e.secs())), (100, Some(200)));
	assert_eq!(t.work_notes, "- Wrote the test.");
}

#[test]
fn only_addresses_may_move()
{
	let address = Contact { label: "Office".into(), kind: ContactKind::Address(place("Phoenix")) };
	let email = Contact { label: "Work Email".into(), kind: ContactKind::Email("foo@bar.io".into()) };
	let other = Contact { label: "Fax".into(), kind: ContactKind::Other("none".into()) };
	assert!(offers_new_location(&address));
	assert!(!offers_new_location(&email));
	assert!(!offers_new_location(&other));
}
