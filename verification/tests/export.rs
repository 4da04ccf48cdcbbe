use std::collections::HashSet;

use clinvoice::export::{self, Expense, Invoice, InvoiceDate, JobView, TimesheetView};
use clinvoice::money::Money;
use clinvoice::time::{Duration, Timestamp};
use clinvoice::views::{
	ContactView,
	EmployeeStatus,
	EmployeeView,
	LocationView,
	OrganizationView,
	PersonView,
};

/// 2022-01-01 00:00:00 UTC.
const NEW_YEAR: i64 = 1_640_995_200;

fn at(secs: i64) -> Timestamp
{
	Timestamp::new(secs, 0).unwrap()
}

fn place(name: &str, outer: Option<LocationView>) -> LocationView
{
	LocationView { id: 0, name: name.into(), outer: outer.map(Box::new) }
}

fn organization() -> OrganizationView
{
	let earth = place("Earth", None);
	let usa = place("USA", Some(earth));
	let arizona = place("Arizona", Some(usa));
	let phoenix = place("Phoenix", Some(arizona));
	OrganizationView { id: 1, location: place("1337 Some Street", Some(phoenix)), name: "Big Old Test".into() }
}

fn employee(id: i64, name: &str, title: &str, contacts: Vec<(String, ContactView)>) -> EmployeeView
{
	EmployeeView {
		contact_info: contacts,
		id,
		organization: organization(),
		person: PersonView { id, name: name.into() },
		status: EmployeeStatus::Employed,
		title: title.into(),
	}
}

fn usd(cents: i64) -> Money
{
	Money::new(cents, 2, "USD".into())
}

fn job_view(id: i64) -> JobView
{
	JobView {
		client: organization(),
		date_close: None,
		date_open: at(NEW_YEAR),
		id,
		increment: Duration { secs: 900, nanos: 0 },
		invoice: Invoice { date: None, hourly_rate: usd(20_00) },
		notes: "- I tested the function.".into(),
		objectives: "- I want to test this function.".into(),
	}
}

fn timesheet(employee: EmployeeView, expenses: Vec<Expense>, begin: i64, end: Option<i64>, notes: &str) -> TimesheetView
{
	TimesheetView {
		employee,
		expenses,
		id: 9,
		job: job_view(7),
		time_begin: at(begin),
		time_end: end.map(at),
		work_notes: notes.into(),
	}
}

#[test]
fn job()
{
	let view = job_view(7);
	assert_eq!(
		export::job(&view, &Vec::new(), "2022-01-01 00:00:00 +00:00", "", "", &usd(0)),
		"# Job #7

- **Client**: Big Old Test @ 1337 Some Street, Phoenix, Arizona, USA, Earth
- **Date Opened**: 2022-01-01 00:00:00 +00:00

## Invoice

- **Hourly Rate** 20.00 USD
- **Total Amount Owed**: 0.00 USD

## Objectives

- I want to test this function.

## Notes

- I tested the function.\n\n"
	);

	let mut view = job_view(7);
	view.date_close = Some(at(NEW_YEAR + 4 * 3600 + 1800));
	let timesheets = vec![
		timesheet(
			employee(2, "Testy McTesterson", "CEO of Tests", Vec::new()),
			Vec::new(),
			NEW_YEAR + 2 * 3600,
			Some(NEW_YEAR + 2 * 3600 + 1800),
			"- Wrote the test.",
		),
		timesheet(
			employee(3, "Bob", "Janitor", Vec::new()),
			vec![Expense {
				id: 1,
				category: "Service".into(),
				cost: usd(20_00),
				description: "Paid for someone else to clean".into(),
				timesheet_id: 9,
			}],
			NEW_YEAR + 3 * 3600,
			Some(NEW_YEAR + 3 * 3600 + 1800),
			"- Clean the deck.",
		),
	];

	assert_eq!(
		export::job(
			&view,
			&timesheets,
			"2022-01-01 00:00:00 +00:00",
			"2022-01-01 04:30:00",
			"",
			&usd(40_00)
		),
		"# Job #7

- **Client**: Big Old Test @ 1337 Some Street, Phoenix, Arizona, USA, Earth
- **Date Opened**: 2022-01-01 00:00:00 +00:00
- **Date Closed**: 2022-01-01 04:30:00

## Invoice

- **Hourly Rate** 20.00 USD
- **Total Amount Owed**: 40.00 USD

## Objectives

- I want to test this function.

## Notes

- I tested the function.

## Timesheets

### 2022-01-01 02:00:00 UTC – 2022-01-01 02:30:00

#### Employee Information

- **Name**: Testy McTesterson
- **Employer**: Big Old Test @ 1337 Some Street, Phoenix, Arizona, USA, Earth
- **Title**: CEO of Tests

#### Work Notes

- Wrote the test.

### 2022-01-01 03:00:00 UTC – 2022-01-01 03:30:00

#### Employee Information

- **Name**: Bob
- **Employer**: Big Old Test @ 1337 Some Street, Phoenix, Arizona, USA, Earth
- **Title**: Janitor

#### Expenses

##### Service – 20.00 USD

Paid for someone else to clean

#### Work Notes

- Clean the deck.\n\n"
	);
}

#[test]
fn job_status_line_only_with_invoice_date()
{
	let mut view = job_view(3);
	view.notes = String::new();
	view.invoice.date = Some(InvoiceDate { issued: at(NEW_YEAR), paid: None });
	let exported = export::job(&view, &Vec::new(), "open", "", "Outstanding", &usd(1_00));
	assert!(exported.contains("- **Status**: Outstanding\n"));
	assert!(!exported.contains("## Notes"));
}

#[test]
fn timesheet_contacts_on_first_export_only()
{
	let contacts = vec![
		("Work Email".to_string(), ContactView::Email { email: "foo@bar.io".into(), export: true }),
		("Home Phone".to_string(), ContactView::Phone { phone: "555".into(), export: false }),
		("Office".to_string(), ContactView::Address { location: place("Here", None), export: true }),
	];
	let sheet = timesheet(employee(5, "Ann", "Boss", contacts), Vec::new(), NEW_YEAR, None, "");

	let mut seen = HashSet::new();
	let mut first = String::new();
	sheet.export(&mut seen, &mut first);
	assert!(seen.contains(&5));
	assert_eq!(
		first,
		"### 2022-01-01 00:00:00 UTC – Current

#### Employee Information

- **Name**: Ann
- **Employer**: Big Old Test @ 1337 Some Street, Phoenix, Arizona, USA, Earth
- **Title**: Boss
- **Contact Information**:
\t- **Office**: Here
\t- **Work Email**: foo@bar.io

"
	);

	let mut second = String::new();
	sheet.export(&mut seen, &mut second);
	assert_eq!(
		second,
		"### 2022-01-01 00:00:00 UTC – Current

#### Employee Information

- **Name**: Ann
- **Employer**: Big Old Test @ 1337 Some Street, Phoenix, Arizona, USA, Earth
- **Title**: Boss

"
	);
}

#[test]
fn period_of_running_and_ended_timesheets()
{
	let running = timesheet(employee(1, "A", "B", Vec::new()), Vec::new(), NEW_YEAR, None, "");
	assert_eq!(running.period(), "2022-01-01 00:00:00 UTC – Current");
	let ended = timesheet(employee(1, "A", "B", Vec::new()), Vec::new(), NEW_YEAR, Some(NEW_YEAR + 61), "");
	assert_eq!(ended.period(), "2022-01-01 00:00:00 UTC – 2022-01-01 00:01:01");
}

#[test]
fn contacts_listed_with_the_first_timesheet_of_each_employee()
{
	let contacts = || vec![("Work Email".to_string(), ContactView::Email { email: "foo@bar.io".into(), export: true })];
	let sheets = vec![
		timesheet(employee(5, "Ann", "Boss", contacts()), Vec::new(), NEW_YEAR, Some(NEW_YEAR + 60), ""),
		timesheet(employee(6, "Bob", "Janitor", contacts()), Vec::new(), NEW_YEAR + 120, Some(NEW_YEAR + 180), ""),
		timesheet(employee(5, "Ann", "Boss", contacts()), Vec::new(), NEW_YEAR + 240, None, ""),
	];
	let text = export::job(&job_view(7), &sheets, "2022-01-01 00:00:00 +00:00", "", "", &usd(0));
	let parts: Vec<&str> = text.split("\n### ").collect();
	assert_eq!(parts.len(), 4);
	assert!(parts[1].contains("- **Contact Information**:\n\t- **Work Email**: foo@bar.io\n"));
	assert!(parts[2].contains("- **Contact Information**:\n\t- **Work Email**: foo@bar.io\n"));
	assert!(!parts[3].contains("Contact Information"));
}
