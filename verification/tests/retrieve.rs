use clinvoice::args::{Format, RetrieveCommand};
use clinvoice::export::{Invoice, InvoiceDate, JobView, TimesheetView};
use clinvoice::money::Money;
use clinvoice::retrieve::{export_candidates, export_file_name, issue_unpaid, prints, sort_contacts, sort_timesheets};
use clinvoice::time::{Duration, Timestamp};
use clinvoice::views::{
	Contact,
	ContactKind,
	EmployeeStatus,
	EmployeeView,
	LocationView,
	OrganizationView,
	PersonView,
};

fn at(secs: i64) -> Timestamp
{
	Timestamp::new(secs, 0).unwrap()
}

fn organization() -> OrganizationView
{
	OrganizationView {
		id: 1,
		location: LocationView { id: 0, name: "Phoenix".into(), outer: None },
		name: "Big Old Test".into(),
	}
}

fn job(id: i64, invoice: Option<(i64, Option<i64>)>) -> JobView
{
	JobView {
		client: organization(),
		date_close: None,
		date_open: at(100),
		id,
		increment: Duration { secs: 900, nanos: 0 },
		invoice: Invoice {
			date: invoice.map(|(issued, paid)| InvoiceDate { issued: at(issued), paid: paid.map(at) }),
			hourly_rate: Money::new(20_00, 2, "USD".into()),
		},
		notes: String::new(),
		objectives: String::new(),
	}
}

fn timesheet(id: i64, begin: i64) -> TimesheetView
{
	TimesheetView {
		employee: EmployeeView {
			contact_info: Vec::new(),
			id: 2,
			organization: organization(),
			person: PersonView { id: 2, name: "Testy McTesterson".into() },
			status: EmployeeStatus::Employed,
			title: "CEO of Tests".into(),
		},
		expenses: Vec::new(),
		id,
		job: job(7, None),
		time_begin: at(begin),
		time_end: None,
		work_notes: String::new(),
	}
}

#[test]
fn what_is_printed()
{
	assert!(prints(&RetrieveCommand::Contact));
	assert!(prints(&RetrieveCommand::Employee { default: true, set_default: false }));
	assert!(!prints(&RetrieveCommand::Employee { default: false, set_default: true }));
	let job = |export| RetrieveCommand::Job {
		currency: "USD".into(),
		export,
		format: Format::Markdown,
		output_dir: None,
	};
	assert!(prints(&job(false)));
	assert!(!prints(&job(true)));
	assert!(!prints(&RetrieveCommand::Organization { employer: false, set_employer: true }));
	assert!(prints(&RetrieveCommand::Timesheet));
}

#[test]
fn exported_file_names()
{
	assert_eq!(export_file_name("Big Old Test", 5, "md"), "Big-Old-Test--5.md");
	assert_eq!(export_file_name("", 0, "md"), "--0.md");
}

#[test]
fn exporting_issues_unpaid_invoices()
{
	let mut jobs = vec![job(1, None), job(2, Some((50, None))), job(3, Some((50, Some(60))))];
	issue_unpaid(&mut jobs, at(1000));
	let dates: Vec<_> = jobs
		.iter()
		.map(|j| j.invoice.date.as_ref().map(|d| (d.issued.secs(), d.paid.map(|p| p.secs()))))
		.collect();
	assert_eq!(dates, vec![Some((1000, None)), Some((1000, None)), Some((50, Some(60)))]);
	assert_eq!(jobs.iter().map(|j| j.id).collect::<Vec<_>>(), vec![1, 2, 3]);
}

#[test]
fn timesheets_sorted_by_beginning()
{
	let sorted = sort_timesheets(vec![timesheet(1, 300), timesheet(2, 100), timesheet(3, 300), timesheet(4, 200)]);
	assert_eq!(sorted.iter().map(|t| t.id).collect::<Vec<_>>(), vec![2, 4, 1, 3]);
	assert!(sort_timesheets(Vec::new()).is_empty());
}

#[test]
fn contacts_sorted_by_label()
{
	let contact = |label: &str, text: &str| Contact { label: label.into(), kind: ContactKind::Other(text.into()) };
	let sorted = sort_contacts(vec![
		contact("Work Email", "first"),
		contact("Office", "second"),
		contact("Work Email", "third"),
		contact("Fax", "fourth"),
	]);
	let order: Vec<String> = sorted
		.iter()
		.map(|c| match &c.kind
		{
			ContactKind::Other(t) => t.clone(),
			_ => unreachable!(),
		})
		.collect();
	assert_eq!(order, vec!["fourth", "second", "first", "third"]);
}

#[test]
fn only_closed_jobs_are_offered_for_export()
{
	let mut open = job(1, None);
	open.date_close = None;
	let mut closed = job(2, None);
	closed.date_close = Some(at(500));
	let mut also_closed = job(3, None);
	also_closed.date_close = Some(at(600));
	assert_eq!(export_candidates(&vec![open, closed, also_closed]), vec![1, 2]);
	assert!(export_candidates(&vec![job(4, None)]).is_empty());
}
