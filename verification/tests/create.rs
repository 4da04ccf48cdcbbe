use clinvoice::args::{Adapters, Config, ConfigError, Employees, FlagOrArgument, Jobs, Organizations, Store};
use clinvoice::create::{
	asks_for_expenses,
	contact_choice,
	employee_match,
	employer_match,
	job_increment,
	job_open_date,
	location_creation_order,
	location_plan,
	new_invoice,
	new_job,
	new_timesheet,
	opened_job,
	opening_wall_clock,
	put_inside,
	ContactChoice,
	DateError,
	MatchSource,
	NewOuter,
};
use clinvoice::export::{Expense, Invoice, JobView};
use clinvoice::views::{EmployeeStatus, EmployeeView, OrganizationView, PersonView};
use clinvoice::money::Money;
use clinvoice::time::{Duration, Timestamp};
use clinvoice::views::LocationView;

fn config(employee: Option<i64>, employer: Option<i64>) -> Config
{
	Config {
		employees: Employees { id: employee },
		jobs: Jobs { default_increment: Duration { secs: 900, nanos: 0 } },
		organizations: Organizations { employer_id: employer },
		stores: vec![("default".into(), Store { adapter: Adapters::Postgres, url: "postgres://x".into() })],
	}
}

#[test]
fn records_are_matched_by_configured_ids_or_files()
{
	let configured = config(Some(3), Some(4));
	assert!(matches!(employee_match(&configured, true, None), Ok(MatchSource::Id(3))));
	assert!(matches!(employer_match(&configured, true, None), Ok(MatchSource::Id(4))));
	match employee_match(&configured, false, Some("e.yaml".into()))
	{
		Ok(MatchSource::File(Some(f))) => assert_eq!(f, "e.yaml"),
		other => panic!("unexpected {other:?}"),
	}
	assert!(matches!(employer_match(&configured, false, None), Ok(MatchSource::File(None))));

	let empty = config(None, None);
	assert!(matches!(employee_match(&empty, true, None), Err(ConfigError::NotConfigured(_, _))));
	match employer_match(&empty, true, None)
	{
		Err(ConfigError::NotConfigured(key, section)) =>
		{
			assert_eq!(key, "employer_id");
			assert_eq!(section, "organizations");
		},
		other => panic!("unexpected {other:?}"),
	}
}

#[test]
fn contact_kinds_by_precedence()
{
	let none: FlagOrArgument<String> = FlagOrArgument::Flag(false);
	let address = FlagOrArgument::Argument("Phoenix".to_string());
	assert!(matches!(contact_choice(&address, true, true), ContactChoice::Address));
	assert!(matches!(contact_choice(&FlagOrArgument::Flag(true), false, false), ContactChoice::Address));
	assert!(matches!(contact_choice(&none, true, true), ContactChoice::Email));
	assert!(matches!(contact_choice(&none, false, true), ContactChoice::Phone));
	assert!(matches!(contact_choice(&none, false, false), ContactChoice::Other));
}

#[test]
fn invoices_of_new_jobs()
{
	let rate = || Money::new(20_00, 2, "USD".into());
	let invoice = new_invoice(rate(), None, Some(Timestamp::new(5, 0).unwrap()));
	assert!(invoice.date.is_none());
	assert_eq!(invoice.hourly_rate.amount(), 20_00);

	let invoice = new_invoice(rate(), Some(Timestamp::new(5, 0).unwrap()), Some(Timestamp::new(6, 0).unwrap()));
	let date = invoice.date.unwrap();
	assert_eq!(date.issued.secs(), 5);
	assert_eq!(date.paid.unwrap().secs(), 6);
}

#[test]
fn increments_default_to_the_configured_one()
{
	let c = config(None, None);
	assert_eq!(job_increment(None, &c).secs, 900);
	assert_eq!(job_increment(Some(Duration { secs: 60, nanos: 0 }), &c).secs, 60);
}

#[test]
fn locations_are_created_outermost_first()
{
	let names = vec!["Phoenix".to_string(), "Arizona".to_string(), "USA".to_string()];
	assert_eq!(location_creation_order(names), vec!["USA", "Arizona", "Phoenix"]);
	assert_eq!(location_creation_order(vec!["Earth".to_string()]), vec!["Earth"]);
}

#[test]
fn locations_are_put_inside_the_new_one()
{
	let earth = LocationView { id: 1, name: "Earth".into(), outer: None };
	let mut inner = vec![
		LocationView { id: 2, name: "USA".into(), outer: None },
		LocationView { id: 3, name: "Canada".into(), outer: None },
	];
	put_inside(&mut inner, &earth);
	assert_eq!(inner.len(), 2);
	assert_eq!(inner[0].display(), "USA, Earth");
	assert_eq!(inner[1].display(), "Canada, Earth");
	assert_eq!(inner[1].id, 3);
}

#[test]
fn expenses_are_asked_for_ended_timesheets()
{
	assert!(asks_for_expenses(&Some(Timestamp::new(5, 0).unwrap())));
	assert!(!asks_for_expenses(&None));
}

#[test]
fn opening_dates()
{
	assert!(matches!(job_open_date(None, Some(1), None, Some(3), None), Ok(None)));
	assert!(matches!(job_open_date(Some(2022), None, Some(1), None, None), Err(DateError::MissingMonth)));
	assert!(matches!(job_open_date(Some(2022), Some(1), None, None, None), Err(DateError::MissingDay)));
	assert!(matches!(job_open_date(Some(2022), Some(1), Some(2), Some(3), None), Err(DateError::MissingMinute)));
	assert!(matches!(job_open_date(Some(2022), Some(1), Some(2), None, Some(4)), Ok(Some((2022, 1, 2, None)))));
	assert!(matches!(
		job_open_date(Some(2022), Some(1), Some(2), Some(3), Some(4)),
		Ok(Some((2022, 1, 2, Some((3, 4)))))
	));
}

#[test]
fn date_error_messages()
{
	assert_eq!(DateError::MissingMonth.message(), "`--month` requires `--year`");
	assert_eq!(DateError::MissingDay.message(), "`--day` requires `--month`");
	assert_eq!(DateError::MissingMinute.message(), "`--hour` requires `--minute`");
}

#[test]
fn jobs_open_at_midnight_without_a_time()
{
	assert_eq!(opening_wall_clock((2022, 1, 2, None)), (2022, 1, 2, 0, 0));
	assert_eq!(opening_wall_clock((2022, 1, 2, Some((13, 45)))), (2022, 1, 2, 13, 45));
}

#[test]
fn no_names_no_locations()
{
	assert!(location_creation_order(Vec::new()).is_empty());
}

fn at(secs: i64) -> Timestamp
{
	Timestamp::new(secs, 0).unwrap()
}

fn client() -> OrganizationView
{
	OrganizationView {
		id: 1,
		location: LocationView { id: 0, name: "Phoenix".into(), outer: None },
		name: "Big Old Test".into(),
	}
}

fn usd(cents: i64) -> Money
{
	Money::new(cents, 2, "USD".into())
}

#[test]
fn locations_nest_as_created()
{
	let plan = location_plan(vec!["Arizona".to_string(), "USA".to_string()], false);
	assert_eq!(plan.len(), 2);
	assert_eq!(plan[0].name, "USA");
	assert!(matches!(plan[0].outer, NewOuter::Nowhere));
	assert_eq!(plan[1].name, "Arizona");
	assert!(matches!(plan[1].outer, NewOuter::Previous));

	let plan = location_plan(vec!["Arizona".to_string(), "USA".to_string()], true);
	assert!(matches!(plan[0].outer, NewOuter::Selected));
	assert!(matches!(plan[1].outer, NewOuter::Previous));

	assert!(location_plan(Vec::new(), true).is_empty());
}

#[test]
fn new_jobs()
{
	let c = config(None, None);
	let job = new_job(client(), None, None, at(1000), None, &c, usd(20_00), None, None, String::new(), "Test".into());
	assert!(job.date_close.is_none());
	assert_eq!(job.date_open.secs(), 1000);
	assert_eq!(job.increment.secs, 900);
	assert!(job.invoice.date.is_none());
	assert_eq!(job.invoice.hourly_rate.amount(), 20_00);
	assert_eq!(job.objectives, "Test");

	let job = new_job(
		client(),
		Some(at(3000)),
		Some(at(500)),
		at(1000),
		Some(Duration { secs: 60, nanos: 0 }),
		&c,
		usd(20_00),
		Some(at(4000)),
		Some(at(5000)),
		"These are my notes".into(),
		"Test".into(),
	);
	assert_eq!(job.date_close.unwrap().secs(), 3000);
	assert_eq!(job.date_open.secs(), 500);
	assert_eq!(job.increment.secs, 60);
	let date = job.invoice.date.unwrap();
	assert_eq!((date.issued.secs(), date.paid.unwrap().secs()), (4000, 5000));
	assert_eq!(job.notes, "These are my notes");

	let job = opened_job(client(), at(700), Duration { secs: 900, nanos: 0 }, usd(12_00), "obj".into());
	assert!(job.date_close.is_none() && job.invoice.date.is_none());
	assert_eq!(job.date_open.secs(), 700);
	assert_eq!(job.notes, "");
}

fn employee() -> EmployeeView
{
	EmployeeView {
		contact_info: Vec::new(),
		id: 2,
		organization: client(),
		person: PersonView { id: 2, name: "bob".into() },
		status: EmployeeStatus::Employed,
		title: "bob title".into(),
	}
}

fn job_view() -> JobView
{
	JobView {
		client: client(),
		date_close: None,
		date_open: at(100),
		id: 7,
		increment: Duration { secs: 900, nanos: 0 },
		invoice: Invoice { date: None, hourly_rate: usd(20_00) },
		notes: String::new(),
		objectives: "Test".into(),
	}
}

fn expense() -> Expense
{
	Expense { id: 1, category: "Food".into(), cost: usd(5_00), description: "Lunch".into(), timesheet_id: 9 }
}

#[test]
fn new_timesheets()
{
	let t = new_timesheet(employee(), vec![expense()], job_view(), None, None, None, at(1000));
	assert_eq!(t.time_begin.secs(), 1000);
	assert!(t.time_end.is_none());
	assert!(t.expenses.is_empty());
	assert_eq!(t.work_notes, "");
	assert_eq!((t.employee.id, t.job.id), (2, 7));

	let t = new_timesheet(employee(), vec![expense()], job_view(), Some(at(100)), Some(at(200)), Some("notes".into()), at(1000));
	assert_eq!((t.time_begin.secs(), t.time_end.unwrap().secs()), (100, 200));
	assert_eq!(t.expenses.len(), 1);
	assert_eq!(t.work_notes, "notes");
}

#[test]
fn configured_defaults_are_set()
{
	let mut c = config(Some(1), Some(2));
	c.set_default_employee(5);
	assert_eq!((c.employees.id, c.organizations.employer_id), (Some(5), Some(2)));
	c.set_employer(6);
	assert_eq!((c.employees.id, c.organizations.employer_id), (Some(5), Some(6)));
	assert_eq!(c.stores.len(), 1);
	assert_eq!(c.jobs.default_increment.secs, 900);
}
