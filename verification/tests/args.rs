use clinvoice::args::{
	parse_bool,
	Adapters,
	Config,
	ConfigError,
	Create,
	Delete,
	Employees,
	FlagOrArgument,
	Format,
	Jobs,
	MatchArgs,
	Organizations,
	Store,
	StoreArgs,
	Update,
};
use clinvoice::time::Duration;

fn config(employee: Option<i64>, employer: Option<i64>) -> Config
{
	Config {
		employees: Employees { id: employee },
		jobs: Jobs { default_increment: Duration { secs: 900, nanos: 0 } },
		organizations: Organizations { employer_id: employer },
		stores: vec![
			("default".into(), Store { adapter: Adapters::Postgres, url: "postgres://first".into() }),
			("work".into(), Store { adapter: Adapters::Postgres, url: "postgres://work".into() }),
			("default".into(), Store { adapter: Adapters::Postgres, url: "postgres://second".into() }),
		],
	}
}

#[test]
fn flag_or_argument_parts()
{
	let given: FlagOrArgument<i64> = FlagOrArgument::Argument(5);
	assert_eq!(given.argument(), Some(5));
	assert!(given.flag());

	let set: FlagOrArgument<i64> = FlagOrArgument::Flag(true);
	assert_eq!(set.argument(), None);
	assert!(set.flag());

	let unset: FlagOrArgument<i64> = FlagOrArgument::default();
	assert_eq!(unset.argument(), None);
	assert!(!unset.flag());
	assert!(matches!(FlagOrArgument::<i64>::unset(), FlagOrArgument::Flag(false)));
}

#[test]
fn flag_or_argument_with_a_fallback()
{
	assert_eq!(FlagOrArgument::Argument(5).iff_flagged_or(9), Some(5));
	assert_eq!(FlagOrArgument::Flag(true).iff_flagged_or(9), Some(9));
	assert_eq!(FlagOrArgument::Flag(false).iff_flagged_or(9), None);
}

#[test]
fn flag_or_argument_from_text()
{
	let read = |s: &str| FlagOrArgument::<i64>::from_str_or(s, s.parse::<i64>());
	assert!(matches!(read("true"), Ok(FlagOrArgument::Flag(true))));
	assert!(matches!(read("false"), Ok(FlagOrArgument::Flag(false))));
	assert!(matches!(read("42"), Ok(FlagOrArgument::Argument(42))));
	assert!(read("True").is_err());
	assert!(read("four").is_err());
}

#[test]
fn booleans_are_read_as_std_reads_them()
{
	for s in ["true", "false", "True", "FALSE", "", " true", "yes", "1"]
	{
		assert_eq!(parse_bool(s), s.parse::<bool>().ok(), "{s:?}");
	}
}

#[test]
fn stores_are_found_by_their_first_name()
{
	let config = config(None, None);
	let found = StoreArgs { store: "default".into() }.try_get_from(&config).unwrap();
	assert_eq!(found.url, "postgres://first");
	let found = StoreArgs { store: "work".into() }.try_get_from(&config).unwrap();
	assert_eq!(found.url, "postgres://work");
	assert!(config.get_store("home").is_none());
	match (StoreArgs { store: "home".into() }).try_get_from(&config)
	{
		Err(ConfigError::NotConfigured(key, section)) =>
		{
			assert_eq!(key, "home");
			assert_eq!(section, "stores");
		},
		other => panic!("unexpected {other:?}"),
	}
}

#[test]
fn configured_ids()
{
	let config = config(Some(3), Some(4));
	assert_eq!(config.employee_id_or_err().unwrap(), 3);
	assert_eq!(config.employer_id_or_err().unwrap(), 4);

	let config = self::config(None, None);
	match config.employee_id_or_err()
	{
		Err(ConfigError::NotConfigured(key, section)) =>
		{
			assert_eq!(key, "id");
			assert_eq!(section, "employees");
		},
		other => panic!("unexpected {other:?}"),
	}
	match config.employer_id_or_err()
	{
		Err(ConfigError::NotConfigured(key, section)) =>
		{
			assert_eq!(key, "employer_id");
			assert_eq!(section, "organizations");
		},
		other => panic!("unexpected {other:?}"),
	}
}

#[test]
fn match_args_from_a_path()
{
	assert_eq!(MatchArgs::from(Some("jobs.yaml".to_string())).match_file.as_deref(), Some("jobs.yaml"));
	assert_eq!(MatchArgs::from_path(None).match_file, None);
}

#[test]
fn reports()
{
	assert_eq!(Create::report_created("Job", 3), "Job #3 has been created.");
	assert_eq!(Delete::report_deleted("Employee", 12), "Employee #12 has been deleted.");
	assert_eq!(Update::report_updated("Timesheet", -1), "Timesheet #-1 has been updated.");
}

#[test]
fn markdown_extension()
{
	assert_eq!(Format::Markdown.extension(), "md");
}
