//! The command line arguments of CLInvoice, and the configuration they are read against.
use vstd::prelude::*;

use crate::money::Money;
use crate::time::{Duration, Timestamp};
use crate::interactive::{report_action, report_text};
use crate::views::Id;

verus! {

/// An option with an optional argument, e.g. `--foo` and `--foo bar`.
///
/// No option at all is `Flag(false)`, `--foo` is `Flag(true)`, `--foo bar` is
/// `Argument("bar")`.
#[derive(Clone, Copy, Debug)]
pub enum FlagOrArgument<T> {
    /// An option with an argument, e.g. "bar" for `--foo bar`.
    Argument(T),
    /// An option without argument: whether it was given.
    Flag(bool),
}

/// Whether the option was given at all: with an argument, or as a flag that is set.
pub open spec fn flag_of<T>(f: FlagOrArgument<T>) -> bool {
    match f {
        FlagOrArgument::Argument(_) => true,
        FlagOrArgument::Flag(b) => b,
    }
}

/// What `bool::from_str` reads from `s`: `true` and `false`, and nothing else.
pub open spec fn bool_text(s: Seq<char>) -> Option<bool> {
    if s == "true"@ {
        Some(true)
    } else if s == "false"@ {
        Some(false)
    } else {
        None
    }
}

impl<T> FlagOrArgument<T> {
    /// The argument, if one was given.
    pub fn argument(self) -> (res: Option<T>)
        ensures
            res == (match self {
                FlagOrArgument::Argument(a) => Some(a),
                FlagOrArgument::Flag(_) => None,
            }),
    {
        match self {
            FlagOrArgument::Argument(a) => Some(a),
            FlagOrArgument::Flag(_) => None,
        }
    }

    /// The flag, or `true` where an argument was given.
    pub fn flag(&self) -> (res: bool)
        ensures
            res == flag_of(*self),
    {
        match self {
            FlagOrArgument::Argument(_) => true,
            FlagOrArgument::Flag(b) => *b,
        }
    }

    /// The argument where one was given, `now` where only the flag was set, and `None` where
    /// the option was not given.
    pub fn iff_flagged_or(self, now: T) -> (res: Option<T>)
        ensures
            res == (match self {
                FlagOrArgument::Argument(a) => Some(a),
                FlagOrArgument::Flag(true) => Some(now),
                FlagOrArgument::Flag(false) => None,
            }),
    {
        match self {
            FlagOrArgument::Argument(a) => Some(a),
            FlagOrArgument::Flag(b) => if b {
                Some(now)
            } else {
                None
            },
        }
    }

    /// The option as written `s` on the command line: `true` and `false` are read as the flag
    /// (not as an argument), anything else as the argument `parsed`, which is what `s` parses
    /// to (or the error of parsing it).
    pub fn from_str_or<E>(s: &str, parsed: Result<T, E>) -> (res: Result<FlagOrArgument<T>, E>)
        ensures
            res == (match bool_text(s@) {
                Some(b) => Ok(FlagOrArgument::Flag(b)),
                None => match parsed {
                    Ok(a) => Ok(FlagOrArgument::Argument(a)),
                    Err(e) => Err(e),
                },
            }),
    {
        match parse_bool(s) {
            Some(b) => Ok(FlagOrArgument::Flag(b)),
            None => match parsed {
                Ok(a) => Ok(FlagOrArgument::Argument(a)),
                Err(e) => Err(e),
            },
        }
    }

    /// No option given: `Flag(false)`.
    pub fn unset() -> (res: FlagOrArgument<T>)
        ensures
            res == FlagOrArgument::<T>::Flag(false),
    {
        FlagOrArgument::Flag(false)
    }
}

impl<T> Default for FlagOrArgument<T> {
    fn default() -> (res: Self)
        ensures
            res == FlagOrArgument::<T>::Flag(false),
    {
        FlagOrArgument::Flag(false)
    }
}

/// Reads `true` or `false`, as `bool::from_str` does.
pub fn parse_bool(s: &str) -> (res: Option<bool>)
    ensures
        res == bool_text(s@),
{
    let text = String::from_str(s);
    if text == String::from_str("true") {
        Some(true)
    } else if text == String::from_str("false") {
        Some(false)
    } else {
        None
    }
}

/// The storage backends that a store can use.
#[derive(Clone, Copy, Debug)]
pub enum Adapters {
    Postgres,
}

/// A place where CLInvoice keeps its records.
#[derive(Clone, Debug)]
pub struct Store {
    pub adapter: Adapters,
    pub url: String,
}

/// The part of the configuration about employees: the default employee.
#[derive(Clone, Copy, Debug)]
pub struct Employees {
    pub id: Option<Id>,
}

/// The part of the configuration about organizations: the user's employer.
#[derive(Clone, Copy, Debug)]
pub struct Organizations {
    pub employer_id: Option<Id>,
}

/// The part of the configuration about jobs: how time is rounded by default.
#[derive(Clone, Copy, Debug)]
pub struct Jobs {
    pub default_increment: Duration,
}

/// The user's configuration, as far as the commands read it.
#[derive(Clone, Debug)]
pub struct Config {
    pub employees: Employees,
    pub jobs: Jobs,
    pub organizations: Organizations,
    /// The named stores, from the `[stores]` section.
    pub stores: Vec<(String, Store)>,
}

/// Why the configuration cannot serve a command.
#[derive(Clone, Debug)]
pub enum ConfigError {
    /// The key (first) of the section (second) has no value.
    NotConfigured(String, String),
    /// This build has no support for the adapter.
    FeatureNotFound(Adapters),
}

/// The position of the first store named `name` in `stores`, if there is one.
pub open spec fn store_position(stores: Seq<(String, Store)>, name: Seq<char>) -> Option<int>
    decreases stores.len(),
{
    if stores.len() == 0 {
        None
    } else if stores[0].0@ == name {
        Some(0)
    } else {
        match store_position(stores.drop_first(), name) {
            Some(i) => Some(i + 1),
            None => None,
        }
    }
}

/// `Some` holds a position within `stores`.
pub proof fn lemma_store_position_bounds(stores: Seq<(String, Store)>, name: Seq<char>)
    ensures
        store_position(stores, name) matches Some(i) ==> 0 <= i < stores.len() && stores[i].0@
            == name,
    decreases stores.len(),
{
    if stores.len() > 0 {
        lemma_store_position_bounds(stores.drop_first(), name);
    }
}

impl Config {
    /// The store named `name`, if one is configured.
    pub fn get_store(&self, name: &str) -> (res: Option<&Store>)
        ensures
            res matches Some(s) ==> store_position(self.stores@, name@) matches Some(i) && *s
                == self.stores@[i].1,
            res is None ==> store_position(self.stores@, name@) is None,
    {
        let wanted = String::from_str(name);
        let mut i: usize = 0;
        assert(self.stores@.skip(0) =~= self.stores@);
        while i < self.stores.len()
            invariant
                i <= self.stores.len(),
                wanted@ == name@,
                store_position(self.stores@, name@) == (match store_position(
                    self.stores@.skip(i as int),
                    name@,
                ) {
                    Some(j) => Some(j + i),
                    None => None,
                }),
            decreases self.stores.len() - i,
        {
            assert(self.stores@.skip(i as int)[0] == self.stores@[i as int]);
            assert(self.stores@.skip(i as int).drop_first() =~= self.stores@.skip(i + 1));
            let ghost rest = self.stores@.skip(i as int);
            if self.stores[i].0 == wanted {
                assert(rest[0].0@ == name@);
                assert(store_position(rest, name@) == Some(0int));
                return Some(&self.stores[i].1);
            }
            assert(rest[0].0@ != name@);
            assert(store_position(rest, name@) == (match store_position(rest.drop_first(), name@) {
                Some(j) => Some(j + 1),
                None => None,
            }));
            i = i + 1;
        }
        assert(self.stores@.skip(i as int).len() == 0);
        None
    }

    /// Makes the employee `id` the default one, as `clinvoice retrieve employee --set-default`
    /// does before writing the configuration back; the rest stays as it was.
    pub fn set_default_employee(&mut self, id: Id)
        ensures
            final(self).employees.id == Some(id),
            final(self).jobs == old(self).jobs,
            final(self).organizations == old(self).organizations,
            final(self).stores@ == old(self).stores@,
    {
        self.employees.id = Some(id);
    }

    /// Makes the organization `id` the user's employer, as `clinvoice retrieve organization
    /// --set-employer` does before writing the configuration back; the rest stays as it was.
    pub fn set_employer(&mut self, id: Id)
        ensures
            final(self).organizations.employer_id == Some(id),
            final(self).employees == old(self).employees,
            final(self).jobs == old(self).jobs,
            final(self).stores@ == old(self).stores@,
    {
        self.organizations.employer_id = Some(id);
    }

    /// The default employee's id, or the error that says it is not configured.
    pub fn employee_id_or_err(&self) -> (res: Result<Id, ConfigError>)
        ensures
            match self.employees.id {
                Some(id) => res == Ok::<Id, ConfigError>(id),
                None => res matches Err(ConfigError::NotConfigured(key, section)) && key@ == "id"@
                    && section@ == "employees"@,
            },
    {
        match self.employees.id {
            Some(id) => Ok(id),
            None => Err(ConfigError::NotConfigured(String::from_str("id"), String::from_str("employees"))),
        }
    }

    /// The employer's id, or the error that says it is not configured.
    pub fn employer_id_or_err(&self) -> (res: Result<Id, ConfigError>)
        ensures
            match self.organizations.employer_id {
                Some(id) => res == Ok::<Id, ConfigError>(id),
                None => res matches Err(ConfigError::NotConfigured(key, section)) && key@
                    == "employer_id"@ && section@ == "organizations"@,
            },
    {
        match self.organizations.employer_id {
            Some(id) => Ok(id),
            None => Err(
                ConfigError::NotConfigured(
                    String::from_str("employer_id"),
                    String::from_str("organizations"),
                ),
            ),
        }
    }
}

/// Reusable arguments used for specifying a store.
#[derive(Clone, Debug)]
pub struct StoreArgs {
    /// A key from the `[stores]` section of the configuration file.
    pub store: String,
}

impl StoreArgs {
    /// The store named by these arguments, or the error that it is not configured.
    pub fn try_get_from<'a>(&self, config: &'a Config) -> (res: Result<&'a Store, ConfigError>)
        ensures
            match store_position(config.stores@, self.store@) {
                Some(i) => res matches Ok(s) && *s == config.stores@[i].1,
                None => res matches Err(ConfigError::NotConfigured(key, section)) && key@
                    == self.store@ && section@ == "stores"@,
            },
    {
        match config.get_store(self.store.as_str()) {
            Some(s) => Ok(s),
            None => Err(ConfigError::NotConfigured(self.store.clone(), String::from_str("stores"))),
        }
    }
}

/// Reusable arguments used for retrieving information: a file holding a match condition.
#[derive(Clone, Debug)]
pub struct MatchArgs {
    /// The path of a YAML file that holds a match condition, if one was given.
    pub match_file: Option<String>,
}

impl MatchArgs {
    /// Match arguments naming the file `path`, if any.
    pub fn from_path(path: Option<String>) -> (res: MatchArgs)
        ensures
            res.match_file == path,
    {
        MatchArgs { match_file: path }
    }
}

/// The kind of information that a command works on.
#[derive(Clone, Copy, Debug)]
pub enum DeleteCommand {
    Contact,
    Employee,
    Expense,
    Job,
    Location,
    Organization,
    Timesheet,
}

/// Delete data which is being stored by CLInvoice.
#[derive(Clone, Debug)]
pub struct Delete {
    pub command: DeleteCommand,
    pub match_args: MatchArgs,
    pub store_args: StoreArgs,
}

/// Prepare the specified store for use with CLInvoice.
#[derive(Clone, Debug)]
pub struct Init {
    pub store_args: StoreArgs,
}

/// The specific type of information that is being updated, with its options. Dates are
/// points in time that the user gave.
#[derive(Debug)]
pub enum UpdateCommand {
    Contact,
    Employee { default: bool },
    Expense,
    Job {
        close: FlagOrArgument<Timestamp>,
        invoice_issued: FlagOrArgument<Timestamp>,
        invoice_paid: FlagOrArgument<Timestamp>,
        reopen: bool,
    },
    Location,
    Organization { employer: bool },
    Timesheet { restart: FlagOrArgument<Timestamp>, stop: FlagOrArgument<Timestamp> },
}

/// Update information being stored by CLInvoice.
#[derive(Debug)]
pub struct Update {
    pub command: UpdateCommand,
    pub match_args: MatchArgs,
    pub store_args: StoreArgs,
}

/// The file formats that jobs can be exported to.
#[derive(Clone, Copy, Debug)]
pub enum Format {
    Markdown,
}

impl Format {
    /// The file extension of the format.
    pub fn extension(&self) -> (res: &'static str)
        ensures
            res@ == "md"@,
    {
        match self {
            Format::Markdown => "md",
        }
    }
}

/// The specific type of information that is being retrieved, with its options.
#[derive(Debug)]
pub enum RetrieveCommand {
    Contact,
    Employee { default: bool, set_default: bool },
    Expense,
    Job { currency: String, export: bool, format: Format, output_dir: Option<String> },
    Location,
    Organization { employer: bool, set_employer: bool },
    Timesheet,
}

/// Retrieve information being stored by CLInvoice.
#[derive(Debug)]
pub struct Retrieve {
    pub command: RetrieveCommand,
    pub match_args: MatchArgs,
    pub store_args: StoreArgs,
}

/// The specific information to store, with its options. Paths are files that hold match
/// conditions; dates are points in time that the user gave.
#[derive(Debug)]
pub enum CreateCommand {
    Contact {
        label: String,
        address: FlagOrArgument<String>,
        email: bool,
        phone: bool,
        info: String,
    },
    Employee { name: String, status: String, title: String },
    Expense { category: String, cost: Money, description: String, timesheet: Option<String> },
    Job {
        client: Option<String>,
        date_close: Option<Timestamp>,
        date_invoice_issued: Option<Timestamp>,
        date_invoice_paid: Option<Timestamp>,
        date_open: Option<Timestamp>,
        employer: bool,
        hourly_rate: Money,
        increment: Option<Duration>,
        notes: String,
        objectives: String,
    },
    Location {
        inside: FlagOrArgument<String>,
        names: Vec<String>,
        outside: FlagOrArgument<String>,
    },
    Organization { location: Option<String>, name: String },
    Timesheet {
        default_employee: bool,
        employee: Option<String>,
        job: Option<String>,
        time_begin: Option<Timestamp>,
        time_end: Option<Timestamp>,
        work_notes: Option<String>,
    },
}

/// Use CLInvoice to store new information.
#[derive(Debug)]
pub struct Create {
    pub command: CreateCommand,
    pub store_args: StoreArgs,
}

impl From<Option<String>> for MatchArgs {
    fn from(path: Option<String>) -> (res: MatchArgs) {
        MatchArgs { match_file: path }
    }
}

impl vstd::std_specs::convert::FromSpecImpl<Option<String>> for MatchArgs {
    open spec fn obeys_from_spec() -> bool {
        true
    }

    open spec fn from_spec(v: Option<String>) -> MatchArgs {
        MatchArgs { match_file: v }
    }
}

impl AsRef<StoreArgs> for Create {
    /// The arguments that name the store this command works on.
    fn as_ref(&self) -> (res: &StoreArgs)
        ensures
            *res == self.store_args,
    {
        &self.store_args
    }
}

impl AsRef<StoreArgs> for Delete {
    /// The arguments that name the store this command works on.
    fn as_ref(&self) -> (res: &StoreArgs)
        ensures
            *res == self.store_args,
    {
        &self.store_args
    }
}

impl AsRef<StoreArgs> for Retrieve {
    /// The arguments that name the store this command works on.
    fn as_ref(&self) -> (res: &StoreArgs)
        ensures
            *res == self.store_args,
    {
        &self.store_args
    }
}

impl AsRef<StoreArgs> for Update {
    /// The arguments that name the store this command works on.
    fn as_ref(&self) -> (res: &StoreArgs)
        ensures
            *res == self.store_args,
    {
        &self.store_args
    }
}

impl AsRef<StoreArgs> for Init {
    /// The arguments that name the store this command works on.
    fn as_ref(&self) -> (res: &StoreArgs)
        ensures
            *res == self.store_args,
    {
        &self.store_args
    }
}

impl Create {
    /// What is printed when a record of kind `kind` and id `id` was created.
    pub fn report_created(kind: &str, id: Id) -> (res: String)
        ensures
            res@ == report_text(kind@, id, "created"@),
    {
        report_action(kind, id, "created")
    }
}

impl Delete {
    /// What is printed when a record of kind `kind` and id `id` was deleted.
    pub fn report_deleted(kind: &str, id: Id) -> (res: String)
        ensures
            res@ == report_text(kind@, id, "deleted"@),
    {
        report_action(kind, id, "deleted")
    }
}

impl Update {
    /// What is printed when a record of kind `kind` and id `id` was updated.
    pub fn report_updated(kind: &str, id: Id) -> (res: String)
        ensures
            res@ == report_text(kind@, id, "updated"@),
    {
        report_action(kind, id, "updated")
    }
}

} // verus!
