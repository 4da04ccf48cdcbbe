use clinvoice::views::{
	ContactView,
	EmployeeStatus,
	EmployeeView,
	LocationView,
	OrganizationView,
	Person,
	PersonView,
};

fn street(id: i64) -> LocationView
{
	let earth = LocationView { id: id + 2, name: "Earth".into(), outer: None };
	let phoenix = LocationView { id: id + 1, name: "Phoenix".into(), outer: Some(Box::new(earth)) };
	LocationView { id, name: "1234 Work Street".into(), outer: Some(Box::new(phoenix)) }
}

fn employee(id: i64, contacts: Vec<(String, ContactView)>) -> EmployeeView
{
	EmployeeView {
		contact_info: contacts,
		id,
		organization: OrganizationView { id: id + 10, location: street(id + 20), name: "Big Old Test".into() },
		person: PersonView { id: id + 30, name: "Testy McTesterson".into() },
		status: EmployeeStatus::Employed,
		title: "CEO of Tests".into(),
	}
}

fn contacts(id: i64) -> Vec<(String, ContactView)>
{
	vec![
		("Work Email".into(), ContactView::Email { email: "foo@bar.io".into(), export: false }),
		("Place of Work".into(), ContactView::Address { location: street(id + 40), export: true }),
		("Cell".into(), ContactView::Phone { phone: "555-555-5555".into(), export: false }),
	]
}

#[test]
fn restoring_ids_keeps_the_display()
{
	let original = employee(0, contacts(0));
	let mut edited = employee(100, contacts(100));
	let shown = edited.display();
	edited.restore(&original);
	assert_eq!(edited.display(), shown);
	assert_eq!(edited.id, 0);
	assert_eq!(edited.person.id, 30);
	assert_eq!(edited.organization.id, 10);
	assert_eq!(edited.organization.location.id, 20);
	assert_eq!(edited.organization.location.outer.as_ref().unwrap().id, 21);
	match &edited.contact_info[1].1
	{
		ContactView::Address { location, .. } => assert_eq!(location.id, 40),
		other => panic!("unexpected {other:?}"),
	}
}

#[test]
fn contacts_are_listed_by_label_whatever_their_order()
{
	let mut reversed = contacts(0);
	reversed.reverse();
	let a = employee(0, contacts(0));
	let b = employee(0, reversed);
	assert_eq!(a.display(), b.display());
	assert_eq!(
		a.display(),
		"CEO of Tests Testy McTesterson
	Employer: Big Old Test @ 1234 Work Street, Phoenix, Earth
	Employee Contact Info:
		- Cell: 555-555-5555
		- Place of Work: 1234 Work Street, Phoenix, Earth
		- Work Email: foo@bar.io
	Status: Employed"
	);
}

#[test]
fn employee_equality()
{
	let a = employee(0, contacts(0));
	let b = employee(0, Vec::new());
	let c = employee(0, contacts(5));
	assert!(a == a);
	assert!(a == b && b == a);
	assert!(b == c && a == c);
	assert!(a != employee(1, contacts(0)));
	let mut renamed = employee(0, Vec::new());
	renamed.person.name = "Bob".into();
	assert!(a != renamed);
}

#[test]
fn people_from_stored_records()
{
	let person = Person { id: 4, name: "Bob".into() };
	let by_ref = PersonView::from(&person);
	assert_eq!((by_ref.id, by_ref.name.as_str()), (4, "Bob"));
	let by_value = PersonView::from(person);
	assert!(by_value.same_as(&by_ref));
}
