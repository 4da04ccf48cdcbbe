//! The records that CLInvoice keeps, as they are shown to users.
use vstd::prelude::*;

use crate::sorting::{by_label, min_label_position, pick, sort_by};

verus! {

/// The identifier of a stored record.
pub type Id = i64;

/// A person, as stored.
#[derive(Clone, Debug)]
pub struct Person {
    pub id: Id,
    pub name: String,
}

/// A person, as shown to users.
#[derive(Clone, Debug)]
pub struct PersonView {
    pub id: Id,
    pub name: String,
}

/// A place, possibly inside another place (`outer`).
#[derive(Debug)]
pub struct LocationView {
    pub id: Id,
    pub name: String,
    pub outer: Option<Box<LocationView>>,
}

/// An organization and where it is.
#[derive(Debug)]
pub struct OrganizationView {
    pub id: Id,
    pub location: LocationView,
    pub name: String,
}

/// A way of contacting someone. `export` says whether it is written into exported invoices.
#[derive(Debug)]
pub enum ContactView {
    Address { location: LocationView, export: bool },
    Email { email: String, export: bool },
    Phone { phone: String, export: bool },
}

/// What a stored contact is: an address, an email address, a phone number, or other text.
#[derive(Debug)]
pub enum ContactKind {
    Address(LocationView),
    Email(String),
    Phone(String),
    Other(String),
}

/// A labelled way of contacting the user's organization, as stored.
#[derive(Debug)]
pub struct Contact {
    pub label: String,
    pub kind: ContactKind,
}

/// How an employee stands with their organization.
#[derive(Clone, Debug)]
pub enum EmployeeStatus {
    Employed,
    NotEmployed,
    Representative,
}

/// An employee of an organization. `contact_info` maps labels (such as "Work Email") to ways
/// of contacting the employee; its labels are listed in sorted order when shown.
#[derive(Debug)]
pub struct EmployeeView {
    pub contact_info: Vec<(String, ContactView)>,
    pub id: Id,
    pub organization: OrganizationView,
    pub person: PersonView,
    pub status: EmployeeStatus,
    pub title: String,
}

/// A place written out: its name, then the name of each place around it, innermost first,
/// separated by ", ".
pub open spec fn location_text(l: LocationView) -> Seq<char>
    decreases l,
{
    match l.outer {
        Some(o) => l.name@ + ", "@ + location_text(*o),
        None => l.name@,
    }
}

/// An organization written out: its name, " @ ", then its location.
pub open spec fn organization_text(o: OrganizationView) -> Seq<char> {
    o.name@ + " @ "@ + location_text(o.location)
}

/// A contact written out: the address, email or phone number itself.
pub open spec fn contact_text(c: ContactView) -> Seq<char> {
    match c {
        ContactView::Address { location, .. } => location_text(location),
        ContactView::Email { email, .. } => email@,
        ContactView::Phone { phone, .. } => phone@,
    }
}

/// Whether a contact is written into exported invoices.
pub open spec fn contact_exported(c: ContactView) -> bool {
    match c {
        ContactView::Address { export, .. } => export,
        ContactView::Email { export, .. } => export,
        ContactView::Phone { export, .. } => export,
    }
}

/// The name of an employee status.
pub open spec fn status_text(s: EmployeeStatus) -> Seq<char> {
    match s {
        EmployeeStatus::Employed => "Employed"@,
        EmployeeStatus::NotEmployed => "Not Employed"@,
        EmployeeStatus::Representative => "Representative"@,
    }
}

/// One labelled contact as a line of a list: in an employee's summary
/// (`"\t\t- label: contact\n"`) or, when `bold`, in an exported invoice
/// (`"\t- **label**: contact\n"`).
pub open spec fn contact_line(e: (String, ContactView), bold: bool) -> Seq<char> {
    if bold {
        "\t- **"@ + e.0@ + "**: "@ + contact_text(e.1) + "\n"@
    } else {
        "\t\t- "@ + e.0@ + ": "@ + contact_text(e.1) + "\n"@
    }
}

/// The lines of the labelled contacts `s`, in the order given.
pub open spec fn contact_lines(s: Seq<(String, ContactView)>, bold: bool) -> Seq<char>
    decreases s.len(),
{
    if s.len() == 0 {
        Seq::empty()
    } else {
        contact_line(s[0], bold) + contact_lines(s.drop_first(), bold)
    }
}

/// The labelled contacts `s` as lines of a list, sorted by label.
pub open spec fn sorted_contact_lines(s: Seq<(String, ContactView)>, bold: bool) -> Seq<char> {
    contact_lines(sort_by(s, by_label::<ContactView>()), bold)
}

/// An employee written out: title and name; employer; contact information sorted by label,
/// when there is any; status.
pub open spec fn employee_text(e: EmployeeView) -> Seq<char> {
    e.title@ + " "@ + e.person.name@ + "\n"@ + "\tEmployer: "@ + organization_text(e.organization)
        + "\n"@ + (if e.contact_info@.len() > 0 {
        "\tEmployee Contact Info:\n"@ + sorted_contact_lines(e.contact_info@, false)
    } else {
        Seq::empty()
    }) + "\tStatus: "@ + status_text(e.status)
}

impl LocationView {
    /// A copy of this place, with the places around it.
    pub fn duplicate(&self) -> (res: LocationView)
        ensures
            res == *self,
        decreases self,
    {
        let outer = match &self.outer {
            Some(o) => Some(Box::new(o.duplicate())),
            None => None,
        };
        LocationView { id: self.id, name: self.name.clone(), outer }
    }

    /// This place written out, as `Display` does.
    pub fn display(&self) -> (res: String)
        ensures
            res@ == location_text(*self),
        decreases self,
    {
        let mut res = self.name.clone();
        match &self.outer {
            Some(o) => {
                res.append(", ");
                let rest = o.display();
                res.append(rest.as_str());
            },
            None => {},
        }
        res
    }
}

impl OrganizationView {
    /// This organization written out, as `Display` does.
    pub fn display(&self) -> (res: String)
        ensures
            res@ == organization_text(*self),
    {
        let mut res = self.name.clone();
        res.append(" @ ");
        let location = self.location.display();
        res.append(location.as_str());
        res
    }
}

impl ContactView {
    /// This contact written out, as `Display` does.
    pub fn display(&self) -> (res: String)
        ensures
            res@ == contact_text(*self),
    {
        match self {
            ContactView::Address { location, .. } => location.display(),
            ContactView::Email { email, .. } => email.clone(),
            ContactView::Phone { phone, .. } => phone.clone(),
        }
    }

    /// Whether this contact is written into exported invoices.
    pub fn exported(&self) -> (res: bool)
        ensures
            res == contact_exported(*self),
    {
        match self {
            ContactView::Address { export, .. } => *export,
            ContactView::Email { export, .. } => *export,
            ContactView::Phone { export, .. } => *export,
        }
    }
}

impl EmployeeStatus {
    /// The name of this status, as `Display` does.
    pub fn display(&self) -> (res: String)
        ensures
            res@ == status_text(*self),
    {
        match self {
            EmployeeStatus::Employed => String::from_str("Employed"),
            EmployeeStatus::NotEmployed => String::from_str("Not Employed"),
            EmployeeStatus::Representative => String::from_str("Representative"),
        }
    }
}

/// Appends the contacts of `entries` at the positions `indices` to `out`, one line each,
/// sorted by label.
pub(crate) fn append_sorted_contacts(
    out: &mut String,
    entries: &Vec<(String, ContactView)>,
    indices: Vec<usize>,
    bold: bool,
)
    requires
        forall|k: int| 0 <= k < indices.len() ==> (#[trigger] indices[k]) < entries.len(),
    ensures
        final(out)@ == old(out)@ + sorted_contact_lines(pick(entries@, indices@), bold),
{
    let mut remaining = indices;
    let ghost target = old(out)@ + sorted_contact_lines(pick(entries@, remaining@), bold);
    while remaining.len() > 0
        invariant
            forall|k: int| 0 <= k < remaining.len() ==> (#[trigger] remaining[k]) < entries.len(),
            out@ + sorted_contact_lines(pick(entries@, remaining@), bold) == target,
        decreases remaining.len(),
    {
        let ghost s = pick(entries@, remaining@);
        let m = min_label_position(entries, &remaining);
        let e = &entries[remaining[m]];
        let ghost rest = s.remove(m as int);
        assert(s[m as int] == *e);
        assert(sort_by(s, by_label::<ContactView>()) == seq![*e] + sort_by(
            rest,
            by_label::<ContactView>(),
        ));
        assert((seq![*e] + sort_by(rest, by_label::<ContactView>())).drop_first() =~= sort_by(
            rest,
            by_label::<ContactView>(),
        ));
        let contact = e.1.display();
        let ghost before = out@;
        if bold {
            out.append("\t- **");
            out.append(e.0.as_str());
            out.append("**: ");
        } else {
            out.append("\t\t- ");
            out.append(e.0.as_str());
            out.append(": ");
        }
        out.append(contact.as_str());
        out.append("\n");
        assert(out@ =~= before + contact_line(*e, bold));
        remaining.remove(m);
        assert(pick(entries@, remaining@) =~= rest);
        assert(before + contact_line(*e, bold) + sorted_contact_lines(rest, bold) =~= before
            + sorted_contact_lines(s, bold));
    }
    assert(pick(entries@, remaining@).len() == 0);
    assert(sort_by(pick(entries@, remaining@), by_label::<ContactView>()).len() == 0);
    assert(out@ =~= target);
}

/// Whether no two entries of `s` share a label, as no two keys of a map do.
pub open spec fn distinct_labels(s: Seq<(String, ContactView)>) -> bool {
    forall|i: int, j: int| 0 <= i < s.len() && 0 <= j < s.len() && i != j ==> (#[trigger] s[i]).0@
        != (#[trigger] s[j]).0@
}

impl EmployeeView {
    /// Whether this employee is well formed: their contacts are keyed by label, so no two of
    /// them share one.
    pub open spec fn well_formed(self) -> bool {
        distinct_labels(self.contact_info@)
    }
}

impl EmployeeView {
    /// This employee written out, as `Display` does.
    pub fn display(&self) -> (res: String)
        requires
            self.well_formed(),
        ensures
            res@ == employee_text(*self),
    {
        let mut res = self.title.clone();
        res.append(" ");
        res.append(self.person.name.as_str());
        res.append("\n");
        res.append("\tEmployer: ");
        let employer = self.organization.display();
        res.append(employer.as_str());
        res.append("\n");
        let ghost head = res@;
        if self.contact_info.len() > 0 {
            res.append("\tEmployee Contact Info:\n");
            let mut indices: Vec<usize> = Vec::new();
            let mut i: usize = 0;
            while i < self.contact_info.len()
                invariant
                    i <= self.contact_info.len(),
                    indices@.len() == i,
                    forall|k: int| 0 <= k < i ==> (#[trigger] indices@[k]) as int == k,
                decreases self.contact_info.len() - i,
            {
                indices.push(i);
                i = i + 1;
            }
            assert(pick(self.contact_info@, indices@) =~= self.contact_info@);
            append_sorted_contacts(&mut res, &self.contact_info, indices, false);
        }
        res.append("\tStatus: ");
        let status = self.status.display();
        res.append(status.as_str());
        res
    }
}

/// Whether two people are the same record: same id and name.
pub open spec fn same_person(a: PersonView, b: PersonView) -> bool {
    a.id == b.id && a.name@ == b.name@
}

/// Whether two places are the same record: same id and name, inside the same place.
pub open spec fn same_location(a: LocationView, b: LocationView) -> bool
    decreases a,
{
    a.id == b.id && a.name@ == b.name@ && match (a.outer, b.outer) {
        (Some(x), Some(y)) => same_location(*x, *y),
        (None, None) => true,
        _ => false,
    }
}

/// Whether two organizations are the same record: same id, location and name.
pub open spec fn same_organization(a: OrganizationView, b: OrganizationView) -> bool {
    a.id == b.id && a.name@ == b.name@ && same_location(a.location, b.location)
}

/// Whether two employees are equal: the same person working for the same organization.
pub open spec fn same_employee(a: EmployeeView, b: EmployeeView) -> bool {
    same_organization(a.organization, b.organization) && same_person(a.person, b.person)
}

impl PersonView {
    /// Whether this person is the same record as `other`.
    pub fn same_as(&self, other: &PersonView) -> (res: bool)
        ensures
            res == same_person(*self, *other),
    {
        self.id == other.id && self.name == other.name
    }
}

impl LocationView {
    /// Whether this place is the same record as `other`.
    pub fn same_as(&self, other: &LocationView) -> (res: bool)
        ensures
            res == same_location(*self, *other),
        decreases self,
    {
        if self.id != other.id || self.name != other.name {
            return false;
        }
        match (&self.outer, &other.outer) {
            (Some(x), Some(y)) => x.same_as(y),
            (None, None) => true,
            _ => false,
        }
    }
}

impl OrganizationView {
    /// Whether this organization is the same record as `other`.
    pub fn same_as(&self, other: &OrganizationView) -> (res: bool)
        ensures
            res == same_organization(*self, *other),
    {
        self.id == other.id && self.name == other.name && self.location.same_as(&other.location)
    }
}

impl PartialEq for EmployeeView {
    fn eq(&self, other: &Self) -> (res: bool) {
        self.organization.same_as(&other.organization) && self.person.same_as(&other.person)
    }
}

impl vstd::std_specs::cmp::PartialEqSpecImpl for EmployeeView {
    open spec fn obeys_eq_spec() -> bool {
        true
    }

    open spec fn eq_spec(&self, other: &EmployeeView) -> bool {
        same_employee(*self, *other)
    }
}

impl From<Person> for PersonView {
    fn from(person: Person) -> (res: PersonView) {
        PersonView { id: person.id, name: person.name }
    }
}

impl vstd::std_specs::convert::FromSpecImpl<Person> for PersonView {
    open spec fn obeys_from_spec() -> bool {
        true
    }

    open spec fn from_spec(v: Person) -> PersonView {
        PersonView { id: v.id, name: v.name }
    }
}

impl From<&Person> for PersonView {
    fn from(person: &Person) -> (res: PersonView) {
        PersonView { id: person.id, name: person.name.clone() }
    }
}

impl vstd::std_specs::convert::FromSpecImpl<&Person> for PersonView {
    open spec fn obeys_from_spec() -> bool {
        true
    }

    open spec fn from_spec(v: &Person) -> PersonView {
        PersonView { id: v.id, name: v.name }
    }
}

/// `l` with the ids of `original` put back: its own id, and those of the places around it,
/// as far as both have places around them.
pub open spec fn restored_location(l: LocationView, original: LocationView) -> LocationView
    decreases l,
{
    LocationView {
        id: original.id,
        name: l.name,
        outer: match (l.outer, original.outer) {
            (Some(a), Some(b)) => Some(Box::new(restored_location(*a, *b))),
            _ => l.outer,
        },
    }
}

/// `o` with the ids of `original` put back, its location's too.
pub open spec fn restored_organization(o: OrganizationView, original: OrganizationView) -> OrganizationView {
    OrganizationView {
        id: original.id,
        location: restored_location(o.location, original.location),
        name: o.name,
    }
}

/// `p` with the id of `original` put back.
pub open spec fn restored_person(p: PersonView, original: PersonView) -> PersonView {
    PersonView { id: original.id, name: p.name }
}

/// `c` with the ids of `original` put back: where both are addresses, the ids of the place.
pub open spec fn restored_contact(c: ContactView, original: ContactView) -> ContactView {
    match (c, original) {
        (ContactView::Address { location, export }, ContactView::Address { location: o, .. }) =>
            ContactView::Address { location: restored_location(location, o), export },
        _ => c,
    }
}

/// The first contact labelled `label` in `s`, if any.
pub open spec fn contact_labelled(s: Seq<(String, ContactView)>, label: Seq<char>) -> Option<ContactView>
    decreases s.len(),
{
    if s.len() == 0 {
        None
    } else if s[0].0@ == label {
        Some(s[0].1)
    } else {
        contact_labelled(s.drop_first(), label)
    }
}

/// One labelled contact with the ids of the contact of the same label in `original` put back.
pub open spec fn restored_entry(
    e: (String, ContactView),
    original: Seq<(String, ContactView)>,
) -> (String, ContactView) {
    match contact_labelled(original, e.0@) {
        Some(o) => (e.0, restored_contact(e.1, o)),
        None => e,
    }
}

/// Labelled contacts, each with the ids of the contact of the same label in `original` put
/// back.
pub open spec fn restored_contacts(
    s: Seq<(String, ContactView)>,
    original: Seq<(String, ContactView)>,
) -> Seq<(String, ContactView)> {
    s.map_values(|e: (String, ContactView)| restored_entry(e, original))
}

impl PersonView {
    /// Puts back the id of `original`, which editing may have changed.
    pub fn restore(&mut self, original: &PersonView)
        ensures
            *final(self) == restored_person(*old(self), *original),
    {
        self.id = original.id;
    }
}

impl LocationView {
    /// Puts back the ids of `original`, which editing may have changed: this place's, and those
    /// of the places around it, as far as both have places around them.
    pub fn restore(&mut self, original: &LocationView)
        ensures
            *final(self) == restored_location(*old(self), *original),
        decreases *old(self),
    {
        self.id = original.id;
        let taken = self.outer.take();
        match taken {
            Some(mut inner) => {
                match &original.outer {
                    Some(o) => {
                        (&mut *inner).restore(o);
                    },
                    None => {},
                }
                self.outer = Some(inner);
            },
            None => {},
        }
    }
}

impl OrganizationView {
    /// Puts back the ids of `original`, which editing may have changed.
    pub fn restore(&mut self, original: &OrganizationView)
        ensures
            *final(self) == restored_organization(*old(self), *original),
    {
        self.id = original.id;
        self.location.restore(&original.location);
    }
}

impl ContactView {
    /// This contact with the ids of `original` put back.
    pub fn restored(self, original: &ContactView) -> (res: ContactView)
        ensures
            res == restored_contact(self, *original),
    {
        match self {
            ContactView::Address { mut location, export } => {
                match original {
                    ContactView::Address { location: o, .. } => {
                        location.restore(o);
                    },
                    _ => {},
                }
                ContactView::Address { location, export }
            },
            other => other,
        }
    }
}

/// The position of the first contact labelled `label` in `entries`, if any.
fn position_of_label(entries: &Vec<(String, ContactView)>, label: &String) -> (res: Option<usize>)
    ensures
        match res {
            Some(i) => i < entries.len() && contact_labelled(entries@, label@) == Some(
                entries@[i as int].1,
            ),
            None => contact_labelled(entries@, label@) is None,
        },
{
    let mut i: usize = 0;
    assert(entries@.skip(0) =~= entries@);
    while i < entries.len()
        invariant
            i <= entries.len(),
            contact_labelled(entries@, label@) == contact_labelled(entries@.skip(i as int), label@),
        decreases entries.len() - i,
    {
        assert(entries@.skip(i as int)[0] == entries@[i as int]);
        assert(entries@.skip(i as int).drop_first() =~= entries@.skip(i + 1));
        if entries[i].0 == *label {
            return Some(i);
        }
        i = i + 1;
    }
    assert(entries@.skip(i as int).len() == 0);
    None
}

impl EmployeeView {
    /// Puts back the ids of `original`, which editing may have changed: the employee's, their
    /// organization's, their person's, and those of each contact whose label `original` has.
    pub fn restore(&mut self, original: &EmployeeView)
        requires
            old(self).well_formed(),
            original.well_formed(),
        ensures
            final(self).well_formed(),
            final(self).contact_info@ == restored_contacts(
                old(self).contact_info@,
                original.contact_info@,
            ),
            final(self).id == original.id,
            final(self).organization == restored_organization(
                old(self).organization,
                original.organization,
            ),
            final(self).person == restored_person(old(self).person, original.person),
            final(self).status == old(self).status,
            final(self).title == old(self).title,
    {
        let mut rest: Vec<(String, ContactView)> = Vec::new();
        std::mem::swap(&mut rest, &mut self.contact_info);
        let ghost entries = rest@;
        let ghost originals = original.contact_info@;
        let count = rest.len();
        assert(entries.len() == count);
        let mut k: usize = 0;
        while rest.len() > 0
            invariant
                k + rest@.len() == entries.len(),
                rest@ == entries.skip(k as int),
                originals == original.contact_info@,
                entries.len() <= usize::MAX,
                self.contact_info@ == restored_contacts(entries.take(k as int), originals),
                self.organization == old(self).organization,
                self.person == old(self).person,
                self.status == old(self).status,
                self.title == old(self).title,
                self.id == old(self).id,
            decreases rest.len(),
        {
            let (label, contact) = rest.remove(0);
            let restored = match position_of_label(&original.contact_info, &label) {
                Some(i) => contact.restored(&original.contact_info[i].1),
                None => contact,
            };
            let ghost e = entries[k as int];
            assert(e == (label, contact));
            self.contact_info.push((label, restored));
            assert(entries.take(k + 1) =~= entries.take(k as int).push(e));
            assert(self.contact_info@ =~= restored_contacts(entries.take(k + 1), originals));
            k = k + 1;
            assert(rest@ =~= entries.skip(k as int));
        }
        assert(entries.take(k as int) =~= entries);
        self.id = original.id;
        self.organization.restore(&original.organization);
        self.person.restore(&original.person);
    }
}

} // verus!
