//! Properties that hold across the library's operations.
use vstd::prelude::*;

use crate::args::{flag_of, store_position, FlagOrArgument, Store};
use crate::create::creation_order;
use crate::markdown::{heading_text, ordered_item_text, unordered_item_text};
use crate::export::{
    contact_section,
    expense_block,
    expense_blocks,
    exported_contacts,
    Expense,
    job_timesheets,
    timesheet_contacts,
    timesheet_text,
    timesheets_text,
    InvoiceDate,
    JobView,
    TimesheetView,
};
use crate::args::{Format, RetrieveCommand};
use crate::retrieve::{prints_retrieved, unpaid};
use crate::sorting::{
    by_label,
    lemma_by_label_strict,
    lemma_sort_by_len,
    lemma_sort_by_map,
    lemma_sort_by_permutes,
    lemma_sort_by_sorted,
    lemma_sort_by_unique,
    sort_by,
};
use crate::text::{lemma_seq_lt_total, repeat_seq, seq_lt};
use crate::time::{chrono_rounded, rounded_to, Timestamp};
use crate::update::{updated_dates, updated_times};
use crate::views::{
    contact_lines,
    contact_text,
    distinct_labels,
    employee_text,
    location_text,
    restored_contact,
    restored_contacts,
    restored_entry,
    restored_location,
    restored_organization,
    restored_person,
    same_employee,
    same_location,
    same_organization,
    same_person,
    sorted_contact_lines,
    status_text,
    contact_exported,
    EmployeeStatus,
    ContactView,
    EmployeeView,
    Id,
    LocationView,
};

verus! {

proof fn lemma_restored_location_text(l: LocationView, original: LocationView)
    ensures
        location_text(restored_location(l, original)) == location_text(l),
    decreases l,
{
    match (l.outer, original.outer) {
        (Some(a), Some(b)) => lemma_restored_location_text(*a, *b),
        _ => {},
    }
}

proof fn lemma_restored_contact_text(c: ContactView, original: ContactView)
    ensures
        contact_text(restored_contact(c, original)) == contact_text(c),
{
    match (c, original) {
        (ContactView::Address { location, .. }, ContactView::Address { location: o, .. }) => {
            lemma_restored_location_text(location, o);
        },
        _ => {},
    }
}

proof fn lemma_restored_lines(
    s: Seq<(String, ContactView)>,
    original: Seq<(String, ContactView)>,
    bold: bool,
)
    ensures
        contact_lines(s.map_values(|e: (String, ContactView)| restored_entry(e, original)), bold)
            == contact_lines(s, bold),
    decreases s.len(),
{
    let t = s.map_values(|e: (String, ContactView)| restored_entry(e, original));
    if s.len() > 0 {
        assert(t.drop_first() =~= s.drop_first().map_values(
            |e: (String, ContactView)| restored_entry(e, original),
        ));
        lemma_restored_lines(s.drop_first(), original, bold);
        match crate::views::contact_labelled(original, s[0].0@) {
            Some(o) => lemma_restored_contact_text(s[0].1, o),
            None => {},
        }
    }
}

/// Putting back the ids of an edited employee, as is done after the user edits the record,
/// does not change how the employee is shown: ids are never shown.
pub proof fn law_restore_keeps_employee_display(
    edited: EmployeeView,
    original: EmployeeView,
    restored: EmployeeView,
)
    requires
        restored.contact_info@ == restored_contacts(
            edited.contact_info@,
            original.contact_info@,
        ),
        restored.organization == restored_organization(edited.organization, original.organization),
        restored.person == restored_person(edited.person, original.person),
        restored.status == edited.status,
        restored.title == edited.title,
    ensures
        employee_text(restored) == employee_text(edited),
{
    let g = |e: (String, ContactView)| restored_entry(e, original.contact_info@);
    let s = edited.contact_info@;
    lemma_restored_location_text(edited.organization.location, original.organization.location);
    assert forall|a: (String, ContactView), b: (String, ContactView)|
        #[trigger] by_label::<ContactView>()(g(a), g(b)) == by_label::<ContactView>()(a, b) by {
        assert(g(a).0 == a.0);
        assert(g(b).0 == b.0);
    }
    lemma_sort_by_map(s, by_label::<ContactView>(), by_label::<ContactView>(), g);
    lemma_restored_lines(sort_by(s, by_label::<ContactView>()), original.contact_info@, false);
    assert(restored.contact_info@.len() == s.len());
}

/// Contacts are listed by label whatever order they are held in: two collections of the same
/// labelled contacts, no label twice, are listed alike.
pub proof fn law_contact_order_irrelevant(
    s: Seq<(String, ContactView)>,
    t: Seq<(String, ContactView)>,
    bold: bool,
)
    requires
        distinct_labels(s),
        s.to_multiset() == t.to_multiset(),
    ensures
        sorted_contact_lines(s, bold) == sorted_contact_lines(t, bold),
{
    lemma_by_label_strict::<ContactView>();
    assert forall|i: int, j: int|
        0 <= i < s.len() && 0 <= j < s.len() && s[i] != s[j] implies by_label::<ContactView>()(
            #[trigger] s[i],
            #[trigger] s[j],
        ) || by_label::<ContactView>()(s[j], s[i]) by {
        assert(i != j);
        lemma_seq_lt_total(s[i].0@, s[j].0@);
    }
    lemma_sort_by_unique(s, t, by_label::<ContactView>());
}

/// An employee is shown alike whatever order their contacts are held in (no label twice).
pub proof fn law_employee_display_ignores_contact_order(a: EmployeeView, b: EmployeeView)
    requires
        distinct_labels(a.contact_info@),
        a.contact_info@.to_multiset() == b.contact_info@.to_multiset(),
        a.organization == b.organization,
        a.person == b.person,
        a.status == b.status,
        a.title == b.title,
    ensures
        employee_text(a) == employee_text(b),
{
    law_contact_order_irrelevant(a.contact_info@, b.contact_info@, false);
    vstd::seq_lib::to_multiset_len(a.contact_info@);
    vstd::seq_lib::to_multiset_len(b.contact_info@);
}

/// Contacts are listed in the order of their labels, and each one exactly as often as it is
/// held.
pub proof fn law_contacts_listed_by_label(s: Seq<(String, ContactView)>)
    ensures
        forall|i: int, j: int|
            0 <= i < j < s.len() ==> !seq_lt(
                (#[trigger] sort_by(s, by_label::<ContactView>())[j]).0@,
                (#[trigger] sort_by(s, by_label::<ContactView>())[i]).0@,
            ),
        sort_by(s, by_label::<ContactView>()).to_multiset() == s.to_multiset(),
{
    lemma_by_label_strict::<ContactView>();
    lemma_sort_by_sorted(s, by_label::<ContactView>());
    lemma_sort_by_permutes(s, by_label::<ContactView>());
    lemma_sort_by_len(s, by_label::<ContactView>());
}

proof fn lemma_same_location_reflexive(l: LocationView)
    ensures
        same_location(l, l),
    decreases l,
{
    if let Some(o) = l.outer {
        lemma_same_location_reflexive(*o);
    }
}

proof fn lemma_same_location_symmetric(a: LocationView, b: LocationView)
    requires
        same_location(a, b),
    ensures
        same_location(b, a),
    decreases a,
{
    if let (Some(x), Some(y)) = (a.outer, b.outer) {
        lemma_same_location_symmetric(*x, *y);
    }
}

proof fn lemma_same_location_transitive(a: LocationView, b: LocationView, c: LocationView)
    requires
        same_location(a, b),
        same_location(b, c),
    ensures
        same_location(a, c),
    decreases a,
{
    if let (Some(x), Some(y), Some(z)) = (a.outer, b.outer, c.outer) {
        lemma_same_location_transitive(*x, *y, *z);
    }
}

/// Every employee equals itself.
pub proof fn law_employee_eq_reflexive(a: EmployeeView)
    ensures
        same_employee(a, a),
{
    lemma_same_location_reflexive(a.organization.location);
}

/// Employee equality does not depend on the order of the two.
pub proof fn law_employee_eq_symmetric(a: EmployeeView, b: EmployeeView)
    requires
        same_employee(a, b),
    ensures
        same_employee(b, a),
{
    lemma_same_location_symmetric(a.organization.location, b.organization.location);
}

/// Employees equal to a common employee are equal.
pub proof fn law_employee_eq_transitive(a: EmployeeView, b: EmployeeView, c: EmployeeView)
    requires
        same_employee(a, b),
        same_employee(b, c),
    ensures
        same_employee(a, c),
{
    lemma_same_location_transitive(
        a.organization.location,
        b.organization.location,
        c.organization.location,
    );
}

/// Reopening a job clears its closing date and its invoice dates, whatever else is asked.
pub proof fn law_reopen_clears_dates(
    date_close: Option<Timestamp>,
    invoice_date: Option<InvoiceDate>,
    close: Option<Timestamp>,
    issued: Option<Timestamp>,
    paid: Option<Timestamp>,
)
    ensures
        updated_dates(date_close, invoice_date, close, issued, paid, true) == (
            None::<Timestamp>,
            None::<InvoiceDate>,
        ),
{
}

/// Closing a job (without reopening it) leaves it closed at the time asked for.
pub proof fn law_close_closes(
    date_close: Option<Timestamp>,
    invoice_date: Option<InvoiceDate>,
    close: Timestamp,
    issued: Option<Timestamp>,
    paid: Option<Timestamp>,
)
    ensures
        updated_dates(date_close, invoice_date, Some(close), issued, paid, false).0 == Some(close),
{
}

/// Paying the invoice of a job whose invoice was never issued records nothing.
pub proof fn law_payment_needs_issued_invoice(
    date_close: Option<Timestamp>,
    close: Option<Timestamp>,
    paid: Timestamp,
)
    ensures
        updated_dates(date_close, None, close, None, Some(paid), false).1 == None::<InvoiceDate>,
{
}

/// Issuing an invoice and paying it at once records both dates; issuing alone records an
/// unpaid invoice.
pub proof fn law_issue_records_dates(
    date_close: Option<Timestamp>,
    invoice_date: Option<InvoiceDate>,
    close: Option<Timestamp>,
    issued: Timestamp,
    paid: Option<Timestamp>,
)
    ensures
        updated_dates(date_close, invoice_date, close, Some(issued), paid, false).1 == Some(
            InvoiceDate { issued, paid },
        ),
{
}

/// Restarting a timesheet makes it active again: it begins at the time given and has not
/// ended, even where stopping is asked for as well.
pub proof fn law_restart_takes_precedence(
    time_begin: Timestamp,
    time_end: Option<Timestamp>,
    restart: Timestamp,
    stop: Option<Timestamp>,
)
    ensures
        updated_times(time_begin, time_end, Some(restart), stop) == (restart, None::<Timestamp>),
{
}

/// Rounding a point outside a leap second lands on a multiple of the increment, the nearest
/// one (the later on a tie), no more than half an increment away, and outside a leap second.
pub proof fn law_rounding_is_nearest_multiple(secs: int, nanos: int, span: int)
    requires
        span > 0,
        0 <= nanos < 1_000_000_000,
    ensures
        ({
            let t = secs * 1_000_000_000 + nanos;
            let r = chrono_rounded(secs, nanos, span);
            &&& r.0 * 1_000_000_000 + r.1 == rounded_to(t, span)
            &&& 0 <= r.1 < 1_000_000_000
            &&& rounded_to(t, span) % span == 0
            &&& 2 * (rounded_to(t, span) - t) <= span
            &&& 2 * (t - rounded_to(t, span)) < span
        }),
{
    let t = secs * 1_000_000_000 + nanos;
    lemma_rounded_to_nearest(t, span);
    let x = rounded_to(t, span);
    assert(x == (x / 1_000_000_000) * 1_000_000_000 + x % 1_000_000_000 && 0 <= x % 1_000_000_000
        < 1_000_000_000) by (nonlinear_arith);
}

/// `rounded_to` gives the nearest multiple of `span`, no more than half of it away.
proof fn lemma_rounded_to_nearest(t: int, span: int)
    requires
        span > 0,
    ensures
        rounded_to(t, span) % span == 0,
        2 * (rounded_to(t, span) - t) <= span,
        2 * (t - rounded_to(t, span)) < span,
{
    let e = t % span;
    let q = t / span;
    assert(t == q * span + e && 0 <= e < span) by (nonlinear_arith)
        requires
            span > 0,
            e == t % span,
            q == t / span,
    ;
    if e == 0 {
        assert(t % span == 0);
    } else if 2 * e >= span {
        assert((q + 1) * span == q * span + span) by (nonlinear_arith);
        assert((t + (span - e)) % span == 0) by (nonlinear_arith)
            requires
                t == q * span + e,
                span > 0,
                t + (span - e) == (q + 1) * span,
        ;
    } else {
        assert((t - e) % span == 0) by (nonlinear_arith)
            requires
                t - e == q * span,
                span > 0,
        ;
    }
}

/// The employees whose timesheets are among `ts`.
pub open spec fn employee_ids(ts: Seq<TimesheetView>) -> Set<Id> {
    Set::new(|id: Id| exists|j: int| 0 <= j < ts.len() && (#[trigger] ts[j]).employee.id == id)
}

/// Timesheets are exported in turn: each one knowing the employees whose timesheets were
/// exported before it, those of `seen` and those of the timesheets ahead of it.
pub proof fn law_timesheets_exported_in_turn(ts: Seq<TimesheetView>, seen: Set<Id>)
    ensures
        timesheets_text(ts, seen) == Seq::new(
            ts.len(),
            |i: int| timesheet_text(ts[i], seen.union(employee_ids(ts.take(i)))),
        ).flatten(),
    decreases ts.len(),
{
    let parts = Seq::new(
        ts.len(),
        |i: int| timesheet_text(ts[i], seen.union(employee_ids(ts.take(i)))),
    );
    if ts.len() > 0 {
        let rest = ts.drop_first();
        let seen_next = seen.insert(ts[0].employee.id);
        law_timesheets_exported_in_turn(rest, seen_next);
        let rest_parts = Seq::new(
            rest.len(),
            |i: int| timesheet_text(rest[i], seen_next.union(employee_ids(rest.take(i)))),
        );
        assert(seen.union(employee_ids(ts.take(0))) =~= seen);
        assert forall|i: int| 0 <= i < rest.len() implies seen.union(employee_ids(ts.take(i + 1)))
            == seen_next.union(employee_ids(rest.take(i))) by {
            assert forall|id: Id| #[trigger] employee_ids(ts.take(i + 1)).contains(id) <==> (id
                == ts[0].employee.id || employee_ids(rest.take(i)).contains(id)) by {
                if employee_ids(ts.take(i + 1)).contains(id) {
                    let j = choose|j: int| 0 <= j < i + 1 && (#[trigger] ts.take(i + 1)[j]).employee.id == id;
                    if j > 0 {
                        assert(rest.take(i)[j - 1] == ts.take(i + 1)[j]);
                    }
                }
                if employee_ids(rest.take(i)).contains(id) {
                    let j = choose|j: int| 0 <= j < i && (#[trigger] rest.take(i)[j]).employee.id == id;
                    assert(ts.take(i + 1)[j + 1] == rest.take(i)[j]);
                }
                if id == ts[0].employee.id {
                    assert(ts.take(i + 1)[0] == ts[0]);
                }
            }
            assert(seen.union(employee_ids(ts.take(i + 1))) =~= seen_next.union(
                employee_ids(rest.take(i)),
            ));
        }
        assert(parts.drop_first() =~= rest_parts);
    } else {
        assert(parts =~= Seq::<Seq<char>>::empty());
    }
}

/// The timesheets of an exported job are written in turn, each knowing the employees of the
/// timesheets before it; none are known before the first.
pub proof fn law_job_timesheets_in_turn(ts: Seq<TimesheetView>)
    requires
        ts.len() > 0,
    ensures
        job_timesheets(ts) == heading_text(2, "Timesheets"@) + "\n"@ + Seq::new(
            ts.len(),
            |i: int| timesheet_text(ts[i], employee_ids(ts.take(i))),
        ).flatten(),
{
    law_timesheets_exported_in_turn(ts, Set::empty());
    assert forall|i: int| 0 <= i < ts.len() implies Set::<Id>::empty().union(
        employee_ids(ts.take(i)),
    ) == employee_ids(ts.take(i)) by {
        assert(Set::<Id>::empty().union(employee_ids(ts.take(i))) =~= employee_ids(ts.take(i)));
    }
    assert(Seq::new(
        ts.len(),
        |i: int| timesheet_text(ts[i], Set::<Id>::empty().union(employee_ids(ts.take(i)))),
    ) =~= Seq::new(ts.len(), |i: int| timesheet_text(ts[i], employee_ids(ts.take(i)))));
}

/// An employee's contacts are listed once in an export: with the first of their timesheets,
/// and with none after it.
pub proof fn law_contacts_listed_once(ts: Seq<TimesheetView>, i: int)
    requires
        0 <= i < ts.len(),
    ensures
        timesheet_contacts(ts[i], employee_ids(ts.take(i))) == (if exists|j: int|
            0 <= j < i && #[trigger] ts[j].employee.id == ts[i].employee.id {
            Seq::<char>::empty()
        } else {
            contact_section(ts[i])
        }),
{
    if exists|j: int| 0 <= j < i && #[trigger] ts[j].employee.id == ts[i].employee.id {
        let j = choose|j: int| 0 <= j < i && #[trigger] ts[j].employee.id == ts[i].employee.id;
        assert(ts.take(i)[j] == ts[j]);
        assert(employee_ids(ts.take(i)).contains(ts[i].employee.id));
    } else {
        if employee_ids(ts.take(i)).contains(ts[i].employee.id) {
            let j = choose|j: int| 0 <= j < i && (#[trigger] ts.take(i)[j]).employee.id == ts[i].employee.id;
            assert(ts[j] == ts.take(i)[j]);
        }
    }
}

/// After jobs are exported, every one of them has an issued invoice: the unpaid ones were
/// issued at the time of the export, the paid ones keep their dates.
pub proof fn law_export_issues_every_invoice(job: JobView, now: Timestamp)
    ensures
        (if unpaid(job) {
            Some(InvoiceDate { issued: now, paid: None })
        } else {
            job.invoice.date
        }) is Some,
{
}

/// New locations are created outermost first: the names are given innermost first, and the
/// first location created bears the last name given, each next one the name before; no name,
/// no location.
pub proof fn law_locations_created_outermost_first(names: Seq<String>)
    ensures
        creation_order(names).len() == names.len(),
        forall|i: int|
            0 <= i < names.len() ==> #[trigger] creation_order(names)[i] == names[names.len() - 1
                - i],
{
}

/// A store is found by its name: the store found bears that name, and no store before it
/// does.
pub proof fn law_store_found_by_name(stores: Seq<(String, Store)>, name: Seq<char>)
    ensures
        store_position(stores, name) matches Some(i) ==> 0 <= i < stores.len() && stores[i].0@
            == name && forall|j: int| 0 <= j < i ==> (#[trigger] stores[j]).0@ != name,
        store_position(stores, name) is None ==> forall|j: int|
            0 <= j < stores.len() ==> (#[trigger] stores[j]).0@ != name,
    decreases stores.len(),
{
    if stores.len() > 0 {
        law_store_found_by_name(stores.drop_first(), name);
        assert forall|j: int| 1 <= j < stores.len() implies stores[j] == stores.drop_first()[j - 1] by {}
    }
}

/// An option counts as given exactly where it has an argument or is a set flag.
pub proof fn law_flag_given<T>(f: FlagOrArgument<T>)
    ensures
        !flag_of(f) <==> f == FlagOrArgument::<T>::Flag(false),
{
}

/// A contact is exported exactly where the user marked it so: whatever kind of contact it is,
/// its export flag decides.
pub proof fn law_contact_exported_by_its_flag(c: ContactView)
    ensures
        contact_exported(c) == match c {
            ContactView::Address { export, .. } => export,
            ContactView::Email { export, .. } => export,
            ContactView::Phone { export, .. } => export,
        },
{
}

/// The contacts exported with a timesheet are exactly those of the employee marked for export,
/// in the order held: none that is not marked, and every one that is.
pub proof fn law_exported_contacts_are_the_marked_ones(s: Seq<(String, ContactView)>)
    ensures
        exported_contacts(s) == s.filter(
            |e: (String, ContactView)|
                match e.1 {
                    ContactView::Address { export, .. } => export,
                    ContactView::Email { export, .. } => export,
                    ContactView::Phone { export, .. } => export,
                },
        ),
    decreases s.len(),
{
    reveal(Seq::filter);
    if s.len() > 0 {
        law_exported_contacts_are_the_marked_ones(s.drop_last());
    }
}

/// Every expense is exported, once and in order: the expenses of two lists one after the other
/// are exported as the first list's, then the second's, and a single expense as its own block.
pub proof fn law_expenses_exported_in_order(s: Seq<Expense>, t: Seq<Expense>)
    ensures
        expense_blocks(s + t) == expense_blocks(s) + expense_blocks(t),
    decreases s.len(),
{
    if s.len() == 0 {
        assert(s + t =~= t);
    } else {
        law_expenses_exported_in_order(s.drop_first(), t);
        assert((s + t).drop_first() =~= s.drop_first() + t);
        assert((s + t)[0] == s[0]);
    }
}

/// A single expense is exported as its block: its category and cost as a heading, then its
/// description.
pub proof fn law_single_expense_exported(x: Expense)
    ensures
        expense_blocks(seq![x]) == expense_block(x),
{
    assert(seq![x].drop_first() =~= Seq::<Expense>::empty());
    assert(expense_blocks(Seq::<Expense>::empty()) == Seq::<char>::empty());
    assert(expense_blocks(seq![x]) == expense_block(seq![x][0]) + expense_blocks(
        seq![x].drop_first(),
    ));
    assert(expense_block(x) + Seq::<char>::empty() =~= expense_block(x));
}

/// Different statuses are written differently, each as its name.
pub proof fn law_status_names(a: EmployeeStatus, b: EmployeeStatus)
    ensures
        status_text(a) == status_text(b) ==> a == b,
        status_text(EmployeeStatus::Employed) == "Employed"@,
        status_text(EmployeeStatus::NotEmployed) == "Not Employed"@,
        status_text(EmployeeStatus::Representative) == "Representative"@,
{
    reveal_strlit("Employed");
    reveal_strlit("Not Employed");
    reveal_strlit("Representative");
    assert(status_text(EmployeeStatus::Employed).len() == 8);
    assert(status_text(EmployeeStatus::NotEmployed).len() == 12);
    assert(status_text(EmployeeStatus::Representative).len() == 14);
}

/// Text written `n + 1` times is the text, then the text written `n` times.
proof fn lemma_repeat_seq_prepend(s: Seq<char>, n: nat)
    ensures
        repeat_seq(s, n + 1) == s + repeat_seq(s, n),
    decreases n,
{
    if n == 0 {
        assert(repeat_seq(s, 1) == repeat_seq(s, 0) + s);
        assert(Seq::<char>::empty() + s =~= s + Seq::<char>::empty());
    } else {
        lemma_repeat_seq_prepend(s, (n - 1) as nat);
        assert(repeat_seq(s, n + 1) == repeat_seq(s, n) + s);
        assert(repeat_seq(s, n) == repeat_seq(s, (n - 1) as nat) + s);
        assert(s + repeat_seq(s, (n - 1) as nat) + s =~= s + (repeat_seq(s, (n - 1) as nat) + s));
    }
}

/// Text written `n` times has `n` times its length, and is made of its characters only.
proof fn lemma_repeat_tab(n: nat)
    ensures
        repeat_seq(seq!['\t'], n).len() == n,
        forall|i: int| 0 <= i < n ==> #[trigger] repeat_seq(seq!['\t'], n)[i] == '\t',
    decreases n,
{
    if n > 0 {
        lemma_repeat_tab((n - 1) as nat);
    }
}

/// A list item one level deeper is the same item with one more tab in front, and an item at
/// the top level has none: a numbered item of depth `d` begins with exactly `d` tabs, then
/// `1. `, as an unnumbered item of the same depth begins with `d` tabs, then `- `.
pub proof fn law_list_items_indented_by_depth(d: usize, text: Seq<char>)
    ensures
        d < usize::MAX ==> ordered_item_text((d + 1) as usize, text) == seq!['\t'] + ordered_item_text(
            d,
            text,
        ),
        d < usize::MAX ==> unordered_item_text((d + 1) as usize, text) == seq!['\t']
            + unordered_item_text(d, text),
        ordered_item_text(0, text) == seq!['1', '.', ' '] + text,
        unordered_item_text(0, text) == seq!['-', ' '] + text,
        ordered_item_text(d, text).len() == d + 3 + text.len(),
        forall|i: int| 0 <= i < d ==> #[trigger] ordered_item_text(d, text)[i] == '\t',
        ordered_item_text(d, text).subrange(d as int, d + 3) == seq!['1', '.', ' '],
        ordered_item_text(d, text).take(d as int) == unordered_item_text(d, text).take(d as int),
{
    let tab = seq!['\t'];
    lemma_repeat_tab(d as nat);
    if d < usize::MAX {
        lemma_repeat_seq_prepend(tab, d as nat);
        assert(ordered_item_text((d + 1) as usize, text) =~= tab + ordered_item_text(d, text));
        assert(unordered_item_text((d + 1) as usize, text) =~= tab + unordered_item_text(d, text));
    }
    assert(repeat_seq(tab, 0) =~= Seq::<char>::empty());
    assert(ordered_item_text(0, text) =~= seq!['1', '.', ' '] + text);
    assert(unordered_item_text(0, text) =~= seq!['-', ' '] + text);
    let o = ordered_item_text(d, text);
    assert forall|i: int| 0 <= i < d implies #[trigger] o[i] == '\t' by {
        assert(o[i] == repeat_seq(tab, d as nat)[i]);
    }
    assert(o.subrange(d as int, d + 3) =~= seq!['1', '.', ' ']);
    assert(o.take(d as int) =~= repeat_seq(tab, d as nat));
    assert(unordered_item_text(d, text).take(d as int) =~= repeat_seq(tab, d as nat));
}

/// A heading one level deeper is the same heading with one more `#` in front.
pub proof fn law_headings_deepen_by_one_hash(d: usize, text: Seq<char>)
    requires
        1 <= d < usize::MAX,
    ensures
        heading_text((d + 1) as usize, text) == seq!['#'] + heading_text(d, text),
{
    lemma_repeat_seq_prepend(seq!['#'], d as nat);
    assert(heading_text((d + 1) as usize, text) =~= seq!['#'] + heading_text(d, text));
}

/// `clinvoice retrieve` prints what it retrieved unless it is choosing the default employee or
/// the employer for the configuration, or exporting jobs: whether the default employee or the
/// employer was retrieved plays no part, and every other kind of record is printed.
pub proof fn law_retrieve_prints_unless_choosing_or_exporting(
    default: bool,
    other_default: bool,
    set_default: bool,
    employer: bool,
    other_employer: bool,
    set_employer: bool,
    currency: String,
    export: bool,
    format: Format,
    output_dir: Option<String>,
)
    ensures
        prints_retrieved(RetrieveCommand::Employee { default, set_default }) == !set_default,
        prints_retrieved(RetrieveCommand::Employee { default, set_default }) == prints_retrieved(
            RetrieveCommand::Employee { default: other_default, set_default },
        ),
        prints_retrieved(RetrieveCommand::Organization { employer, set_employer })
            == !set_employer,
        prints_retrieved(RetrieveCommand::Organization { employer, set_employer })
            == prints_retrieved(
            RetrieveCommand::Organization { employer: other_employer, set_employer },
        ),
        prints_retrieved(RetrieveCommand::Job { currency, export, format, output_dir }) == !export,
        prints_retrieved(RetrieveCommand::Contact),
        prints_retrieved(RetrieveCommand::Expense),
        prints_retrieved(RetrieveCommand::Location),
        prints_retrieved(RetrieveCommand::Timesheet),
{
}

} // verus!
