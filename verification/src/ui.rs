use crate::document::views;
use crate::error::Error;
use crate::models::{Customer, CustomerView, Invoice, InvoiceView};
use crate::store::{FilesystemDatabase, Model};
use crate::text::{decimal, decimal_text, spaced};
use vstd::prelude::*;
use vstd::string::StringExecFns;

verus! {

/// A record type that can be shown as a row of a table.
pub trait TableAble: Sized + View {
    /// The titles of the columns.
    spec fn titles() -> Seq<Seq<char>>;

    /// The cells of the row of a record.
    spec fn cells(v: Self::V) -> Seq<Seq<char>>;

    /// The titles of the columns.
    fn header() -> (header: Vec<String>)
        ensures
            views(header@) == Self::titles(),
    ;

    /// The cells of the row of this record.
    fn row(self) -> (row: Vec<String>)
        ensures
            views(row@) == Self::cells(self@),
    ;
}

/// The text of a cell for a text that may be missing.
pub open spec fn cell(text: Option<Seq<char>>) -> Seq<char> {
    match text {
        Some(text) => text,
        None => "n/a"@,
    }
}

/// The text of a cell for a text that may be missing.
fn cell_text(text: Option<String>) -> (cell_text: String)
    ensures
        cell_text@ == cell(crate::document::optional_view(text)),
{
    match text {
        Some(text) => text,
        None => "n/a".to_owned(),
    }
}

impl TableAble for Customer {
    open spec fn titles() -> Seq<Seq<char>> {
        seq!["ID"@, "Business"@, "Name"@, "Surname"@, "Email"@, "Phone"@, "Invoices"@]
    }

    open spec fn cells(v: CustomerView) -> Seq<Seq<char>> {
        seq![
            v.id,
            v.organization,
            v.contact.name,
            v.contact.surname,
            cell(v.contact.email),
            cell(v.contact.phone),
            decimal(v.invoices.len()),
        ]
    }

    fn header() -> (header: Vec<String>) {
        let mut header: Vec<String> = Vec::new();
        header.push("ID".to_owned());
        header.push("Business".to_owned());
        header.push("Name".to_owned());
        header.push("Surname".to_owned());
        header.push("Email".to_owned());
        header.push("Phone".to_owned());
        header.push("Invoices".to_owned());
        assert(views(header@) =~= Self::titles());
        header
    }

    fn row(self) -> (row: Vec<String>) {
        let count = decimal_text(self.invoices.len() as u64);
        let mut row: Vec<String> = Vec::new();
        row.push(self.id);
        row.push(self.organization);
        row.push(self.contact.name);
        row.push(self.contact.surname);
        row.push(cell_text(self.contact.email));
        row.push(cell_text(self.contact.phone));
        row.push(count);
        assert(views(row@) =~= Self::cells(self@));
        row
    }
}

impl TableAble for Invoice {
    open spec fn titles() -> Seq<Seq<char>> {
        seq!["ID"@, "Customer"@, "Date"@]
    }

    open spec fn cells(v: InvoiceView) -> Seq<Seq<char>> {
        seq![v.id, v.customer, v.issuing_date.text()]
    }

    fn header() -> (header: Vec<String>) {
        let mut header: Vec<String> = Vec::new();
        header.push("ID".to_owned());
        header.push("Customer".to_owned());
        header.push("Date".to_owned());
        assert(views(header@) =~= Self::titles());
        header
    }

    fn row(self) -> (row: Vec<String>) {
        let date = self.issuing_date.to_text();
        let mut row: Vec<String> = Vec::new();
        row.push(self.id);
        row.push(self.customer);
        row.push(date);
        assert(views(row@) =~= Self::cells(self@));
        row
    }
}

/// The line by which a customer is offered for selection: its organization,
/// a hyphen, and the name of its contact.
pub open spec fn customer_label(v: CustomerView) -> Seq<char> {
    v.organization + " - "@ + spaced(v.contact.name, v.contact.surname)
}

impl Customer {
    /// The line by which the customer is offered for selection.
    pub fn label(&self) -> (label: String)
        ensures
            label@ == customer_label(self@),
    {
        let mut label = self.organization.clone();
        label.append(" - ");
        label.append(crate::text::spaced_text(&self.contact.name, &self.contact.surname).as_str());
        label
    }
}

impl Invoice {
    /// The line by which the invoice is offered for selection: its key.
    pub fn label(&self) -> (label: String)
        ensures
            label@ == self@.uuid,
    {
        self.uuid.clone()
    }
}

/// The rows of a table of records, in order.
pub open spec fn rows_of<T: TableAble>(records: Seq<T::V>) -> Seq<Seq<Seq<char>>> {
    Seq::new(records.len(), |i: int| T::cells(records[i]))
}

/// The values of the rows of a table.
pub open spec fn rows_view(rows: Seq<Vec<String>>) -> Seq<Seq<Seq<char>>> {
    Seq::new(rows.len(), |i: int| views(rows[i]@))
}

/// The rows of the table of all records of `T`, oldest first. An empty list
/// means that nothing was created yet.
pub fn rows<T: TableAble + Model>(db: &FilesystemDatabase) -> (result: Result<
    Vec<Vec<String>>,
    Error,
>)
    requires
        db.wf(),
    ensures
        match db@.read_all_records::<T>() {
            Ok(records) => result matches Ok(rows) && rows_view(rows@) == rows_of::<T>(records),
            Err(e) => result matches Err(x) && x@ == e,
        },
{
    let mut records = match db.read_all::<T>() {
        Ok(records) => records,
        Err(e) => return Err(e),
    };
    let ghost all = views(records@);
    let mut rows: Vec<Vec<String>> = Vec::new();
    while records.len() > 0
        invariant
            records.len() + rows.len() == all.len(),
            views(records@) == all.take(records.len() as int),
            forall|j: int|
                0 <= j < rows.len() ==> views(rows[j]@) == T::cells(all[records.len() + j]),
        decreases records.len(),
    {
        let ghost n = records.len() as int;
        let ghost before = views(records@);
        let record = records.pop().unwrap();
        assert(record@ == before[n - 1]);
        assert(views(records@) =~= all.take(n - 1));
        rows.insert(0, record.row());
    }
    assert(rows_view(rows@) =~= rows_of::<T>(all));
    Ok(rows)
}

} // verus!
