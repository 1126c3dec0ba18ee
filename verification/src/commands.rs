use crate::date::{date_after, Date};
use crate::document::{views, YamlAble};
use crate::error::{Error, ErrorView};
use crate::identity::{identifier, render_id, uuid_v7};
use crate::models::{
    Business, BusinessView, Config, ConfigView, Customer, CustomerView, Invoice, InvoiceView,
    BUSINESS_PRIMARY_KEY, CONFIG_PRIMARY_KEY,
};
use crate::renderer::{TemplateInvoice, TemplateInvoiceView, DUE_AFTER_DAYS};
use crate::store::{
    lemma_create_effect, lemma_define_effect, lemma_delete_effect, lemma_update_effect,
    FilesystemDatabase, Model, StoreView,
};
use crate::text::{zero_padded, zero_padded_text};
use vstd::prelude::*;

verus! {

/// The four tables have four different names.
pub proof fn lemma_table_names()
    ensures
        Customer::table_name() != Invoice::table_name(),
        Customer::table_name() != Business::table_name(),
        Customer::table_name() != Config::table_name(),
        Invoice::table_name() != Business::table_name(),
        Invoice::table_name() != Config::table_name(),
        Business::table_name() != Config::table_name(),
{
    reveal_strlit("customers");
    reveal_strlit("invoices");
    reveal_strlit("business");
    reveal_strlit("config");
    assert("customers"@.len() == 9 && "invoices"@.len() == 8 && "business"@.len() == 8
        && "config"@.len() == 6);
    assert("invoices"@[0] == 'i' && "business"@[0] == 'b');
}

/// Which of the two single records a store lacked when it was made ready.
#[derive(Debug, Clone, Copy, PartialEq, Eq, Structural)]
pub struct Initialized {
    /// The configuration was missing.
    pub config: bool,
    /// The business was missing.
    pub business: bool,
}

/// The store with all four tables defined.
pub open spec fn with_tables(store: StoreView) -> StoreView {
    store.define_table::<Customer>().define_table::<Invoice>().define_table::<
        Business,
    >().define_table::<Config>()
}

/// Whether the store, once its tables are defined, lacks the configuration.
pub open spec fn lacks_config(store: StoreView) -> bool {
    with_tables(store).contains_record::<Config>("CONFIG"@) == Ok::<bool, ErrorView>(false)
}

/// Whether the store, once its tables are defined, lacks the business.
pub open spec fn lacks_business(store: StoreView) -> bool {
    with_tables(store).contains_record::<Business>("BUSINESS"@) == Ok::<bool, ErrorView>(false)
}

/// The store made ready for use: all four tables defined, and the
/// configuration and the business created, each as it is by default, where
/// they were missing.
pub open spec fn initialized(store: StoreView) -> StoreView {
    let tables = with_tables(store);
    let configured = if lacks_config(store) {
        tables.create_record::<Config>("CONFIG"@, ConfigView::initial())->Ok_0
    } else {
        tables
    };
    if lacks_business(store) {
        configured.create_record::<Business>("BUSINESS"@, BusinessView::empty())->Ok_0
    } else {
        configured
    }
}

/// Defines the four tables and tells which of the configuration and the
/// business are missing. No record is created: a program that lets the user
/// write the missing records first creates them afterwards.
pub fn prepare(db: &mut FilesystemDatabase) -> (missing: Initialized)
    requires
        old(db).wf(),
    ensures
        final(db).wf(),
        final(db).root() == old(db).root(),
        final(db)@ == with_tables(old(db)@),
        missing.config == lacks_config(old(db)@),
        missing.business == lacks_business(old(db)@),
{
    proof {
        lemma_table_names();
        let a = old(db)@;
        lemma_define_effect(a, Customer::table_name());
        let b = a.define_table::<Customer>();
        lemma_define_effect(b, Invoice::table_name());
        let c = b.define_table::<Invoice>();
        lemma_define_effect(c, Business::table_name());
        let d = c.define_table::<Business>();
        lemma_define_effect(d, Config::table_name());
    }
    let _ = db.define::<Customer>();
    let _ = db.define::<Invoice>();
    let _ = db.define::<Business>();
    let _ = db.define::<Config>();
    let config = match db.contains::<Config>(CONFIG_PRIMARY_KEY) {
        Ok(found) => !found,
        Err(_) => false,
    };
    let business = match db.contains::<Business>(BUSINESS_PRIMARY_KEY) {
        Ok(found) => !found,
        Err(_) => false,
    };
    Initialized { config, business }
}

/// Makes a store ready for use: defines the four tables and creates the
/// configuration and the business where they are missing, each as it is by
/// default. What is there already is left as it is.
pub fn init(db: &mut FilesystemDatabase) -> (made: Initialized)
    requires
        old(db).wf(),
    ensures
        final(db).wf(),
        final(db).root() == old(db).root(),
        final(db)@ == initialized(old(db)@),
        made.config == lacks_config(old(db)@),
        made.business == lacks_business(old(db)@),
{
    let made = prepare(db);
    let ghost tables = db@;
    proof {
        lemma_table_names();
    }
    if made.config {
        let _ = db.create(CONFIG_PRIMARY_KEY, Config::default());
        proof {
            lemma_create_effect(
                tables,
                Config::table_name(),
                "CONFIG"@,
                Config::encode(ConfigView::initial()),
            );
        }
    }
    if made.business {
        let _ = db.create(BUSINESS_PRIMARY_KEY, Business::default());
    }
    made
}

/// The text of a counter in an identifier: the number, with five digits at
/// least.
pub open spec fn counter_text(counter: usize) -> Seq<char> {
    zero_padded(counter as nat, 5)
}

/// The customer that is drafted next: under the key `uuid`, with the
/// identifier that the configured template yields on the day `today` for the
/// customer counter. Fails where the configuration cannot be read or the
/// template yields no identifier; of the latter error only the kind is said.
pub open spec fn next_customer(store: StoreView, uuid: Seq<char>, today: Date) -> Result<
    CustomerView,
    Option<ErrorView>,
> {
    match store.read_record::<Config>("CONFIG"@) {
        Err(e) => Err(Some(e)),
        Ok(config) => match identifier(
            config.customer_template,
            today,
            counter_text(config.customer_counter),
        ) {
            Some(id) => Ok(CustomerView::draft(uuid, id)),
            None => Err(None),
        },
    }
}

/// Whether what a drafting function returned is what the draft is to be: the
/// same record, the same error, or, where the template failed, an
/// `Identifier` error.
pub open spec fn is_draft<T: View>(
    result: Result<T, Error>,
    draft: Result<T::V, Option<ErrorView>>,
) -> bool {
    match draft {
        Ok(value) => result matches Ok(record) && record@ == value,
        Err(Some(e)) => result matches Err(x) && x@ == e,
        Err(None) => result matches Err(Error::Identifier(_)),
    }
}

/// Drafts the next customer under the key `uuid`, as of the day `today`. The
/// store is not changed: the draft is stored by [`add_customer`].
pub fn draft_customer_on(db: &FilesystemDatabase, uuid: String, today: &Date) -> (result: Result<
    Customer,
    Error,
>)
    requires
        db.wf(),
    ensures
        is_draft(result, next_customer(db@, uuid@, *today)),
{
    let config = match db.read::<Config>(CONFIG_PRIMARY_KEY) {
        Ok(config) => config,
        Err(e) => return Err(e),
    };
    let counter = zero_padded_text(config.customer_counter as u64, 5);
    match render_id(config.customer_template.as_str(), today, counter.as_str()) {
        Ok(id) => Ok(Customer::draft(uuid, id)),
        Err(e) => Err(e),
    }
}

/// Drafts the next customer under a new key, as of today: the result is what
/// [`draft_customer_on`] gives for the key of the draft and some day with a
/// month from 1 to 12 and a day from 1 to 31.
pub fn draft_customer(db: &FilesystemDatabase) -> (result: Result<Customer, Error>)
    requires
        db.wf(),
    ensures
        exists|uuid: Seq<char>, today: Date|
            uuid.len() == 36 && 1 <= today.month <= 12 && 1 <= today.day <= 31 && is_draft(
                result,
                #[trigger] next_customer(db@, uuid, today),
            ),
{
    let uuid = uuid_v7();
    let today = Date::today();
    let ghost key = uuid@;
    let result = draft_customer_on(db, uuid, &today);
    assert(is_draft(result, next_customer(db@, key, today)));
    result
}

/// The configuration with the customer counter one higher.
pub open spec fn customer_counted(config: ConfigView) -> ConfigView {
    ConfigView { customer_counter: (config.customer_counter + 1) as usize, ..config }
}

/// The configuration with the invoice counter one higher.
pub open spec fn invoice_counted(config: ConfigView) -> ConfigView {
    ConfigView { invoice_counter: (config.invoice_counter + 1) as usize, ..config }
}

/// The store after a customer was added: the customer is created under its
/// key and the customer counter is one higher. Fails where the configuration
/// cannot be read, the counter has reached its end, or the customer cannot be
/// created.
pub open spec fn customer_added(store: StoreView, customer: CustomerView) -> Result<
    StoreView,
    ErrorView,
> {
    match store.read_record::<Config>("CONFIG"@) {
        Err(e) => Err(e),
        Ok(config) => if config.customer_counter == usize::MAX {
            Err(ErrorView::Identifier("customer_counter"@))
        } else {
            match store.create_record::<Customer>(customer.uuid, customer) {
                Err(e) => Err(e),
                Ok(created) => created.update_record::<Config>("CONFIG"@, customer_counted(config)),
            }
        },
    }
}

/// Adds a customer: creates it under its key and counts it in the
/// configuration. Where it fails the store is left as it was.
pub fn add_customer(db: &mut FilesystemDatabase, customer: Customer) -> (result: Result<(), Error>)
    requires
        old(db).wf(),
    ensures
        final(db).wf(),
        final(db).root() == old(db).root(),
        match customer_added(old(db)@, customer@) {
            Ok(store) => result is Ok && final(db)@ == store,
            Err(e) => result matches Err(x) && x@ == e && final(db)@ == old(db)@,
        },
{
    let mut config = match db.read::<Config>(CONFIG_PRIMARY_KEY) {
        Ok(config) => config,
        Err(e) => return Err(e),
    };
    if config.customer_counter == usize::MAX {
        return Err(Error::Identifier("customer_counter".to_owned()));
    }
    let key = customer.uuid.clone();
    let ghost value = customer@;
    match db.create(key.as_str(), customer) {
        Ok(()) => {},
        Err(e) => return Err(e),
    }
    proof {
        lemma_table_names();
        lemma_create_effect(old(db)@, Customer::table_name(), key@, Customer::encode(value));
    }
    config.customer_counter += 1;
    db.update(CONFIG_PRIMARY_KEY, config)
}

/// The store without the invoices of the given keys; a key under which no
/// invoice is stored changes nothing.
pub open spec fn invoices_deleted(store: StoreView, keys: Seq<Seq<char>>) -> StoreView
    decreases keys.len(),
{
    if keys.len() == 0 {
        store
    } else {
        let before = invoices_deleted(store, keys.drop_last());
        match before.delete_record::<Invoice>(keys.last()) {
            Ok(after) => after,
            Err(_) => before,
        }
    }
}

/// The store after a customer was removed: the customer is deleted, and with
/// it every invoice of its list that is stored. Fails where the customer
/// cannot be read.
pub open spec fn customer_removed(store: StoreView, key: Seq<char>) -> Result<
    StoreView,
    ErrorView,
> {
    match store.read_record::<Customer>(key) {
        Err(e) => Err(e),
        Ok(customer) => match store.delete_record::<Customer>(key) {
            Err(e) => Err(e),
            Ok(deleted) => Ok(invoices_deleted(deleted, customer.invoices)),
        },
    }
}

/// Removes a customer and all its invoices. An invoice of its list that is
/// not stored is passed over. Where it fails the store is left as it was.
pub fn remove_customer(db: &mut FilesystemDatabase, key: &str) -> (result: Result<(), Error>)
    requires
        old(db).wf(),
    ensures
        final(db).wf(),
        final(db).root() == old(db).root(),
        match customer_removed(old(db)@, key@) {
            Ok(store) => result is Ok && final(db)@ == store,
            Err(e) => result matches Err(x) && x@ == e && final(db)@ == old(db)@,
        },
{
    let customer = match db.read::<Customer>(key) {
        Ok(customer) => customer,
        Err(e) => return Err(e),
    };
    match db.delete::<Customer>(key) {
        Ok(()) => {},
        Err(e) => return Err(e),
    }
    let ghost deleted = db@;
    let ghost keys = customer@.invoices;
    let mut i: usize = 0;
    assert(keys.take(0) =~= Seq::empty());
    while i < customer.invoices.len()
        invariant
            i <= customer.invoices.len(),
            keys == customer@.invoices,
            db.wf(),
            db.root() == old(db).root(),
            db@ == invoices_deleted(deleted, keys.take(i as int)),
        decreases customer.invoices.len() - i,
    {
        proof {
            assert(keys.take(i + 1).drop_last() =~= keys.take(i as int));
            assert(keys.take(i + 1).last() == customer.invoices[i as int]@);
        }
        let _ = db.delete::<Invoice>(customer.invoices[i].as_str());
        i += 1;
    }
    assert(keys.take(i as int) =~= keys);
    Ok(())
}

/// The invoice that is drafted next for a customer: under the key `uuid`,
/// with the identifier that the configured template yields on the day
/// `today` for the invoice counter, dated `today`, and pointing at the
/// customer. Fails where the configuration or the customer cannot be read or
/// the template yields no identifier; of the latter error only the kind is
/// said.
pub open spec fn next_invoice(
    store: StoreView,
    customer: Seq<char>,
    uuid: Seq<char>,
    today: Date,
) -> Result<InvoiceView, Option<ErrorView>> {
    match store.read_record::<Config>("CONFIG"@) {
        Err(e) => Err(Some(e)),
        Ok(config) => match store.read_record::<Customer>(customer) {
            Err(e) => Err(Some(e)),
            Ok(_) => match identifier(
                config.invoice_template,
                today,
                counter_text(config.invoice_counter),
            ) {
                Some(id) => Ok(InvoiceView { customer, ..InvoiceView::draft(uuid, id, today) }),
                None => Err(None),
            },
        },
    }
}

/// Drafts the next invoice for the customer stored under `customer`, under
/// the key `uuid`, as of the day `today`. The store is not changed: the draft
/// is stored by [`add_invoice`].
pub fn draft_invoice_on(
    db: &FilesystemDatabase,
    customer: &str,
    uuid: String,
    today: &Date,
) -> (result: Result<Invoice, Error>)
    requires
        db.wf(),
    ensures
        is_draft(result, next_invoice(db@, customer@, uuid@, *today)),
{
    let config = match db.read::<Config>(CONFIG_PRIMARY_KEY) {
        Ok(config) => config,
        Err(e) => return Err(e),
    };
    match db.read::<Customer>(customer) {
        Ok(_) => {},
        Err(e) => return Err(e),
    }
    let counter = zero_padded_text(config.invoice_counter as u64, 5);
    match render_id(config.invoice_template.as_str(), today, counter.as_str()) {
        Ok(id) => {
            let mut invoice = Invoice::draft(uuid, id, *today);
            invoice.customer = customer.to_owned();
            Ok(invoice)
        },
        Err(e) => Err(e),
    }
}

/// Drafts the next invoice for a customer under a new key, as of today: the
/// result is what [`draft_invoice_on`] gives for the key of the draft and
/// some valid day with a month from 1 to 12 and a day from 1 to 31, so that
/// the draft can be stored as it is.
pub fn draft_invoice(db: &FilesystemDatabase, customer: &str) -> (result: Result<Invoice, Error>)
    requires
        db.wf(),
    ensures
        result matches Ok(invoice) ==> Invoice::valid(invoice@),
        exists|uuid: Seq<char>, today: Date|
            uuid.len() == 36 && 1 <= today.month <= 12 && 1 <= today.day <= 31 && today.valid()
                && is_draft(
                result,
                #[trigger] next_invoice(db@, customer@, uuid, today),
            ),
{
    let uuid = uuid_v7();
    let today = Date::today();
    let ghost key = uuid@;
    let result = draft_invoice_on(db, customer, uuid, &today);
    assert(is_draft(result, next_invoice(db@, customer@, key, today)));
    result
}

/// The store after an invoice was added: the invoice is created under its
/// key, its key stands at the end of the list of its customer, and the
/// invoice counter is one higher. Fails where the configuration or the
/// customer cannot be read, the counter has reached its end, or the invoice
/// cannot be created.
pub open spec fn invoice_added(store: StoreView, invoice: InvoiceView) -> Result<
    StoreView,
    ErrorView,
> {
    match store.read_record::<Config>("CONFIG"@) {
        Err(e) => Err(e),
        Ok(config) => if config.invoice_counter == usize::MAX {
            Err(ErrorView::Identifier("invoice_counter"@))
        } else {
            match store.read_record::<Customer>(invoice.customer) {
                Err(e) => Err(e),
                Ok(customer) => match store.create_record::<Invoice>(invoice.uuid, invoice) {
                    Err(e) => Err(e),
                    Ok(created) => match created.update_record::<Customer>(
                        invoice.customer,
                        customer.add_invoice(invoice.uuid),
                    ) {
                        Err(e) => Err(e),
                        Ok(listed) => listed.update_record::<Config>(
                            "CONFIG"@,
                            invoice_counted(config),
                        ),
                    },
                },
            }
        },
    }
}

/// Adds an invoice: creates it under its key, puts the key on the list of
/// its customer and counts it in the configuration. Where it fails the store
/// is left as it was.
pub fn add_invoice(db: &mut FilesystemDatabase, invoice: Invoice) -> (result: Result<(), Error>)
    requires
        old(db).wf(),
    ensures
        final(db).wf(),
        final(db).root() == old(db).root(),
        match invoice_added(old(db)@, invoice@) {
            Ok(store) => result is Ok && final(db)@ == store,
            Err(e) => result matches Err(x) && x@ == e && final(db)@ == old(db)@,
        },
{
    let mut config = match db.read::<Config>(CONFIG_PRIMARY_KEY) {
        Ok(config) => config,
        Err(e) => return Err(e),
    };
    if config.invoice_counter == usize::MAX {
        return Err(Error::Identifier("invoice_counter".to_owned()));
    }
    let mut customer = match db.read::<Customer>(invoice.customer.as_str()) {
        Ok(customer) => customer,
        Err(e) => return Err(e),
    };
    let key = invoice.uuid.clone();
    let owner = invoice.customer.clone();
    let ghost value = invoice@;
    match db.create(key.as_str(), invoice) {
        Ok(()) => {},
        Err(e) => return Err(e),
    }
    let ghost created = db@;
    customer.add_invoice(key.as_str());
    let ghost listed_customer = customer@;
    proof {
        lemma_table_names();
        lemma_create_effect(old(db)@, Invoice::table_name(), key@, Invoice::encode(value));
    }
    match db.update(owner.as_str(), customer) {
        Ok(()) => {},
        Err(e) => return Err(e),
    }
    proof {
        lemma_update_effect(
            created,
            Customer::table_name(),
            owner@,
            Customer::encode(listed_customer),
        );
    }
    config.invoice_counter += 1;
    db.update(CONFIG_PRIMARY_KEY, config)
}

/// The store after an invoice was removed: the invoice is deleted and its
/// key is taken off the list of its customer. Fails where the invoice or its
/// customer cannot be read.
pub open spec fn invoice_removed(store: StoreView, key: Seq<char>) -> Result<
    StoreView,
    ErrorView,
> {
    match store.read_record::<Invoice>(key) {
        Err(e) => Err(e),
        Ok(invoice) => match store.read_record::<Customer>(invoice.customer) {
            Err(e) => Err(e),
            Ok(customer) => match store.delete_record::<Invoice>(key) {
                Err(e) => Err(e),
                Ok(deleted) => deleted.update_record::<Customer>(
                    invoice.customer,
                    customer.remove_invoice(key),
                ),
            },
        },
    }
}

/// Removes an invoice and takes its key off the list of its customer. Where
/// it fails the store is left as it was.
pub fn remove_invoice(db: &mut FilesystemDatabase, key: &str) -> (result: Result<(), Error>)
    requires
        old(db).wf(),
    ensures
        final(db).wf(),
        final(db).root() == old(db).root(),
        match invoice_removed(old(db)@, key@) {
            Ok(store) => result is Ok && final(db)@ == store,
            Err(e) => result matches Err(x) && x@ == e && final(db)@ == old(db)@,
        },
{
    let invoice = match db.read::<Invoice>(key) {
        Ok(invoice) => invoice,
        Err(e) => return Err(e),
    };
    let mut customer = match db.read::<Customer>(invoice.customer.as_str()) {
        Ok(customer) => customer,
        Err(e) => return Err(e),
    };
    customer.remove_invoice(key);
    match db.delete::<Invoice>(key) {
        Ok(()) => {},
        Err(e) => return Err(e),
    }
    proof {
        lemma_table_names();
        lemma_delete_effect(old(db)@, Invoice::table_name(), key@);
    }
    db.update(invoice.customer.as_str(), customer)
}

/// Whether the customer that an invoice points at is not in the store.
pub open spec fn is_orphan(store: StoreView, invoice: InvoiceView) -> bool {
    store.contains_record::<Customer>(invoice.customer) != Ok::<bool, ErrorView>(true)
}

/// The keys that the invoices carry which point at a customer that is not in
/// the store, in the order of the invoices.
pub open spec fn orphans(store: StoreView, invoices: Seq<InvoiceView>) -> Seq<Seq<char>> {
    invoices.filter(|invoice: InvoiceView| is_orphan(store, invoice)).map_values(
        |invoice: InvoiceView| invoice.uuid,
    )
}

/// Scans the store for invoices whose customer is not in it, and returns the
/// keys that they carry, oldest first. Fails where the invoices cannot be
/// read.
pub fn orphaned_invoices(db: &FilesystemDatabase) -> (result: Result<Vec<String>, Error>)
    requires
        db.wf(),
    ensures
        match db@.read_all_records::<Invoice>() {
            Ok(invoices) => result matches Ok(keys) && views(keys@) == orphans(db@, invoices),
            Err(e) => result matches Err(x) && x@ == e,
        },
{
    let invoices = match db.read_all::<Invoice>() {
        Ok(invoices) => invoices,
        Err(e) => return Err(e),
    };
    let ghost all = views(invoices@);
    let ghost lost = |invoice: InvoiceView| is_orphan(db@, invoice);
    let ghost key = |invoice: InvoiceView| invoice.uuid;
    let mut keys: Vec<String> = Vec::new();
    let mut i: usize = 0;
    proof {
        reveal(Seq::filter);
        assert(all.take(0) =~= Seq::empty());
        assert(views(keys@) =~= all.take(0).filter(lost).map_values(key));
    }
    while i < invoices.len()
        invariant
            i <= invoices.len(),
            db.wf(),
            all == views(invoices@),
            lost == |invoice: InvoiceView| is_orphan(db@, invoice),
            key == |invoice: InvoiceView| invoice.uuid,
            views(keys@) == all.take(i as int).filter(lost).map_values(key),
        decreases invoices.len() - i,
    {
        let ghost before = all.take(i as int).filter(lost);
        proof {
            reveal(Seq::filter);
            assert(all.take(i + 1).drop_last() =~= all.take(i as int));
            assert(all.take(i + 1).last() == invoices[i as int]@);
        }
        let known = match db.contains::<Customer>(invoices[i].customer.as_str()) {
            Ok(found) => found,
            Err(_) => false,
        };
        if !known {
            let ghost listed = views(keys@);
            keys.push(invoices[i].uuid.clone());
            assert(views(keys@) =~= listed.push(invoices[i as int]@.uuid));
            assert(before.push(invoices[i as int]@).map_values(key) =~= before.map_values(
                key,
            ).push(invoices[i as int]@.uuid));
        }
        i += 1;
    }
    assert(all.take(i as int) =~= all);
    Ok(keys)
}

/// What the invoice template is given for the invoice under `key`: the
/// business, the invoice, and the customer that the invoice points at, which
/// are read in this order, put together for the day on which the invoice is
/// due. Fails where one of the three cannot be read, and with
/// `Serialization` where the calendar has no day on which the invoice is due.
pub open spec fn invoice_data(store: StoreView, key: Seq<char>) -> Result<
    TemplateInvoiceView,
    ErrorView,
> {
    match store.read_record::<Business>("BUSINESS"@) {
        Err(e) => Err(e),
        Ok(business) => match store.read_record::<Invoice>(key) {
            Err(e) => Err(e),
            Ok(invoice) => match store.read_record::<Customer>(invoice.customer) {
                Err(e) => Err(e),
                Ok(customer) => match date_after(invoice.issuing_date, DUE_AFTER_DAYS) {
                    Some(due) => Ok(TemplateInvoiceView::of(business, customer, invoice, due)),
                    None => Err(ErrorView::Serialization("due_date"@)),
                },
            },
        },
    }
}

/// Puts together what the invoice template is given for the invoice under
/// `key`.
pub fn template_data(db: &FilesystemDatabase, key: &str) -> (result: Result<TemplateInvoice, Error>)
    requires
        db.wf(),
    ensures
        match invoice_data(db@, key@) {
            Ok(data) => result matches Ok(template) && template@ == data,
            Err(e) => result matches Err(x) && x@ == e,
        },
{
    let business = match db.read::<Business>(BUSINESS_PRIMARY_KEY) {
        Ok(business) => business,
        Err(e) => return Err(e),
    };
    let invoice = match db.read::<Invoice>(key) {
        Ok(invoice) => invoice,
        Err(e) => return Err(e),
    };
    let customer = match db.read::<Customer>(invoice.customer.as_str()) {
        Ok(customer) => customer,
        Err(e) => return Err(e),
    };
    match TemplateInvoice::new(business, customer, invoice) {
        Some(template) => Ok(template),
        None => Err(Error::Serialization("due_date".to_owned())),
    }
}

} // verus!
