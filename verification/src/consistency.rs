use crate::commands::{
    customer_added, customer_counted, customer_removed, invoice_added, invoice_counted,
    invoice_removed, invoices_deleted, lemma_table_names,
};
use crate::document::YamlAble;
use crate::error::ErrorView;
use crate::models::customer::without;
use crate::models::{Config, ConfigView, Customer, CustomerView, Invoice, InvoiceView};
use crate::store::{
    lemma_create_effect, lemma_delete_effect, lemma_update_effect, Model, StoreView,
};
use vstd::prelude::*;

verus! {

/// After a customer was added it can be read back as it was given, and the
/// customer counter of the configuration is one higher than it was.
pub proof fn lemma_customer_added(store: StoreView, customer: CustomerView)
    requires
        store.wf(),
        customer_added(store, customer) is Ok,
    ensures
        ({
            let after = customer_added(store, customer)->Ok_0;
            let config = store.read_record::<Config>("CONFIG"@)->Ok_0;
            &&& after.wf()
            &&& after.read_record::<Customer>(customer.uuid) == Ok::<CustomerView, ErrorView>(
                customer,
            )
            &&& after.read_record::<Config>("CONFIG"@) == Ok::<ConfigView, ErrorView>(
                customer_counted(config),
            )
            &&& customer_counted(config).customer_counter == config.customer_counter + 1
        }),
{
    lemma_table_names();
    let config = store.read_record::<Config>("CONFIG"@)->Ok_0;
    let created = store.create_record::<Customer>(customer.uuid, customer)->Ok_0;
    lemma_create_effect(store, Customer::table_name(), customer.uuid, Customer::encode(customer));
    lemma_update_effect(
        created,
        Config::table_name(),
        "CONFIG"@,
        Config::encode(customer_counted(config)),
    );
    Customer::round_trip(customer);
    Config::round_trip(customer_counted(config));
}

/// Deleting a list of invoices keeps the store well formed, leaves the other
/// tables as they were, brings no invoice into the store, and leaves none of
/// the list in it.
pub proof fn lemma_invoices_deleted(store: StoreView, keys: Seq<Seq<char>>)
    requires
        store.wf(),
    ensures
        ({
            let after = invoices_deleted(store, keys);
            &&& after.wf()
            &&& forall|table: Seq<char>|
                #![trigger after.defined(table)]
                after.defined(table) == store.defined(table)
            &&& forall|table: Seq<char>|
                #![trigger after.table(table)]
                table != Invoice::table_name() && store.defined(table) ==> after.table(table)
                    == store.table(table)
            &&& forall|key: Seq<char>|
                #![trigger after.contains_record::<Invoice>(key)]
                after.contains_record::<Invoice>(key) == Ok::<bool, ErrorView>(true)
                    ==> store.contains_record::<Invoice>(key) == Ok::<bool, ErrorView>(true)
            &&& forall|i: int|
                0 <= i < keys.len() ==> after.contains_record::<Invoice>(#[trigger] keys[i])
                    != Ok::<bool, ErrorView>(true)
        }),
    decreases keys.len(),
{
    if keys.len() > 0 {
        let before = invoices_deleted(store, keys.drop_last());
        lemma_invoices_deleted(store, keys.drop_last());
        let after = invoices_deleted(store, keys);
        if before.delete_record::<Invoice>(keys.last()) is Ok {
            lemma_delete_effect(before, Invoice::table_name(), keys.last());
        }
        assert forall|key: Seq<char>| #[trigger]
            after.contains_record::<Invoice>(key) == Ok::<bool, ErrorView>(
                true,
            ) implies store.contains_record::<Invoice>(key) == Ok::<bool, ErrorView>(true) by {
            assert(before.contains_record::<Invoice>(key) == Ok::<bool, ErrorView>(true));
        }
        assert forall|i: int| 0 <= i < keys.len() implies after.contains_record::<Invoice>(
            #[trigger] keys[i],
        ) != Ok::<bool, ErrorView>(true) by {
            if i < keys.len() - 1 {
                assert(keys[i] == keys.drop_last()[i]);
                assert(before.contains_record::<Invoice>(keys.drop_last()[i]) != Ok::<
                    bool,
                    ErrorView,
                >(true));
            }
        }
    }
}

/// After a customer was removed neither the customer nor any invoice of its
/// list is left in the store.
pub proof fn lemma_customer_removed(store: StoreView, key: Seq<char>)
    requires
        store.wf(),
        customer_removed(store, key) is Ok,
    ensures
        ({
            let after = customer_removed(store, key)->Ok_0;
            let customer = store.read_record::<Customer>(key)->Ok_0;
            &&& after.wf()
            &&& after.contains_record::<Customer>(key) == Ok::<bool, ErrorView>(false)
            &&& forall|i: int|
                0 <= i < customer.invoices.len() ==> after.contains_record::<Invoice>(
                    #[trigger] customer.invoices[i],
                ) != Ok::<bool, ErrorView>(true)
        }),
{
    lemma_table_names();
    let customer = store.read_record::<Customer>(key)->Ok_0;
    let deleted = store.delete_record::<Customer>(key)->Ok_0;
    lemma_delete_effect(store, Customer::table_name(), key);
    lemma_invoices_deleted(deleted, customer.invoices);
}

/// After an invoice was added it can be read back as it was given, its key
/// stands at the end of the list of the customer that it points at, and the
/// invoice counter of the configuration is one higher than it was.
pub proof fn lemma_invoice_added(store: StoreView, invoice: InvoiceView)
    requires
        store.wf(),
        invoice_added(store, invoice) is Ok,
    ensures
        ({
            let after = invoice_added(store, invoice)->Ok_0;
            let config = store.read_record::<Config>("CONFIG"@)->Ok_0;
            let customer = store.read_record::<Customer>(invoice.customer)->Ok_0;
            &&& after.wf()
            &&& after.read_record::<Invoice>(invoice.uuid) == Ok::<InvoiceView, ErrorView>(invoice)
            &&& after.read_record::<Customer>(invoice.customer) == Ok::<CustomerView, ErrorView>(
                customer.add_invoice(invoice.uuid),
            )
            &&& customer.add_invoice(invoice.uuid).invoices.last() == invoice.uuid
            &&& after.read_record::<Config>("CONFIG"@) == Ok::<ConfigView, ErrorView>(
                invoice_counted(config),
            )
            &&& invoice_counted(config).invoice_counter == config.invoice_counter + 1
        }),
{
    lemma_table_names();
    let config = store.read_record::<Config>("CONFIG"@)->Ok_0;
    let customer = store.read_record::<Customer>(invoice.customer)->Ok_0;
    let created = store.create_record::<Invoice>(invoice.uuid, invoice)->Ok_0;
    lemma_create_effect(store, Invoice::table_name(), invoice.uuid, Invoice::encode(invoice));
    let listed = created.update_record::<Customer>(
        invoice.customer,
        customer.add_invoice(invoice.uuid),
    )->Ok_0;
    lemma_update_effect(
        created,
        Customer::table_name(),
        invoice.customer,
        Customer::encode(customer.add_invoice(invoice.uuid)),
    );
    lemma_update_effect(
        listed,
        Config::table_name(),
        "CONFIG"@,
        Config::encode(invoice_counted(config)),
    );
    Invoice::round_trip(invoice);
    Customer::round_trip(customer.add_invoice(invoice.uuid));
    Config::round_trip(invoice_counted(config));
}

/// A list without a key does not hold that key, and holds every other key
/// that it held.
pub proof fn lemma_without(keys: Seq<Seq<char>>, key: Seq<char>)
    ensures
        !without(keys, key).contains(key),
        forall|other: Seq<char>|
            other != key && keys.contains(other) ==> #[trigger] without(keys, key).contains(
                other,
            ),
{
    broadcast use vstd::seq_lib::group_filter_ensures;

    let keep = |k: Seq<char>| k != key;
    if without(keys, key).contains(key) {
        let i = choose|i: int| 0 <= i < without(keys, key).len() && without(keys, key)[i] == key;
        assert(keep(keys.filter(keep)[i]));
    }
    assert forall|other: Seq<char>| other != key && keys.contains(other) implies #[trigger] without(
        keys,
        key,
    ).contains(other) by {
        let i = choose|i: int| 0 <= i < keys.len() && keys[i] == other;
        assert(keep(keys[i]));
        assert(keys.filter(keep).contains(keys[i]));
    }
}

/// After an invoice was removed it is no longer in the store, and its key no
/// longer on the list of the customer that it pointed at.
pub proof fn lemma_invoice_removed(store: StoreView, key: Seq<char>)
    requires
        store.wf(),
        invoice_removed(store, key) is Ok,
    ensures
        ({
            let after = invoice_removed(store, key)->Ok_0;
            let invoice = store.read_record::<Invoice>(key)->Ok_0;
            let customer = store.read_record::<Customer>(invoice.customer)->Ok_0;
            &&& after.wf()
            &&& after.contains_record::<Invoice>(key) == Ok::<bool, ErrorView>(false)
            &&& after.read_record::<Customer>(invoice.customer) == Ok::<CustomerView, ErrorView>(
                customer.remove_invoice(key),
            )
            &&& !customer.remove_invoice(key).invoices.contains(key)
        }),
{
    lemma_table_names();
    let invoice = store.read_record::<Invoice>(key)->Ok_0;
    let customer = store.read_record::<Customer>(invoice.customer)->Ok_0;
    let deleted = store.delete_record::<Invoice>(key)->Ok_0;
    lemma_delete_effect(store, Invoice::table_name(), key);
    lemma_update_effect(
        deleted,
        Customer::table_name(),
        invoice.customer,
        Customer::encode(customer.remove_invoice(key)),
    );
    Customer::round_trip(customer.remove_invoice(key));
    lemma_without(customer.invoices, key);
}

} // verus!
