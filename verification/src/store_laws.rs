use crate::error::ErrorView;
use crate::document::decode_all;
use crate::store::{
    lemma_define_effect, lemma_insert, lemma_remove, lemma_replace, lemma_with_table, Model,
    StoreView,
};
use vstd::prelude::*;

verus! {

/// Defining the table of a record type keeps the store well formed and makes
/// the table exist; where it existed already nothing changes, so defining it a
/// second time changes nothing.
pub proof fn lemma_define<T: Model>(store: StoreView)
    requires
        store.wf(),
    ensures
        store.define_table::<T>().wf(),
        store.define_table::<T>().defined(T::table_name()),
        store.defined(T::table_name()) ==> store.define_table::<T>() == store,
        store.define_table::<T>().define_table::<T>() == store.define_table::<T>(),
{
    lemma_define_effect(store, T::table_name());
}

/// A table that was just defined is empty: listing its records yields the
/// empty list, and no error.
pub proof fn lemma_new_table_is_empty<T: Model>(store: StoreView)
    requires
        store.wf(),
        !store.defined(T::table_name()),
    ensures
        store.define_table::<T>().read_all_records::<T>() == Ok::<Seq<T::V>, ErrorView>(
            Seq::empty(),
        ),
{
    let name = T::table_name();
    let after = store.define(name);
    lemma_define_effect(store, name);
    assert(after.table(name).docs() =~= Seq::empty());
    assert(decode_all::<T>(Seq::empty()) == Ok::<Seq<T::V>, Seq<char>>(Seq::empty()));
}

/// Under a key that was not created nothing is found: reading, replacing and
/// removing fail, each with `KeyNotFound` for that key.
pub proof fn lemma_absent_key<T: Model>(store: StoreView, key: Seq<char>, value: T::V)
    requires
        store.wf(),
        store.contains_record::<T>(key) == Ok::<bool, ErrorView>(false),
    ensures
        store.read_record::<T>(key) == Err::<T::V, ErrorView>(ErrorView::KeyNotFound(key)),
        store.update_record::<T>(key, value) == Err::<StoreView, ErrorView>(
            ErrorView::KeyNotFound(key),
        ),
        store.delete_record::<T>(key) == Err::<StoreView, ErrorView>(ErrorView::KeyNotFound(key)),
{
}

/// Creating a record succeeds exactly where its table is defined, its key is
/// free, and the record can be written out and read back; else it fails with
/// `TableNotFound`, `KeyAlreadyExists` or `Serialization`, in this order.
pub proof fn lemma_create_succeeds<T: Model>(store: StoreView, key: Seq<char>, value: T::V)
    requires
        store.wf(),
    ensures
        store.create_record::<T>(key, value) is Ok <==> T::valid(value)
            && store.contains_record::<T>(key) == Ok::<bool, ErrorView>(false),
        !store.defined(T::table_name()) ==> store.create_record::<T>(key, value) == Err::<
            StoreView,
            ErrorView,
        >(ErrorView::TableNotFound(T::table_name())),
        store.contains_record::<T>(key) == Ok::<bool, ErrorView>(true) ==> store.create_record::<T>(
            key,
            value,
        ) == Err::<StoreView, ErrorView>(ErrorView::KeyAlreadyExists(key)),
        !T::valid(value) && store.contains_record::<T>(key) == Ok::<bool, ErrorView>(false)
            ==> store.create_record::<T>(key, value) == Err::<StoreView, ErrorView>(
            ErrorView::Serialization(key),
        ),
{
}

/// After a record was created its key is found and reading it yields the
/// value that was stored; creating under the same key again fails with
/// `KeyAlreadyExists`, whatever the second value is.
pub proof fn lemma_create_then_read<T: Model>(
    store: StoreView,
    key: Seq<char>,
    value: T::V,
    second: T::V,
)
    requires
        store.wf(),
        store.create_record::<T>(key, value) is Ok,
    ensures
        ({
            let after = store.create_record::<T>(key, value)->Ok_0;
            &&& after.wf()
            &&& after.contains_record::<T>(key) == Ok::<bool, ErrorView>(true)
            &&& after.read_record::<T>(key) == Ok::<T::V, ErrorView>(value)
            &&& after.create_record::<T>(key, second) == Err::<StoreView, ErrorView>(
                ErrorView::KeyAlreadyExists(key),
            )
        }),
{
    let name = T::table_name();
    let table = store.table(name);
    assert(table.wf());
    lemma_insert(table, key, T::encode(value));
    lemma_with_table(store, name, table.insert(key, T::encode(value)));
    T::round_trip(value);
}

/// After a record was created and then replaced, reading it yields the
/// second value.
pub proof fn lemma_create_then_update<T: Model>(
    store: StoreView,
    key: Seq<char>,
    value: T::V,
    second: T::V,
)
    requires
        store.wf(),
        T::valid(second),
        store.create_record::<T>(key, value) is Ok,
    ensures
        ({
            let created = store.create_record::<T>(key, value)->Ok_0;
            &&& created.update_record::<T>(key, second) is Ok
            &&& created.update_record::<T>(key, second)->Ok_0.wf()
            &&& created.update_record::<T>(key, second)->Ok_0.read_record::<T>(key) == Ok::<
                T::V,
                ErrorView,
            >(second)
        }),
{
    let name = T::table_name();
    let table = store.table(name);
    assert(table.wf());
    lemma_insert(table, key, T::encode(value));
    lemma_with_table(store, name, table.insert(key, T::encode(value)));
    let created = store.create_record::<T>(key, value)->Ok_0;
    let filled = created.table(name);
    lemma_replace(filled, key, T::encode(second));
    lemma_with_table(created, name, filled.replace(key, T::encode(second)));
    T::round_trip(second);
}

/// After a record was created and then removed, its key is no longer found.
pub proof fn lemma_create_then_delete<T: Model>(store: StoreView, key: Seq<char>, value: T::V)
    requires
        store.wf(),
        store.create_record::<T>(key, value) is Ok,
    ensures
        ({
            let created = store.create_record::<T>(key, value)->Ok_0;
            &&& created.delete_record::<T>(key) is Ok
            &&& created.delete_record::<T>(key)->Ok_0.wf()
            &&& created.delete_record::<T>(key)->Ok_0.contains_record::<T>(key) == Ok::<
                bool,
                ErrorView,
            >(false)
        }),
{
    let name = T::table_name();
    let table = store.table(name);
    assert(table.wf());
    lemma_insert(table, key, T::encode(value));
    lemma_with_table(store, name, table.insert(key, T::encode(value)));
    let created = store.create_record::<T>(key, value)->Ok_0;
    let filled = created.table(name);
    lemma_remove(filled, key);
    lemma_with_table(created, name, filled.remove(key));
}

} // verus!
