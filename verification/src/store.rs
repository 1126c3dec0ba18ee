use crate::document::{
    decode_all, lemma_decode_all_failure, views, Node, NodeView, YamlAble,
};
use crate::error::{Error, ErrorView};
use vstd::prelude::*;

verus! {

/// A record type that the store can keep: it names the table that its
/// records live in and the key of each record.
pub trait Model: YamlAble {
    /// The name of the table.
    spec fn table_name() -> Seq<char>;

    /// The name of the table.
    fn table() -> (name: String)
        ensures
            name@ == Self::table_name(),
    ;

    /// The key under which a record is stored.
    spec fn key(v: Self::V) -> Seq<char>;

    /// The key under which the record is stored.
    fn primary_key(&self) -> (key: String)
        ensures
            key@ == Self::key(self@),
    ;
}

/// One stored record: its key and its document.
pub struct RowView {
    pub key: Seq<char>,
    pub doc: NodeView,
}

/// One table: its name and its rows, in the order in which they were created.
pub struct TableView {
    pub name: Seq<char>,
    pub rows: Seq<RowView>,
}

/// The contents of a store: its tables, in the order in which they were defined.
pub struct StoreView {
    pub tables: Seq<TableView>,
}

impl TableView {
    /// No key occurs twice.
    pub open spec fn wf(self) -> bool {
        forall|i: int, j: int|
            0 <= i < j < self.rows.len() ==> self.rows[i].key != self.rows[j].key
    }

    /// Whether a record is stored under `key`.
    pub open spec fn contains(self, key: Seq<char>) -> bool {
        exists|i: int| 0 <= i < self.rows.len() && self.rows[i].key == key
    }

    /// The row at which `key` is stored.
    pub open spec fn position(self, key: Seq<char>) -> int {
        choose|i: int| 0 <= i < self.rows.len() && self.rows[i].key == key
    }

    /// The document stored under `key`.
    pub open spec fn get(self, key: Seq<char>) -> NodeView {
        self.rows[self.position(key)].doc
    }

    /// The table with one more row at its end.
    pub open spec fn insert(self, key: Seq<char>, doc: NodeView) -> TableView {
        TableView { name: self.name, rows: self.rows.push(RowView { key, doc }) }
    }

    /// The table with the document under `key` replaced.
    pub open spec fn replace(self, key: Seq<char>, doc: NodeView) -> TableView {
        TableView {
            name: self.name,
            rows: self.rows.update(self.position(key), RowView { key, doc }),
        }
    }

    /// The table without the row of `key`.
    pub open spec fn remove(self, key: Seq<char>) -> TableView {
        TableView { name: self.name, rows: self.rows.remove(self.position(key)) }
    }

    /// The documents of all rows, in order.
    pub open spec fn docs(self) -> Seq<NodeView> {
        Seq::new(self.rows.len(), |i: int| self.rows[i].doc)
    }

    /// The keys of all rows, in order.
    pub open spec fn keys(self) -> Seq<Seq<char>> {
        Seq::new(self.rows.len(), |i: int| self.rows[i].key)
    }

    /// In a well-formed table a key is stored at one row only.
    pub proof fn lemma_position(self, key: Seq<char>, i: int)
        requires
            self.wf(),
            0 <= i < self.rows.len(),
            self.rows[i].key == key,
        ensures
            self.contains(key),
            self.position(key) == i,
    {
        let p = self.position(key);
        assert(0 <= p < self.rows.len() && self.rows[p].key == key);
        if p < i {
            assert(self.rows[p].key != self.rows[i].key);
        } else if i < p {
            assert(self.rows[i].key != self.rows[p].key);
        }
    }
}

impl StoreView {
    /// No table name occurs twice, and in no table a key.
    pub open spec fn wf(self) -> bool {
        &&& forall|i: int, j: int|
            0 <= i < j < self.tables.len() ==> self.tables[i].name != self.tables[j].name
        &&& forall|i: int| 0 <= i < self.tables.len() ==> (#[trigger] self.tables[i]).wf()
    }

    /// Whether the table was defined.
    pub open spec fn defined(self, table: Seq<char>) -> bool {
        exists|i: int| 0 <= i < self.tables.len() && self.tables[i].name == table
    }

    /// The place of the table among the tables.
    pub open spec fn table_position(self, table: Seq<char>) -> int {
        choose|i: int| 0 <= i < self.tables.len() && self.tables[i].name == table
    }

    /// In a well-formed store a table name stands at one place only.
    pub proof fn lemma_table_position(self, table: Seq<char>, i: int)
        requires
            self.wf(),
            0 <= i < self.tables.len(),
            self.tables[i].name == table,
        ensures
            self.defined(table),
            self.table_position(table) == i,
    {
        let p = self.table_position(table);
        assert(0 <= p < self.tables.len() && self.tables[p].name == table);
        if p < i {
            assert(self.tables[p].name != self.tables[i].name);
        } else if i < p {
            assert(self.tables[i].name != self.tables[p].name);
        }
    }

    /// The table of that name.
    pub open spec fn table(self, table: Seq<char>) -> TableView {
        self.tables[self.table_position(table)]
    }

    /// The store with the table of that name replaced.
    pub open spec fn with_table(self, table: Seq<char>, contents: TableView) -> StoreView {
        StoreView { tables: self.tables.update(self.table_position(table), contents) }
    }

    /// The store in which the table exists: unchanged if it did, else with a
    /// new, empty table at the end.
    pub open spec fn define(self, table: Seq<char>) -> StoreView {
        if self.defined(table) {
            self
        } else {
            StoreView { tables: self.tables.push(TableView { name: table, rows: Seq::empty() }) }
        }
    }

    /// The names of the tables, in the order in which they were defined.
    pub open spec fn names(self) -> Seq<Seq<char>> {
        Seq::new(self.tables.len(), |i: int| self.tables[i].name)
    }

    /// The keys of a table, in the order in which their records were
    /// created.
    pub open spec fn keys(self, table: Seq<char>) -> Result<Seq<Seq<char>>, ErrorView> {
        if !self.defined(table) {
            Err(ErrorView::TableNotFound(table))
        } else {
            Ok(self.table(table).keys())
        }
    }

    /// Whether a record is stored under `key`.
    pub open spec fn contains(self, table: Seq<char>, key: Seq<char>) -> Result<bool, ErrorView> {
        if !self.defined(table) {
            Err(ErrorView::TableNotFound(table))
        } else {
            Ok(self.table(table).contains(key))
        }
    }

    /// The store after a new record was created.
    pub open spec fn create(self, table: Seq<char>, key: Seq<char>, doc: NodeView) -> Result<
        StoreView,
        ErrorView,
    > {
        if !self.defined(table) {
            Err(ErrorView::TableNotFound(table))
        } else if self.table(table).contains(key) {
            Err(ErrorView::KeyAlreadyExists(key))
        } else {
            Ok(self.with_table(table, self.table(table).insert(key, doc)))
        }
    }

    /// The document stored under `key`.
    pub open spec fn read(self, table: Seq<char>, key: Seq<char>) -> Result<NodeView, ErrorView> {
        if !self.defined(table) {
            Err(ErrorView::TableNotFound(table))
        } else if !self.table(table).contains(key) {
            Err(ErrorView::KeyNotFound(key))
        } else {
            Ok(self.table(table).get(key))
        }
    }

    /// The documents of the table, in the order in which they were created.
    pub open spec fn read_all(self, table: Seq<char>) -> Result<Seq<NodeView>, ErrorView> {
        if !self.defined(table) {
            Err(ErrorView::TableNotFound(table))
        } else {
            Ok(self.table(table).docs())
        }
    }

    /// The store after the record under `key` was replaced.
    pub open spec fn update(self, table: Seq<char>, key: Seq<char>, doc: NodeView) -> Result<
        StoreView,
        ErrorView,
    > {
        if !self.defined(table) {
            Err(ErrorView::TableNotFound(table))
        } else if !self.table(table).contains(key) {
            Err(ErrorView::KeyNotFound(key))
        } else {
            Ok(self.with_table(table, self.table(table).replace(key, doc)))
        }
    }

    /// The store after the record under `key` was removed.
    pub open spec fn delete(self, table: Seq<char>, key: Seq<char>) -> Result<
        StoreView,
        ErrorView,
    > {
        if !self.defined(table) {
            Err(ErrorView::TableNotFound(table))
        } else if !self.table(table).contains(key) {
            Err(ErrorView::KeyNotFound(key))
        } else {
            Ok(self.with_table(table, self.table(table).remove(key)))
        }
    }
}

/// What the operations of the store mean for the records of one type `T`:
/// each works on the table of `T`, on the documents that stand for its values.
impl StoreView {
    /// The store in which the table of `T` exists.
    pub open spec fn define_table<T: Model>(self) -> StoreView {
        self.define(T::table_name())
    }

    /// Whether a record of `T` is stored under `key`.
    pub open spec fn contains_record<T: Model>(self, key: Seq<char>) -> Result<bool, ErrorView> {
        self.contains(T::table_name(), key)
    }

    /// The store after `value` was created under `key`. Beyond what makes
    /// `create` fail, a value that cannot be written out and read back is
    /// refused with `Serialization`.
    pub open spec fn create_record<T: Model>(self, key: Seq<char>, value: T::V) -> Result<
        StoreView,
        ErrorView,
    > {
        match self.create(T::table_name(), key, T::encode(value)) {
            Err(e) => Err(e),
            Ok(store) => if T::valid(value) {
                Ok(store)
            } else {
                Err(ErrorView::Serialization(key))
            },
        }
    }

    /// The value of the record stored under `key`.
    pub open spec fn read_record<T: Model>(self, key: Seq<char>) -> Result<T::V, ErrorView> {
        match self.read(T::table_name(), key) {
            Err(e) => Err(e),
            Ok(doc) => match T::decode(doc) {
                Ok(value) => Ok(value),
                Err(field) => Err(ErrorView::Deserialization(field)),
            },
        }
    }

    /// The values of all records of `T`, in the order in which they were created.
    pub open spec fn read_all_records<T: Model>(self) -> Result<Seq<T::V>, ErrorView> {
        match self.read_all(T::table_name()) {
            Err(e) => Err(e),
            Ok(docs) => match decode_all::<T>(docs) {
                Ok(values) => Ok(values),
                Err(field) => Err(ErrorView::Deserialization(field)),
            },
        }
    }

    /// The store after the record under `key` was replaced by `value`.
    /// Beyond what makes `update` fail, a value that cannot be written out
    /// and read back is refused with `Serialization`.
    pub open spec fn update_record<T: Model>(self, key: Seq<char>, value: T::V) -> Result<
        StoreView,
        ErrorView,
    > {
        match self.update(T::table_name(), key, T::encode(value)) {
            Err(e) => Err(e),
            Ok(store) => if T::valid(value) {
                Ok(store)
            } else {
                Err(ErrorView::Serialization(key))
            },
        }
    }

    /// The store after the record of `T` under `key` was removed.
    pub open spec fn delete_record<T: Model>(self, key: Seq<char>) -> Result<
        StoreView,
        ErrorView,
    > {
        self.delete(T::table_name(), key)
    }
}

struct Row {
    key: String,
    doc: Node,
}

struct Table {
    name: String,
    rows: Vec<Row>,
}

/// `std::path::PathBuf`, as a value of which nothing is known.
#[verifier::external_type_specification]
#[verifier::external_body]
pub struct ExPathBuf(std::path::PathBuf);

/// The record store: per record type one table of documents, each under its
/// key. The store is made for a path, under which a program may keep what the
/// store holds; the store itself only carries the path.
pub struct FilesystemDatabase {
    path: std::path::PathBuf,
    tables: Vec<Table>,
}

impl View for Row {
    type V = RowView;

    closed spec fn view(&self) -> RowView {
        RowView { key: self.key@, doc: self.doc@ }
    }
}

impl View for Table {
    type V = TableView;

    closed spec fn view(&self) -> TableView {
        TableView {
            name: self.name@,
            rows: Seq::new(self.rows.len() as nat, |i: int| self.rows[i]@),
        }
    }
}

impl View for FilesystemDatabase {
    type V = StoreView;

    closed spec fn view(&self) -> StoreView {
        StoreView { tables: Seq::new(self.tables.len() as nat, |i: int| self.tables[i]@) }
    }
}

/// The row of `rows` that holds `key`, if there is one.
fn find_row(table: &Table, key: &String) -> (found: Option<usize>)
    requires
        table@.wf(),
    ensures
        found is Some <==> table@.contains(key@),
        found matches Some(i) ==> i == table@.position(key@) && i < table.rows.len(),
{
    let mut i: usize = 0;
    while i < table.rows.len()
        invariant
            table@.wf(),
            i <= table.rows.len(),
            forall|j: int| 0 <= j < i ==> table@.rows[j].key != key@,
        decreases table.rows.len() - i,
    {
        if table.rows[i].key == *key {
            proof {
                table@.lemma_position(key@, i as int);
            }
            return Some(i);
        }
        i += 1;
    }
    None
}

impl FilesystemDatabase {
    /// The contents are well formed: no table and no key occurs twice.
    pub open spec fn wf(&self) -> bool {
        self@.wf()
    }

    /// The path that the store was made for.
    pub closed spec fn root(&self) -> std::path::PathBuf {
        self.path
    }

    /// A store for the given path, with no table defined.
    pub fn new(path: std::path::PathBuf) -> (db: Self)
        ensures
            db.wf(),
            db.root() == path,
            db@.tables.len() == 0,
    {
        FilesystemDatabase { path, tables: Vec::new() }
    }

    /// The path that the store was made for.
    pub fn path(&self) -> (path: &std::path::PathBuf)
        ensures
            *path == self.root(),
    {
        &self.path
    }

    /// The place of the table of that name, if it was defined.
    fn find_table(&self, name: &String) -> (found: Option<usize>)
        requires
            self.wf(),
        ensures
            found is Some <==> self@.defined(name@),
            found matches Some(i) ==> i == self@.table_position(name@) && i < self.tables.len(),
    {
        let mut i: usize = 0;
        while i < self.tables.len()
            invariant
                self.wf(),
                i <= self.tables.len(),
                forall|j: int| 0 <= j < i ==> self@.tables[j].name != name@,
            decreases self.tables.len() - i,
        {
            if self.tables[i].name == *name {
                proof {
                    self@.lemma_table_position(name@, i as int);
                }
                return Some(i);
            }
            i += 1;
        }
        None
    }

    /// Makes sure that the table of that name exists; does nothing if it
    /// already does.
    pub fn define_table(&mut self, table: &str)
        requires
            old(self).wf(),
        ensures
            final(self).wf(),
            final(self).root() == old(self).root(),
            final(self)@ == old(self)@.define(table@),
    {
        let name = table.to_owned();
        if self.find_table(&name).is_none() {
            let table = Table { name, rows: Vec::new() };
            assert(table@.rows =~= Seq::empty());
            self.tables.push(table);
            assert(self@.tables =~= old(self)@.define(name@).tables);
            proof {
                lemma_define_effect(old(self)@, name@);
            }
        }
    }

    /// The names of the tables, in the order in which they were defined.
    pub fn table_names(&self) -> (names: Vec<String>)
        ensures
            views(names@) == self@.names(),
    {
        let mut names: Vec<String> = Vec::new();
        let mut i: usize = 0;
        while i < self.tables.len()
            invariant
                i <= self.tables.len(),
                names.len() == i,
                forall|j: int| 0 <= j < i ==> names[j]@ == self@.tables[j].name,
            decreases self.tables.len() - i,
        {
            names.push(self.tables[i].name.clone());
            i += 1;
        }
        assert(views(names@) =~= self@.names());
        names
    }

    /// The keys of a table, in the order in which their records were
    /// created.
    pub fn keys(&self, table: &str) -> (result: Result<Vec<String>, Error>)
        requires
            self.wf(),
        ensures
            match self@.keys(table@) {
                Ok(keys) => result matches Ok(found) && views(found@) == keys,
                Err(e) => result matches Err(x) && x@ == e,
            },
    {
        let name = table.to_owned();
        match self.find_table(&name) {
            None => Err(Error::TableNotFound(name)),
            Some(t) => {
                let rows = &self.tables[t].rows;
                let mut keys: Vec<String> = Vec::new();
                let mut i: usize = 0;
                while i < rows.len()
                    invariant
                        i <= rows.len(),
                        keys.len() == i,
                        forall|j: int| 0 <= j < i ==> keys[j]@ == rows[j]@.key,
                    decreases rows.len() - i,
                {
                    keys.push(rows[i].key.clone());
                    i += 1;
                }
                assert(views(keys@) =~= self@.table(table@).keys());
                Ok(keys)
            },
        }
    }

    /// Whether a document is stored under `key` in the table.
    pub fn contains_document(&self, table: &str, key: &str) -> (result: Result<bool, Error>)
        requires
            self.wf(),
        ensures
            match self@.contains(table@, key@) {
                Ok(found) => result == Ok::<bool, Error>(found),
                Err(e) => result matches Err(x) && x@ == e,
            },
    {
        let name = table.to_owned();
        match self.find_table(&name) {
            None => Err(Error::TableNotFound(name)),
            Some(t) => {
                let key = key.to_owned();
                Ok(find_row(&self.tables[t], &key).is_some())
            },
        }
    }

    /// Stores a document under a new key. Fails, and changes nothing, if the
    /// table was never defined or the key is taken.
    pub fn create_document(&mut self, table: &str, key: &str, doc: Node) -> (result: Result<
        (),
        Error,
    >)
        requires
            old(self).wf(),
        ensures
            final(self).wf(),
            final(self).root() == old(self).root(),
            match old(self)@.create(table@, key@, doc@) {
                Ok(store) => result is Ok && final(self)@ == store,
                Err(e) => result matches Err(x) && x@ == e && final(self)@ == old(self)@,
            },
    {
        let name = table.to_owned();
        let key = key.to_owned();
        match self.find_table(&name) {
            None => Err(Error::TableNotFound(name)),
            Some(t) => {
                if find_row(&self.tables[t], &key).is_some() {
                    return Err(Error::KeyAlreadyExists(key));
                }
                let ghost before = self@;
                self.tables[t].rows.push(Row { key, doc });
                proof {
                    let table = before.tables[t as int].insert(key@, doc@);
                    assert(self@.tables[t as int].rows =~= table.rows);
                    assert(self@.tables =~= before.tables.update(t as int, table));
                    lemma_create_effect(before, name@, key@, doc@);
                }
                Ok(())
            },
        }
    }

    /// The document stored under `key` in the table.
    pub fn read_document(&self, table: &str, key: &str) -> (result: Result<&Node, Error>)
        requires
            self.wf(),
        ensures
            match self@.read(table@, key@) {
                Ok(doc) => result matches Ok(found) && found@ == doc,
                Err(e) => result matches Err(x) && x@ == e,
            },
    {
        let name = table.to_owned();
        let key = key.to_owned();
        match self.find_table(&name) {
            None => Err(Error::TableNotFound(name)),
            Some(t) => match find_row(&self.tables[t], &key) {
                None => Err(Error::KeyNotFound(key)),
                Some(r) => Ok(&self.tables[t].rows[r].doc),
            },
        }
    }

    /// Replaces the document stored under `key`. Fails, and changes nothing,
    /// if the table was never defined or nothing is stored under the key.
    pub fn update_document(&mut self, table: &str, key: &str, doc: Node) -> (result: Result<
        (),
        Error,
    >)
        requires
            old(self).wf(),
        ensures
            final(self).wf(),
            final(self).root() == old(self).root(),
            match old(self)@.update(table@, key@, doc@) {
                Ok(store) => result is Ok && final(self)@ == store,
                Err(e) => result matches Err(x) && x@ == e && final(self)@ == old(self)@,
            },
    {
        let name = table.to_owned();
        let key = key.to_owned();
        match self.find_table(&name) {
            None => Err(Error::TableNotFound(name)),
            Some(t) => match find_row(&self.tables[t], &key) {
                None => Err(Error::KeyNotFound(key)),
                Some(r) => {
                    let ghost before = self@;
                    self.tables[t].rows[r] = Row { key, doc };
                    proof {
                        let table = before.tables[t as int].replace(key@, doc@);
                        assert(self@.tables[t as int].rows =~= table.rows);
                        assert(self@.tables =~= before.tables.update(t as int, table));
                        lemma_update_effect(before, name@, key@, doc@);
                    }
                    Ok(())
                },
            },
        }
    }

    /// Removes the document stored under `key`. Fails, and changes nothing,
    /// if the table was never defined or nothing is stored under the key.
    pub fn delete_document(&mut self, table: &str, key: &str) -> (result: Result<(), Error>)
        requires
            old(self).wf(),
        ensures
            final(self).wf(),
            final(self).root() == old(self).root(),
            match old(self)@.delete(table@, key@) {
                Ok(store) => result is Ok && final(self)@ == store,
                Err(e) => result matches Err(x) && x@ == e && final(self)@ == old(self)@,
            },
    {
        let name = table.to_owned();
        let key = key.to_owned();
        match self.find_table(&name) {
            None => Err(Error::TableNotFound(name)),
            Some(t) => match find_row(&self.tables[t], &key) {
                None => Err(Error::KeyNotFound(key)),
                Some(r) => {
                    let ghost before = self@;
                    self.tables[t].rows.remove(r);
                    proof {
                        let table = before.tables[t as int].remove(key@);
                        assert(self@.tables[t as int].rows =~= table.rows);
                        assert(self@.tables =~= before.tables.update(t as int, table));
                        lemma_delete_effect(before, name@, key@);
                    }
                    Ok(())
                },
            },
        }
    }

    /// Makes sure that the table of `T` exists; does nothing if it already does.
    pub fn define<T: Model>(&mut self) -> (result: Result<(), Error>)
        requires
            old(self).wf(),
        ensures
            final(self).wf(),
            final(self).root() == old(self).root(),
            result is Ok,
            final(self)@ == old(self)@.define_table::<T>(),
    {
        self.define_table(T::table().as_str());
        Ok(())
    }

    /// Whether a record of `T` is stored under `key`.
    pub fn contains<T: Model>(&self, key: &str) -> (result: Result<bool, Error>)
        requires
            self.wf(),
        ensures
            match self@.contains_record::<T>(key@) {
                Ok(found) => result == Ok::<bool, Error>(found),
                Err(e) => result matches Err(x) && x@ == e,
            },
    {
        self.contains_document(T::table().as_str(), key)
    }

    /// Stores a new record under `key`. Fails, and changes nothing, if the
    /// table was never defined, the key is taken, or the record cannot be
    /// written out and read back.
    pub fn create<T: Model>(&mut self, key: &str, value: T) -> (result: Result<(), Error>)
        requires
            old(self).wf(),
        ensures
            final(self).wf(),
            final(self).root() == old(self).root(),
            match old(self)@.create_record::<T>(key@, value@) {
                Ok(store) => result is Ok && final(self)@ == store,
                Err(e) => result matches Err(x) && x@ == e && final(self)@ == old(self)@,
            },
    {
        let table = T::table();
        match self.contains_document(table.as_str(), key) {
            Err(e) => Err(e),
            Ok(true) => Err(Error::KeyAlreadyExists(key.to_owned())),
            Ok(false) => if value.is_valid() {
                self.create_document(table.as_str(), key, value.to_yaml())
            } else {
                Err(Error::Serialization(key.to_owned()))
            },
        }
    }

    /// The record stored under `key`.
    pub fn read<T: Model>(&self, key: &str) -> (result: Result<T, Error>)
        requires
            self.wf(),
        ensures
            match self@.read_record::<T>(key@) {
                Ok(value) => result matches Ok(record) && record@ == value,
                Err(e) => result matches Err(x) && x@ == e,
            },
    {
        match self.read_document(T::table().as_str(), key) {
            Ok(doc) => T::from_yaml(doc),
            Err(e) => Err(e),
        }
    }

    /// All records of `T`, in the order in which they were created.
    pub fn read_all<T: Model>(&self) -> (result: Result<Vec<T>, Error>)
        requires
            self.wf(),
        ensures
            match self@.read_all_records::<T>() {
                Ok(values) => result matches Ok(records) && views(records@) == values,
                Err(e) => result matches Err(x) && x@ == e,
            },
    {
        let name = T::table();
        match self.find_table(&name) {
            None => Err(Error::TableNotFound(name)),
            Some(t) => {
                let table = &self.tables[t];
                let ghost docs = table@.docs();
                let mut records: Vec<T> = Vec::new();
                let mut i: usize = 0;
                assert(docs.take(0) =~= Seq::empty());
                assert(views(records@) =~= Seq::empty());
                while i < table.rows.len()
                    invariant
                        i <= table.rows.len(),
                        self@.read_all(T::table_name()) == Ok::<Seq<NodeView>, ErrorView>(docs),
                        docs == table@.docs(),
                        docs.len() == table.rows.len(),
                        decode_all::<T>(docs.take(i as int)) == Ok::<Seq<T::V>, Seq<char>>(
                            views(records@),
                        ),
                    decreases table.rows.len() - i,
                {
                    proof {
                        assert(docs.take(i + 1).drop_last() =~= docs.take(i as int));
                        assert(docs.take(i + 1).last() == table.rows[i as int].doc@);
                    }
                    let ghost before = views(records@);
                    match T::from_yaml(&table.rows[i].doc) {
                        Err(e) => {
                            proof {
                                lemma_decode_all_failure::<T>(docs, i + 1);
                            }
                            return Err(e);
                        },
                        Ok(record) => {
                            records.push(record);
                            assert(views(records@) =~= before.push(record@));
                        },
                    }
                    i += 1;
                }
                assert(docs.take(i as int) =~= docs);
                Ok(records)
            },
        }
    }

    /// Replaces the record stored under `key`. Fails, and changes nothing, if
    /// the table was never defined, no record is stored under the key, or the
    /// new record cannot be written out and read back.
    pub fn update<T: Model>(&mut self, key: &str, value: T) -> (result: Result<(), Error>)
        requires
            old(self).wf(),
        ensures
            final(self).wf(),
            final(self).root() == old(self).root(),
            match old(self)@.update_record::<T>(key@, value@) {
                Ok(store) => result is Ok && final(self)@ == store,
                Err(e) => result matches Err(x) && x@ == e && final(self)@ == old(self)@,
            },
    {
        let table = T::table();
        match self.contains_document(table.as_str(), key) {
            Err(e) => Err(e),
            Ok(false) => Err(Error::KeyNotFound(key.to_owned())),
            Ok(true) => if value.is_valid() {
                self.update_document(table.as_str(), key, value.to_yaml())
            } else {
                Err(Error::Serialization(key.to_owned()))
            },
        }
    }

    /// Removes the record stored under `key`. Fails, and changes nothing, if
    /// the table was never defined or no record is stored under the key.
    pub fn delete<T: Model>(&mut self, key: &str) -> (result: Result<(), Error>)
        requires
            old(self).wf(),
        ensures
            final(self).wf(),
            final(self).root() == old(self).root(),
            match old(self)@.delete_record::<T>(key@) {
                Ok(store) => result is Ok && final(self)@ == store,
                Err(e) => result matches Err(x) && x@ == e && final(self)@ == old(self)@,
            },
    {
        self.delete_document(T::table().as_str(), key)
    }
}

/// What a new row at the end of a table changes: the new key is stored with
/// its document, and every other key is stored as before.
pub proof fn lemma_insert(table: TableView, key: Seq<char>, doc: NodeView)
    requires
        table.wf(),
        !table.contains(key),
    ensures
        table.insert(key, doc).wf(),
        table.insert(key, doc).contains(key),
        table.insert(key, doc).get(key) == doc,
        forall|other: Seq<char>|
            #![trigger table.insert(key, doc).contains(other)]
            other != key ==> table.insert(key, doc).contains(other) == table.contains(other),
        forall|other: Seq<char>|
            #![trigger table.insert(key, doc).get(other)]
            other != key && table.contains(other) ==> table.insert(key, doc).get(other)
                == table.get(other),
{
    let after = table.insert(key, doc);
    let n = table.rows.len() as int;
    assert(after.wf()) by {
        assert forall|i: int, j: int| 0 <= i < j < after.rows.len() implies after.rows[i].key
            != after.rows[j].key by {
            if j < n {
                assert(table.rows[i].key != table.rows[j].key);
            } else {
                assert(table.rows[i].key != key);
            }
        }
    }
    after.lemma_position(key, n);
    assert forall|other: Seq<char>| other != key implies #[trigger] after.contains(other)
        == table.contains(other) by {
        if table.contains(other) {
            let q = table.position(other);
            assert(after.rows[q].key == other);
        }
        if after.contains(other) {
            let q = after.position(other);
            assert(table.rows[q].key == other);
        }
    }
    assert forall|other: Seq<char>| other != key && table.contains(other) implies #[trigger]
        after.get(other) == table.get(other) by {
        let q = table.position(other);
        assert(after.rows[q].key == other);
        after.lemma_position(other, q);
    }
}

/// What a new document under a stored key changes: the key is stored with the
/// new document, and every other key is stored as before.
pub proof fn lemma_replace(table: TableView, key: Seq<char>, doc: NodeView)
    requires
        table.wf(),
        table.contains(key),
    ensures
        table.replace(key, doc).wf(),
        table.replace(key, doc).contains(key),
        table.replace(key, doc).get(key) == doc,
        forall|other: Seq<char>|
            #![trigger table.replace(key, doc).contains(other)]
            table.replace(key, doc).contains(other) == table.contains(other),
        forall|other: Seq<char>|
            #![trigger table.replace(key, doc).get(other)]
            other != key && table.contains(other) ==> table.replace(key, doc).get(other)
                == table.get(other),
{
    let after = table.replace(key, doc);
    let p = table.position(key);
    assert(0 <= p < table.rows.len() && table.rows[p].key == key);
    assert forall|i: int| 0 <= i < table.rows.len() implies #[trigger] after.rows[i].key
        == table.rows[i].key by {}
    assert(after.wf()) by {
        assert forall|i: int, j: int| 0 <= i < j < after.rows.len() implies after.rows[i].key
            != after.rows[j].key by {
            assert(table.rows[i].key != table.rows[j].key);
        }
    }
    after.lemma_position(key, p);
    assert forall|other: Seq<char>| #[trigger] after.contains(other) == table.contains(other) by {
        if table.contains(other) {
            let q = table.position(other);
            assert(after.rows[q].key == other);
        }
        if after.contains(other) {
            let q = after.position(other);
            assert(table.rows[q].key == other);
        }
    }
    assert forall|other: Seq<char>| other != key && table.contains(other) implies #[trigger]
        after.get(other) == table.get(other) by {
        let q = table.position(other);
        assert(after.rows[q].key == other);
        after.lemma_position(other, q);
    }
}

/// What the removal of a stored key changes: the key is no longer stored, and
/// every other key is stored as before.
pub proof fn lemma_remove(table: TableView, key: Seq<char>)
    requires
        table.wf(),
        table.contains(key),
    ensures
        table.remove(key).wf(),
        !table.remove(key).contains(key),
        forall|other: Seq<char>|
            #![trigger table.remove(key).contains(other)]
            other != key ==> table.remove(key).contains(other) == table.contains(other),
        forall|other: Seq<char>|
            #![trigger table.remove(key).get(other)]
            other != key && table.contains(other) ==> table.remove(key).get(other) == table.get(
                other,
            ),
{
    let after = table.remove(key);
    let p = table.position(key);
    assert(0 <= p < table.rows.len() && table.rows[p].key == key);
    assert forall|i: int| 0 <= i < after.rows.len() implies #[trigger] after.rows[i]
        == table.rows[if i < p { i } else { i + 1 }] by {}
    assert(after.wf()) by {
        assert forall|i: int, j: int| 0 <= i < j < after.rows.len() implies after.rows[i].key
            != after.rows[j].key by {
            let a = if i < p {
                i
            } else {
                i + 1
            };
            let b = if j < p {
                j
            } else {
                j + 1
            };
            assert(table.rows[a].key != table.rows[b].key);
        }
    }
    if after.contains(key) {
        let q = after.position(key);
        let a = if q < p {
            q
        } else {
            q + 1
        };
        assert(after.rows[q] == table.rows[a]);
        table.lemma_position(key, a);
    }
    assert forall|other: Seq<char>| other != key implies #[trigger] after.contains(other)
        == table.contains(other) by {
        if table.contains(other) {
            let q = table.position(other);
            let a = if q < p {
                q
            } else {
                q - 1
            };
            assert(after.rows[a] == table.rows[q]);
        }
        if after.contains(other) {
            let q = after.position(other);
            let a = if q < p {
                q
            } else {
                q + 1
            };
            assert(after.rows[q] == table.rows[a]);
        }
    }
    assert forall|other: Seq<char>| other != key && table.contains(other) implies #[trigger]
        after.get(other) == table.get(other) by {
        let q = table.position(other);
        let a = if q < p {
            q
        } else {
            q - 1
        };
        assert(after.rows[a] == table.rows[q]);
        after.lemma_position(other, a);
    }
}

/// A well-formed table in place of the one of the same name keeps the store
/// well formed, is the table found under that name afterwards, and leaves
/// every other table as it was.
pub proof fn lemma_with_table(store: StoreView, table: Seq<char>, contents: TableView)
    requires
        store.wf(),
        store.defined(table),
        contents.wf(),
        contents.name == table,
    ensures
        store.with_table(table, contents).wf(),
        store.with_table(table, contents).defined(table),
        store.with_table(table, contents).table(table) == contents,
        forall|other: Seq<char>|
            #![trigger store.with_table(table, contents).defined(other)]
            other != table ==> store.with_table(table, contents).defined(other) == store.defined(
                other,
            ),
        forall|other: Seq<char>|
            #![trigger store.with_table(table, contents).table(other)]
            other != table && store.defined(other) ==> store.with_table(table, contents).table(
                other,
            ) == store.table(other),
{
    let p = store.table_position(table);
    let after = store.with_table(table, contents);
    assert forall|i: int, j: int| 0 <= i < j < after.tables.len() implies after.tables[i].name
        != after.tables[j].name by {
        assert(store.tables[i].name != store.tables[j].name);
    }
    assert forall|i: int| 0 <= i < after.tables.len() implies (#[trigger] after.tables[i]).wf() by {
        if i != p {
            assert(store.tables[i].wf());
        }
    }
    after.lemma_table_position(table, p);
    assert(0 <= p < store.tables.len() && store.tables[p].name == table);
    assert forall|other: Seq<char>| other != table implies #[trigger] after.defined(other)
        == store.defined(other) by {
        if store.defined(other) {
            let q = store.table_position(other);
            assert(0 <= q < store.tables.len() && store.tables[q].name == other);
            assert(after.tables[q].name == other);
        }
        if after.defined(other) {
            let q = after.table_position(other);
            assert(0 <= q < after.tables.len() && after.tables[q].name == other);
            assert(store.tables[q].name == other);
        }
    }
    assert forall|other: Seq<char>| other != table && store.defined(other) implies #[trigger]
        after.table(other) == store.table(other) by {
        let q = store.table_position(other);
        assert(0 <= q < store.tables.len() && store.tables[q].name == other);
        assert(after.tables[q].name == other);
        after.lemma_table_position(other, q);
    }
}

/// What a successful `create` changes: the table holds one more row, for
/// the new key, and every other table is as it was.
pub proof fn lemma_create_effect(store: StoreView, table: Seq<char>, key: Seq<char>, doc: NodeView)
    requires
        store.wf(),
        store.create(table, key, doc) is Ok,
    ensures
        ({
            let after = store.create(table, key, doc)->Ok_0;
            &&& after.wf()
            &&& after.table(table) == store.table(table).insert(key, doc)
            &&& after.table(table).contains(key)
            &&& after.table(table).get(key) == doc
            &&& forall|other: Seq<char>|
                #![trigger after.table(table).contains(other)]
                other != key ==> after.table(table).contains(other) == store.table(
                    table,
                ).contains(other)
            &&& forall|other: Seq<char>|
                #![trigger after.table(table).get(other)]
                other != key && store.table(table).contains(other) ==> after.table(table).get(
                    other,
                ) == store.table(table).get(other)
            &&& forall|other: Seq<char>|
                #![trigger after.defined(other)]
                after.defined(other) == store.defined(other)
            &&& forall|other: Seq<char>|
                #![trigger after.table(other)]
                other != table && store.defined(other) ==> after.table(other) == store.table(other)
        }),
{
    let old_table = store.table(table);
    assert(old_table.wf());
    lemma_insert(old_table, key, doc);
    lemma_with_table(store, table, old_table.insert(key, doc));
}

/// What a successful `update` changes: the key holds the new document, and
/// every other key and every other table is as it was.
pub proof fn lemma_update_effect(store: StoreView, table: Seq<char>, key: Seq<char>, doc: NodeView)
    requires
        store.wf(),
        store.update(table, key, doc) is Ok,
    ensures
        ({
            let after = store.update(table, key, doc)->Ok_0;
            &&& after.wf()
            &&& after.table(table) == store.table(table).replace(key, doc)
            &&& after.table(table).get(key) == doc
            &&& forall|other: Seq<char>|
                #![trigger after.table(table).contains(other)]
                after.table(table).contains(other) == store.table(table).contains(other)
            &&& forall|other: Seq<char>|
                #![trigger after.table(table).get(other)]
                other != key && store.table(table).contains(other) ==> after.table(table).get(
                    other,
                ) == store.table(table).get(other)
            &&& forall|other: Seq<char>|
                #![trigger after.defined(other)]
                after.defined(other) == store.defined(other)
            &&& forall|other: Seq<char>|
                #![trigger after.table(other)]
                other != table && store.defined(other) ==> after.table(other) == store.table(other)
        }),
{
    let old_table = store.table(table);
    assert(old_table.wf());
    lemma_replace(old_table, key, doc);
    lemma_with_table(store, table, old_table.replace(key, doc));
}

/// What a successful `delete` changes: the key is gone, and every other key
/// and every other table is as it was.
pub proof fn lemma_delete_effect(store: StoreView, table: Seq<char>, key: Seq<char>)
    requires
        store.wf(),
        store.delete(table, key) is Ok,
    ensures
        ({
            let after = store.delete(table, key)->Ok_0;
            &&& after.wf()
            &&& after.table(table) == store.table(table).remove(key)
            &&& !after.table(table).contains(key)
            &&& forall|other: Seq<char>|
                #![trigger after.table(table).contains(other)]
                other != key ==> after.table(table).contains(other) == store.table(
                    table,
                ).contains(other)
            &&& forall|other: Seq<char>|
                #![trigger after.table(table).get(other)]
                other != key && store.table(table).contains(other) ==> after.table(table).get(
                    other,
                ) == store.table(table).get(other)
            &&& forall|other: Seq<char>|
                #![trigger after.defined(other)]
                after.defined(other) == store.defined(other)
            &&& forall|other: Seq<char>|
                #![trigger after.table(other)]
                other != table && store.defined(other) ==> after.table(other) == store.table(other)
        }),
{
    let old_table = store.table(table);
    assert(old_table.wf());
    lemma_remove(old_table, key);
    lemma_with_table(store, table, old_table.remove(key));
}

/// What `define` changes: the table exists afterwards, empty if it is new,
/// and every other table is as it was.
pub proof fn lemma_define_effect(store: StoreView, table: Seq<char>)
    requires
        store.wf(),
    ensures
        ({
            let after = store.define(table);
            &&& after.wf()
            &&& after.defined(table)
            &&& store.defined(table) ==> after == store
            &&& !store.defined(table) ==> after.table(table).rows.len() == 0
            &&& forall|other: Seq<char>|
                #![trigger after.defined(other)]
                other != table ==> after.defined(other) == store.defined(other)
            &&& forall|other: Seq<char>|
                #![trigger after.table(other)]
                other != table && store.defined(other) ==> after.table(other) == store.table(other)
        }),
{
    let after = store.define(table);
    if !store.defined(table) {
        let n = store.tables.len() as int;
        assert(after.tables[n].name == table);
        assert forall|i: int, j: int| 0 <= i < j < after.tables.len() implies after.tables[i].name
            != after.tables[j].name by {
            if j < n {
                assert(store.tables[i].name != store.tables[j].name);
            } else {
                assert(store.tables[i].name == after.tables[i].name);
            }
        }
        assert forall|i: int| 0 <= i < after.tables.len() implies (#[trigger] after.tables[i]).wf(
        ) by {
            if i < n {
                assert(store.tables[i].wf());
            }
        }
        after.lemma_table_position(table, n);
        assert forall|other: Seq<char>| other != table implies #[trigger] after.defined(other)
            == store.defined(other) by {
            if store.defined(other) {
                let q = store.table_position(other);
                assert(0 <= q < n && store.tables[q].name == other);
                assert(after.tables[q].name == other);
            }
            if after.defined(other) {
                let q = after.table_position(other);
                assert(0 <= q < after.tables.len() && after.tables[q].name == other);
                assert(store.tables[q].name == other);
            }
        }
        assert forall|other: Seq<char>| other != table && store.defined(other) implies #[trigger]
            after.table(other) == store.table(other) by {
            let q = store.table_position(other);
            assert(0 <= q < n && store.tables[q].name == other);
            assert(after.tables[q].name == other);
            after.lemma_table_position(other, q);
        }
    }
}

} // verus!
