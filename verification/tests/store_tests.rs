use facture::document::{Node, YamlAble};
use facture::error::Error;
use facture::models::{Business, Config, Customer, Invoice};
use facture::store::{FilesystemDatabase, Model};
use std::path::PathBuf;

fn store() -> FilesystemDatabase {
    let mut db = FilesystemDatabase::new(PathBuf::from("data"));
    db.define::<Customer>().unwrap();
    db.define::<Invoice>().unwrap();
    db.define::<Business>().unwrap();
    db.define::<Config>().unwrap();
    db
}

fn customer(key: &str, organization: &str) -> Customer {
    let mut customer = Customer::default();
    customer.uuid = key.to_string();
    customer.id = "C00001".to_string();
    customer.organization = organization.to_string();
    customer.contact.name = "Ada".to_string();
    customer.contact.email = Some("ada@example.org".to_string());
    customer
}

#[test]
fn new_store_keeps_its_path_and_has_no_table() {
    let db = FilesystemDatabase::new(PathBuf::from("some/where"));
    assert_eq!(db.path(), &PathBuf::from("some/where"));
    assert_eq!(
        db.contains::<Customer>("k"),
        Err(Error::TableNotFound("customers".to_string()))
    );
    assert_eq!(
        db.read::<Customer>("k"),
        Err(Error::TableNotFound("customers".to_string()))
    );
    assert_eq!(
        db.read_all::<Invoice>(),
        Err(Error::TableNotFound("invoices".to_string()))
    );
}

#[test]
fn operations_on_an_undefined_table_fail_and_change_nothing() {
    let mut db = FilesystemDatabase::new(PathBuf::from("data"));
    db.define::<Customer>().unwrap();
    assert_eq!(
        db.create("CONFIG", Config::default()),
        Err(Error::TableNotFound("config".to_string()))
    );
    assert_eq!(
        db.update("CONFIG", Config::default()),
        Err(Error::TableNotFound("config".to_string()))
    );
    assert_eq!(
        db.delete::<Config>("CONFIG"),
        Err(Error::TableNotFound("config".to_string()))
    );
    db.define::<Config>().unwrap();
    assert_eq!(db.contains::<Config>("CONFIG"), Ok(false));
}

#[test]
fn define_twice_keeps_the_records() {
    let mut db = store();
    db.create("c1", customer("c1", "Acme")).unwrap();
    assert_eq!(db.define::<Customer>(), Ok(()));
    assert_eq!(db.read::<Customer>("c1"), Ok(customer("c1", "Acme")));
    assert_eq!(db.read_all::<Customer>().unwrap().len(), 1);
}

#[test]
fn read_all_of_a_new_table_is_empty() {
    let db = store();
    assert_eq!(db.read_all::<Customer>(), Ok(Vec::new()));
    assert_eq!(db.read_all::<Invoice>(), Ok(Vec::new()));
}

#[test]
fn absent_key_is_not_found() {
    let mut db = store();
    assert_eq!(db.contains::<Customer>("nobody"), Ok(false));
    assert_eq!(
        db.read::<Customer>("nobody"),
        Err(Error::KeyNotFound("nobody".to_string()))
    );
    assert_eq!(
        db.delete::<Customer>("nobody"),
        Err(Error::KeyNotFound("nobody".to_string()))
    );
    assert_eq!(
        db.update("nobody", customer("nobody", "Acme")),
        Err(Error::KeyNotFound("nobody".to_string()))
    );
    assert_eq!(db.contains::<Customer>("nobody"), Ok(false));
    assert_eq!(db.read_all::<Customer>(), Ok(Vec::new()));
}

#[test]
fn create_then_read_and_no_overwrite() {
    let mut db = store();
    let first = customer("c1", "Acme");
    assert_eq!(db.create("c1", first.clone()), Ok(()));
    assert_eq!(db.contains::<Customer>("c1"), Ok(true));
    assert_eq!(db.read::<Customer>("c1"), Ok(first.clone()));
    assert_eq!(
        db.create("c1", customer("c1", "Other")),
        Err(Error::KeyAlreadyExists("c1".to_string()))
    );
    assert_eq!(db.read::<Customer>("c1"), Ok(first));
}

#[test]
fn create_then_update_then_read() {
    let mut db = store();
    db.create("c1", customer("c1", "Acme")).unwrap();
    let second = customer("c1", "Other");
    assert_eq!(db.update("c1", second.clone()), Ok(()));
    assert_eq!(db.read::<Customer>("c1"), Ok(second));
    assert_eq!(db.read_all::<Customer>().unwrap().len(), 1);
}

#[test]
fn create_then_delete() {
    let mut db = store();
    db.create("c1", customer("c1", "Acme")).unwrap();
    assert_eq!(db.delete::<Customer>("c1"), Ok(()));
    assert_eq!(db.contains::<Customer>("c1"), Ok(false));
    assert_eq!(
        db.read::<Customer>("c1"),
        Err(Error::KeyNotFound("c1".to_string()))
    );
    assert_eq!(db.create("c1", customer("c1", "Again")), Ok(()));
}

#[test]
fn a_record_that_cannot_be_read_back_is_not_stored() {
    let mut db = store();
    let mut invoice = Invoice::default();
    invoice.uuid = "i1".to_string();
    let mut broken = invoice.clone();
    broken.issuing_date.month = 13;
    assert_eq!(
        db.create("i1", broken.clone()),
        Err(Error::Serialization("i1".to_string()))
    );
    assert_eq!(db.contains::<Invoice>("i1"), Ok(false));
    db.create("i1", invoice.clone()).unwrap();
    assert_eq!(
        db.update("i1", broken.clone()),
        Err(Error::Serialization("i1".to_string()))
    );
    assert_eq!(db.read::<Invoice>("i1"), Ok(invoice));
    assert_eq!(
        db.create("i1", broken.clone()),
        Err(Error::KeyAlreadyExists("i1".to_string()))
    );
    assert_eq!(
        db.update("i2", broken),
        Err(Error::KeyNotFound("i2".to_string()))
    );
}

#[test]
fn read_all_keeps_the_order_of_creation() {
    let mut db = store();
    db.create("b", customer("b", "Second letter")).unwrap();
    db.create("a", customer("a", "First letter")).unwrap();
    db.create("c", customer("c", "Third letter")).unwrap();
    let keys: Vec<String> = db
        .read_all::<Customer>()
        .unwrap()
        .into_iter()
        .map(|c| c.uuid)
        .collect();
    assert_eq!(keys, vec!["b", "a", "c"]);
    db.update("a", customer("a", "Changed")).unwrap();
    db.delete::<Customer>("b").unwrap();
    let left: Vec<String> = db
        .read_all::<Customer>()
        .unwrap()
        .into_iter()
        .map(|c| c.organization)
        .collect();
    assert_eq!(left, vec!["Changed", "Third letter"]);
}

#[test]
fn tables_do_not_share_keys() {
    let mut db = store();
    db.create("same", customer("same", "Acme")).unwrap();
    assert_eq!(db.contains::<Invoice>("same"), Ok(false));
    let mut invoice = Invoice::default();
    invoice.uuid = "same".to_string();
    assert_eq!(db.create("same", invoice.clone()), Ok(()));
    assert_eq!(db.read::<Invoice>("same"), Ok(invoice));
    assert_eq!(db.read::<Customer>("same"), Ok(customer("same", "Acme")));
    db.delete::<Invoice>("same").unwrap();
    assert_eq!(db.contains::<Customer>("same"), Ok(true));
}

#[test]
fn tables_and_keys_of_the_models() {
    assert_eq!(Customer::table(), "customers");
    assert_eq!(Invoice::table(), "invoices");
    assert_eq!(Business::table(), "business");
    assert_eq!(Config::table(), "config");
    assert_eq!(customer("c1", "Acme").primary_key(), "c1");
    let mut invoice = Invoice::default();
    invoice.uuid = "i1".to_string();
    assert_eq!(invoice.primary_key(), "i1");
    assert_eq!(Business::default().primary_key(), "BUSINESS");
    assert_eq!(Config::default().primary_key(), "CONFIG");
    assert_eq!(facture::models::BUSINESS_PRIMARY_KEY, "BUSINESS");
    assert_eq!(facture::models::CONFIG_PRIMARY_KEY, "CONFIG");
}

#[test]
fn error_messages() {
    assert_eq!(
        Error::TableNotFound("customers".to_string()).message(),
        "Table \"customers\" not found"
    );
    assert_eq!(
        Error::KeyAlreadyExists("k1".to_string()).message(),
        "Key \"k1\" already exists"
    );
    assert_eq!(
        Error::KeyNotFound("k1".to_string()).message(),
        "Key \"k1\" not found"
    );
    assert_eq!(
        Error::IO("disk full".to_string()).message(),
        "I/O error: disk full"
    );
    assert_eq!(
        Error::Serialization("due_date".to_string()).message(),
        "Serialization error: due_date"
    );
    assert_eq!(
        Error::Deserialization("uuid".to_string()).message(),
        "Deserialization error: uuid"
    );
    assert_eq!(
        Error::Identifier("customer_counter".to_string()).message(),
        "Identifier error: customer_counter"
    );
}

#[test]
fn customer_create() {
    let mut db = store();
    let result = db.create("c1", customer("c1", "Acme"));
    assert!(result.is_ok());
}

#[test]
fn customer_read() {
    let mut db = store();
    let created = customer("c1", "Acme");
    db.create("c1", created.clone()).unwrap();
    let read = db.read::<Customer>("c1");
    assert!(read.is_ok());
    assert_eq!(created, read.unwrap());
}

#[test]
fn customer_read_all() {
    let mut db = store();
    let created = vec![customer("c0", "Acme"), customer("c1", "Acme"), customer("c2", "Acme")];
    for c in &created {
        db.create(&c.uuid, c.clone()).unwrap();
    }
    assert_eq!(created, db.read_all::<Customer>().unwrap());
}

#[test]
fn update() {
    let mut db = store();
    let created = customer("c1", "Acme");
    db.create("c1", created.clone()).unwrap();
    let mut changed = created.clone();
    changed.contact.name = "John".to_string();
    db.update("c1", changed).unwrap();
    let mut expected = created;
    expected.contact.name = "John".to_string();
    assert_eq!(expected, db.read::<Customer>("c1").unwrap());
}

#[test]
fn customer_delete() {
    let mut db = store();
    db.create("c1", customer("c1", "Acme")).unwrap();
    let result = db.delete::<Customer>("c1");
    assert!(result.is_ok());
}

#[test]
fn invoice_create() {
    let mut db = store();
    db.create("c1", customer("c1", "Acme")).unwrap();
    let mut invoice = Invoice::default();
    invoice.uuid = "i1".to_string();
    invoice.customer = "c1".to_string();
    db.create("i1", invoice).unwrap();
    assert_eq!("c1", db.read::<Invoice>("i1").unwrap().customer);
}

#[test]
fn invoice_read() {
    let mut db = store();
    let mut invoice = Invoice::default();
    invoice.uuid = "i1".to_string();
    db.create("i1", invoice.clone()).unwrap();
    let read = db.read::<Invoice>("i1");
    assert!(read.is_ok());
    assert_eq!(invoice, read.unwrap());
}

#[test]
fn invoice_read_all() {
    let mut db = store();
    let mut created = Vec::new();
    for key in ["i0", "i1"] {
        let mut invoice = Invoice::default();
        invoice.uuid = key.to_string();
        db.create(key, invoice.clone()).unwrap();
        created.push(invoice);
    }
    assert_eq!(created, db.read_all::<Invoice>().unwrap());
}

#[test]
fn invoice_delete() {
    let mut db = store();
    let mut invoice = Invoice::default();
    invoice.uuid = "i1".to_string();
    db.create("i1", invoice).unwrap();
    let result = db.delete::<Invoice>("i1");
    assert!(result.is_ok());
}

#[test]
fn documents_are_stored_as_they_are_given() {
    let mut db = FilesystemDatabase::new(PathBuf::from("data"));
    assert_eq!(db.table_names(), Vec::<String>::new());
    assert_eq!(db.keys("notes"), Err(Error::TableNotFound("notes".to_string())));
    assert_eq!(
        db.create_document("notes", "n1", Node::Null),
        Err(Error::TableNotFound("notes".to_string()))
    );
    db.define_table("notes");
    db.define_table("customers");
    db.define_table("notes");
    assert_eq!(db.table_names(), vec!["notes", "customers"]);
    assert_eq!(db.keys("notes"), Ok(Vec::new()));
    assert_eq!(db.contains_document("notes", "n1"), Ok(false));
    assert_eq!(db.create_document("notes", "n1", Node::Text("first".to_string())), Ok(()));
    assert_eq!(db.create_document("notes", "n0", Node::Number(7)), Ok(()));
    assert_eq!(
        db.create_document("notes", "n1", Node::Null),
        Err(Error::KeyAlreadyExists("n1".to_string()))
    );
    assert_eq!(db.keys("notes"), Ok(vec!["n1".to_string(), "n0".to_string()]));
    assert_eq!(db.contains_document("notes", "n1"), Ok(true));
    assert_eq!(db.read_document("notes", "n1"), Ok(&Node::Text("first".to_string())));
    assert_eq!(db.read_document("notes", "n2"), Err(Error::KeyNotFound("n2".to_string())));
    assert_eq!(db.read_document("none", "n1"), Err(Error::TableNotFound("none".to_string())));
    assert_eq!(db.update_document("notes", "n1", Node::Bool(true)), Ok(()));
    assert_eq!(
        db.update_document("notes", "n2", Node::Bool(true)),
        Err(Error::KeyNotFound("n2".to_string()))
    );
    assert_eq!(db.read_document("notes", "n1"), Ok(&Node::Bool(true)));
    assert_eq!(db.keys("notes"), Ok(vec!["n1".to_string(), "n0".to_string()]));
    assert_eq!(db.delete_document("notes", "n1"), Ok(()));
    assert_eq!(db.delete_document("notes", "n1"), Err(Error::KeyNotFound("n1".to_string())));
    assert_eq!(db.keys("notes"), Ok(vec!["n0".to_string()]));
    assert_eq!(db.keys("customers"), Ok(Vec::new()));
}

#[test]
fn a_record_is_stored_as_its_document() {
    let mut db = store();
    let ada = customer("c1", "Acme");
    db.create("c1", ada.clone()).unwrap();
    assert_eq!(db.table_names(), vec!["customers", "invoices", "business", "config"]);
    assert_eq!(db.keys("customers"), Ok(vec!["c1".to_string()]));
    assert_eq!(db.read_document("customers", "c1"), Ok(&ada.to_yaml()));
    db.create_document("customers", "c2", customer("c2", "Other").to_yaml()).unwrap();
    assert_eq!(db.read::<Customer>("c2"), Ok(customer("c2", "Other")));
}

#[test]
fn a_stored_document_of_another_shape_fails_to_be_read_as_a_record() {
    let mut db = store();
    db.create_document("customers", "c1", Config::default().to_yaml()).unwrap();
    db.create_document("customers", "c2", Node::Null).unwrap();
    assert_eq!(db.contains::<Customer>("c1"), Ok(true));
    assert_eq!(db.read::<Customer>("c1"), Err(Error::Deserialization("uuid".to_string())));
    assert_eq!(db.read_all::<Customer>(), Err(Error::Deserialization("uuid".to_string())));
    assert_eq!(
        db.create("c1", customer("c1", "Acme")),
        Err(Error::KeyAlreadyExists("c1".to_string()))
    );
    assert_eq!(db.update("c1", customer("c1", "Acme")), Ok(()));
    assert_eq!(db.read::<Customer>("c1"), Ok(customer("c1", "Acme")));
    assert_eq!(db.read_all::<Customer>(), Err(Error::Deserialization("uuid".to_string())));
    assert_eq!(db.delete::<Customer>("c2"), Ok(()));
    assert_eq!(db.read_all::<Customer>(), Ok(vec![customer("c1", "Acme")]));
}
