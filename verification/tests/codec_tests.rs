use facture::date::Date;
use facture::document::{Node, YamlAble};
use facture::error::Error;
use facture::models::{
    Address, Business, Config, Contact, Customer, Invoice, Item, Payment, Rate,
};
use facture::store::FilesystemDatabase;
use std::path::PathBuf;

fn text(s: &str) -> Node {
    Node::Text(s.to_string())
}

fn entry(name: &str, value: Node) -> (Node, Node) {
    (text(name), value)
}

fn to_value(node: &Node) -> serde_yaml::Value {
    match node {
        Node::Null => serde_yaml::Value::Null,
        Node::Bool(b) => serde_yaml::Value::Bool(*b),
        Node::Number(n) => serde_yaml::Value::Number((*n).into()),
        Node::Negative(n) => serde_yaml::Value::Number((*n).into()),
        Node::Float(bits) => serde_yaml::Value::Number(f64::from_bits(*bits).into()),
        Node::Text(s) => serde_yaml::Value::String(s.clone()),
        Node::List(items) => serde_yaml::Value::Sequence(items.iter().map(to_value).collect()),
        Node::Mapping(entries) => serde_yaml::Value::Mapping(
            entries.iter().map(|(k, v)| (to_value(k), to_value(v))).collect(),
        ),
        Node::Tagged(tag, inner) => {
            serde_yaml::Value::Tagged(Box::new(serde_yaml::value::TaggedValue {
                tag: serde_yaml::value::Tag::new(tag),
                value: to_value(inner),
            }))
        }
    }
}

fn to_node(value: &serde_yaml::Value) -> Node {
    match value {
        serde_yaml::Value::Null => Node::Null,
        serde_yaml::Value::Bool(b) => Node::Bool(*b),
        serde_yaml::Value::Number(n) => match (n.as_u64(), n.as_i64(), n.as_f64()) {
            (Some(n), _, _) => Node::Number(n),
            (_, Some(n), _) => Node::Negative(n),
            (_, _, Some(x)) => Node::Float(x.to_bits()),
            _ => unreachable!(),
        },
        serde_yaml::Value::String(s) => Node::Text(s.clone()),
        serde_yaml::Value::Sequence(items) => Node::List(items.iter().map(to_node).collect()),
        serde_yaml::Value::Mapping(entries) => {
            Node::Mapping(entries.iter().map(|(k, v)| (to_node(k), to_node(v))).collect())
        }
        serde_yaml::Value::Tagged(tagged) => {
            Node::Tagged(tagged.tag.to_string(), Box::new(to_node(&tagged.value)))
        }
    }
}

fn to_text<T: YamlAble>(record: &T) -> String {
    serde_yaml::to_string(&to_value(&record.to_yaml())).unwrap()
}

fn from_text<T: YamlAble>(text: &str) -> Result<T, Error> {
    let value: serde_yaml::Value = serde_yaml::from_str(text).unwrap();
    T::from_yaml(&to_node(&value))
}

fn address() -> Address {
    Address {
        country: "Germany".to_string(),
        city: "Berlin".to_string(),
        postal_code: "10115".to_string(),
        street: "Invalidenstr.".to_string(),
        number: "7a".to_string(),
    }
}

fn contact() -> Contact {
    Contact {
        name: "Ada".to_string(),
        surname: "Lovelace".to_string(),
        email: Some("ada@example.org".to_string()),
        phone: None,
    }
}

fn customer() -> Customer {
    Customer {
        uuid: "0190a7e2-0000-7000-8000-000000000001".to_string(),
        id: "C00001".to_string(),
        organization: "Analytical Engines Ltd".to_string(),
        vat_id: "DE123456789".to_string(),
        contact: contact(),
        address: address(),
        invoices: vec!["inv-1".to_string(), "inv-2".to_string()],
    }
}

fn invoice() -> Invoice {
    Invoice {
        uuid: "inv-1".to_string(),
        id: "R2024-00001".to_string(),
        issuing_date: Date { year: 2024, month: 2, day: 29 },
        delivery_date: Date { year: 2024, month: 3, day: 1 },
        due_days: 30,
        customer: "0190a7e2-0000-7000-8000-000000000001".to_string(),
        items: vec![
            Item { description: "Consulting".to_string(), price: 12000, quantity: Some(3) },
            Item { description: "Travel: flat rate".to_string(), price: 4500, quantity: None },
        ],
    }
}

fn business() -> Business {
    Business {
        name: "Byron & Daughter".to_string(),
        vat_id: "DE987654321".to_string(),
        vat: Rate::Fraction(0.19f64.to_bits()),
        contact: contact(),
        address: address(),
        payment: Payment { bank: "Bank of Examples".to_string(), iban: "DE02120300000000202051".to_string() },
    }
}

#[test]
fn documents_read_back_as_the_records_they_were_written_from() {
    assert_eq!(Address::from_yaml(&address().to_yaml()), Ok(address()));
    assert_eq!(Contact::from_yaml(&contact().to_yaml()), Ok(contact()));
    assert_eq!(Customer::from_yaml(&customer().to_yaml()), Ok(customer()));
    assert_eq!(Invoice::from_yaml(&invoice().to_yaml()), Ok(invoice()));
    assert_eq!(Business::from_yaml(&business().to_yaml()), Ok(business()));
    assert_eq!(Config::from_yaml(&Config::default().to_yaml()), Ok(Config::default()));
    assert_eq!(Customer::from_yaml(&Customer::default().to_yaml()), Ok(Customer::default()));
    assert_eq!(Invoice::from_yaml(&Invoice::default().to_yaml()), Ok(Invoice::default()));
}

#[test]
fn the_records_that_can_be_written_out_and_read_back() {
    assert!(customer().is_valid());
    assert!(business().is_valid());
    assert!(Config::default().is_valid());
    assert!(invoice().is_valid());
    assert!(Invoice::default().is_valid());
    assert!("text".to_string().is_valid());
    let mut broken = invoice();
    broken.issuing_date.day = 30;
    assert!(!broken.is_valid());
    assert_eq!(
        Invoice::from_yaml(&broken.to_yaml()),
        Err(Error::Deserialization("issuing_date".to_string()))
    );
    let mut far = invoice();
    far.delivery_date.year = 10000;
    assert!(far.is_valid());
    assert_eq!(Invoice::from_yaml(&far.to_yaml()), Ok(far));
    let mut broken = invoice();
    broken.delivery_date.month = 13;
    assert!(!broken.is_valid());
    assert_eq!(
        Invoice::from_yaml(&broken.to_yaml()),
        Err(Error::Deserialization("delivery_date".to_string()))
    );
}

#[test]
fn texts_read_back_as_the_records_they_were_written_from() {
    assert_eq!(from_text::<Customer>(&to_text(&customer())), Ok(customer()));
    assert_eq!(from_text::<Invoice>(&to_text(&invoice())), Ok(invoice()));
    assert_eq!(from_text::<Business>(&to_text(&business())), Ok(business()));
    assert_eq!(from_text::<Config>(&to_text(&Config::default())), Ok(Config::default()));
}

#[test]
fn the_document_of_a_contact() {
    let expected = Node::Mapping(vec![
        entry("name", text("Ada")),
        entry("surname", text("Lovelace")),
        entry("email", text("ada@example.org")),
        entry("phone", Node::Null),
    ]);
    assert_eq!(contact().to_yaml(), expected);
}

#[test]
fn the_document_of_an_invoice() {
    let expected = Node::Mapping(vec![
        entry("uuid", text("inv-1")),
        entry("id", text("R2024-00001")),
        entry("issuing_date", text("2024-02-29")),
        entry("delivery_date", text("2024-03-01")),
        entry("due_days", Node::Number(30)),
        entry("customer", text("0190a7e2-0000-7000-8000-000000000001")),
        entry(
            "items",
            Node::List(vec![
                Node::Mapping(vec![
                    entry("description", text("Consulting")),
                    entry("price", Node::Number(12000)),
                    entry("quantity", Node::Number(3)),
                ]),
                Node::Mapping(vec![
                    entry("description", text("Travel: flat rate")),
                    entry("price", Node::Number(4500)),
                    entry("quantity", Node::Null),
                ]),
            ]),
        ),
    ]);
    assert_eq!(invoice().to_yaml(), expected);
}

#[test]
fn the_text_of_a_payment() {
    let payment = Payment { bank: "Bank of Examples".to_string(), iban: "DE02".to_string() };
    assert_eq!(to_text(&payment), "bank: Bank of Examples\niban: DE02\n");
    assert_eq!(from_text::<Payment>("iban: DE02\nbank: Bank of Examples\n"), Ok(payment));
}

#[test]
fn the_text_of_the_first_configuration() {
    let config: Config = from_text(
        "customer_template: 'K{{ counter }}'\ncustomer_counter: 1\ninvoice_template: 'R{{ year }}-{{ counter }}'\ninvoice_counter: 1\n",
    )
    .unwrap();
    assert_eq!(config, Config::default());
    assert_eq!(config.customer_template, "K{{ counter }}");
    assert_eq!(config.customer_counter, 1);
    assert_eq!(config.invoice_template, "R{{ year }}-{{ counter }}");
    assert_eq!(config.invoice_counter, 1);
}

#[test]
fn a_field_that_may_be_missing() {
    let without = Node::Mapping(vec![entry("name", text("Ada")), entry("surname", text("L"))]);
    let read = Contact::from_yaml(&without).unwrap();
    assert_eq!(read.email, None);
    assert_eq!(read.phone, None);
    let item = Node::Mapping(vec![entry("description", text("x")), entry("price", Node::Number(1))]);
    assert_eq!(
        Item::from_yaml(&item),
        Ok(Item { description: "x".to_string(), price: 1, quantity: None })
    );
}

#[test]
fn fields_are_found_in_any_order_and_others_are_passed_over() {
    let doc = Node::Mapping(vec![
        entry("note", text("not a field")),
        entry("iban", text("DE02")),
        entry("bank", text("B")),
    ]);
    assert_eq!(
        Payment::from_yaml(&doc),
        Ok(Payment { bank: "B".to_string(), iban: "DE02".to_string() })
    );
}

#[test]
fn the_first_of_two_entries_of_one_name_counts() {
    let doc = Node::Mapping(vec![
        entry("bank", text("first")),
        entry("iban", text("DE02")),
        entry("bank", text("second")),
    ]);
    assert_eq!(Payment::from_yaml(&doc).unwrap().bank, "first");
    assert_eq!(doc.get("bank"), Some(&text("first")));
    assert_eq!(doc.get("none"), None);
    assert_eq!(text("bank").get("bank"), None);
}

#[test]
fn a_document_of_the_wrong_shape_names_the_field() {
    let missing = Node::Mapping(vec![entry("name", text("Ada"))]);
    assert_eq!(
        Contact::from_yaml(&missing),
        Err(Error::Deserialization("surname".to_string()))
    );
    let wrong = Node::Mapping(vec![
        entry("name", text("Ada")),
        entry("surname", text("L")),
        entry("email", Node::Number(5)),
    ]);
    assert_eq!(Contact::from_yaml(&wrong), Err(Error::Deserialization("email".to_string())));
    assert_eq!(Contact::from_yaml(&Node::Null), Err(Error::Deserialization("name".to_string())));
    assert_eq!(
        Contact::from_yaml(&Node::List(vec![])),
        Err(Error::Deserialization("name".to_string()))
    );
    assert_eq!(String::from_yaml(&Node::Null), Err(Error::Deserialization(String::new())));
    assert_eq!(String::from_yaml(&text("t")), Ok("t".to_string()));
}

#[test]
fn a_nested_record_of_the_wrong_shape_names_its_field() {
    let mut doc = match customer().to_yaml() {
        Node::Mapping(entries) => entries,
        _ => unreachable!(),
    };
    doc[6] = entry("invoices", Node::List(vec![text("inv-1"), Node::Number(2)]));
    let doc = Node::Mapping(doc);
    assert_eq!(Customer::from_yaml(&doc), Err(Error::Deserialization("invoices".to_string())));
    let mut doc = match doc {
        Node::Mapping(entries) => entries,
        _ => unreachable!(),
    };
    doc[4] = entry("contact", Node::Mapping(vec![entry("name", text("Ada"))]));
    assert_eq!(
        Customer::from_yaml(&Node::Mapping(doc)),
        Err(Error::Deserialization("contact".to_string()))
    );
}

#[test]
fn a_number_that_does_not_fit_is_refused() {
    let item = |price: u64| {
        Node::Mapping(vec![entry("description", text("x")), entry("price", Node::Number(price))])
    };
    assert_eq!(Item::from_yaml(&item(4294967295)).unwrap().price, 4294967295);
    assert_eq!(
        Item::from_yaml(&item(4294967296)),
        Err(Error::Deserialization("price".to_string()))
    );
    let quantity = Node::Mapping(vec![
        entry("description", text("x")),
        entry("price", Node::Number(1)),
        entry("quantity", Node::Number(4294967296)),
    ]);
    assert_eq!(Item::from_yaml(&quantity), Err(Error::Deserialization("quantity".to_string())));
}

#[test]
fn a_date_that_the_calendar_lacks_is_refused() {
    let mut doc = match invoice().to_yaml() {
        Node::Mapping(entries) => entries,
        _ => unreachable!(),
    };
    doc[3] = entry("delivery_date", text("tomorrow"));
    let doc = Node::Mapping(doc);
    assert_eq!(Invoice::from_yaml(&doc), Err(Error::Deserialization("delivery_date".to_string())));
    let mut doc = match doc {
        Node::Mapping(entries) => entries,
        _ => unreachable!(),
    };
    doc[2] = entry("issuing_date", text("2023-02-29"));
    assert_eq!(
        Invoice::from_yaml(&Node::Mapping(doc)),
        Err(Error::Deserialization("issuing_date".to_string()))
    );
}

#[test]
fn what_no_record_holds_is_refused() {
    let item = |text: &str| from_text::<Item>(text);
    assert_eq!(item("description: x\nprice: 1.5\n"), Err(Error::Deserialization("price".to_string())));
    assert_eq!(item("description: x\nprice: -1\n"), Err(Error::Deserialization("price".to_string())));
    assert_eq!(item("description: x\nprice: '1'\n"), Err(Error::Deserialization("price".to_string())));
    assert_eq!(item("description: 5\nprice: 1\n"), Err(Error::Deserialization("description".to_string())));
    assert_eq!(item("description: !!str x\nprice: 1\n").unwrap().description, "x");
    assert_eq!(item("description: !note x\nprice: 1\n"), Err(Error::Deserialization("description".to_string())));
    assert_eq!(item("1: x\nprice: 1\n"), Err(Error::Deserialization("description".to_string())));
    assert_eq!(item("[description, price]"), Err(Error::Deserialization("description".to_string())));
    assert_eq!(item("description: x\nprice: 1\nquantity: ~\n").unwrap().quantity, None);
    assert_eq!(item("description: x\nprice: 1\nquantity: 2\n").unwrap().quantity, Some(2));
    assert_eq!(
        item("description: x\nprice: 1\nquantity: 2.0\n"),
        Err(Error::Deserialization("quantity".to_string()))
    );
}

#[test]
fn documents_that_hold_what_no_record_holds_pass_through_text() {
    let doc = Node::Mapping(vec![
        (Node::Number(1), Node::Negative(-5)),
        (Node::Bool(true), Node::Float(1.5f64.to_bits())),
        (text("tagged"), Node::Tagged("!note".to_string(), Box::new(text("x")))),
        (Node::Null, Node::List(vec![Node::Null, Node::Bool(false)])),
    ]);
    let written = serde_yaml::to_string(&to_value(&doc)).unwrap();
    let read: serde_yaml::Value = serde_yaml::from_str(&written).unwrap();
    assert_eq!(to_node(&read), doc);
    assert_eq!(doc.get("tagged"), Some(&Node::Tagged("!note".to_string(), Box::new(text("x")))));
    assert_eq!(doc.get("1"), None);
}

#[test]
fn a_rate_is_held_as_it_is_written() {
    let written = to_text(&business());
    assert!(written.contains("vat: 0.19\n"));
    let read = |vat: &str| from_text::<Business>(&written.replace("vat: 0.19\n", vat));
    assert_eq!(read("vat: 0.19\n"), Ok(business()));
    assert_eq!(read("vat: 0.0\n").unwrap().vat, Rate::Fraction(0.0f64.to_bits()));
    assert_eq!(read("vat: 0.077\n").unwrap().vat, Rate::Fraction(0.077f64.to_bits()));
    assert_eq!(read("vat: 19\n").unwrap().vat, Rate::Whole(19));
    assert_eq!(read("vat: 0\n").unwrap().vat, Rate::Whole(0));
    assert_eq!(read("vat: high\n"), Err(Error::Deserialization("vat".to_string())));
    assert_eq!(read("vat: -1\n"), Err(Error::Deserialization("vat".to_string())));
    assert_eq!(read("note: none\n"), Err(Error::Deserialization("vat".to_string())));
    assert_eq!(Business::default().vat, Rate::Fraction(0));
    assert_eq!(Rate::default(), Rate::Fraction(0.0f64.to_bits()));
    assert!(to_text(&Business::default()).contains("vat: 0.0\n"));
    let mut whole = business();
    whole.vat = Rate::Whole(19);
    assert!(to_text(&whole).contains("vat: 19\n"));
    assert_eq!(from_text::<Business>(&to_text(&whole)), Ok(whole));
}

#[test]
fn a_date_written_by_hand_is_read() {
    let written = to_text(&invoice());
    assert!(written.contains("issuing_date: 2024-02-29\n"));
    let edited = written.replace("issuing_date: 2024-02-29\n", "issuing_date: 2024-2-3\n");
    let mut expected = invoice();
    expected.issuing_date = Date { year: 2024, month: 2, day: 3 };
    assert_eq!(from_text::<Invoice>(&edited), Ok(expected));
    let far = written.replace("issuing_date: 2024-02-29\n", "issuing_date: +12345-6-7\n");
    assert_eq!(
        from_text::<Invoice>(&far).unwrap().issuing_date,
        Date { year: 12345, month: 6, day: 7 }
    );
}

#[test]
fn an_invoice_edited_as_text_is_stored_as_edited() {
    let mut db = FilesystemDatabase::new(PathBuf::from("data"));
    db.define::<Invoice>().unwrap();
    db.create("inv-1", invoice()).unwrap();
    let stored = db.read::<Invoice>("inv-1").unwrap();
    let written = to_text(&stored);
    assert!(written.contains("due_days: 30\n"));
    let edited = written.replace("due_days: 30\n", "due_days: 14\n");
    let parsed: Invoice = from_text(&edited).unwrap();
    db.update("inv-1", parsed).unwrap();
    let mut expected = invoice();
    expected.due_days = 14;
    assert_eq!(db.read::<Invoice>("inv-1"), Ok(expected));
}
