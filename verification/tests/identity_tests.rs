use facture::date::Date;
use facture::error::Error;
use facture::engine::{is_plain, is_word_text};
use facture::identity::{render_id, render_id_template, uuid_v7};
use facture::models::{Config, Customer, Invoice, Item};

fn date(year: i32, month: u32, day: u32) -> Date {
    Date { year, month, day }
}

#[test]
fn a_new_key_has_the_form_of_a_uuid() {
    let key = uuid_v7();
    assert_eq!(key.len(), 36);
    let chars: Vec<char> = key.chars().collect();
    for (i, c) in chars.iter().enumerate() {
        if i == 8 || i == 13 || i == 18 || i == 23 {
            assert_eq!(*c, '-');
        } else {
            assert!(c.is_ascii_hexdigit() && !c.is_ascii_uppercase());
        }
    }
    assert_eq!(chars[14], '7');
    assert_eq!(uuid::Uuid::parse_str(&key).unwrap().get_version_num(), 7);
}

#[test]
fn new_keys_differ_and_sort_by_their_making() {
    let first = uuid_v7();
    let second = uuid_v7();
    let third = uuid_v7();
    assert_ne!(first, second);
    assert!(first < second);
    assert!(second < third);
}

#[test]
fn an_identifier_is_rendered_from_its_template() {
    let day = date(2024, 3, 5);
    assert_eq!(render_id("R{{ year }}-{{ counter }}", &day, "00007"), Ok("R2024-00007".to_string()));
    assert_eq!(render_id("K{{ counter }}", &day, "00001"), Ok("K00001".to_string()));
    assert_eq!(render_id("{{ day }}.{{ month }}.{{ year }}", &day, "1"), Ok("5.3.2024".to_string()));
    assert_eq!(render_id("{{ year }}", &date(-44, 3, 15), "1"), Ok("-44".to_string()));
    assert_eq!(render_id("plain", &day, "1"), Ok("plain".to_string()));
    assert_eq!(render_id("", &day, "1"), Ok(String::new()));
    assert_eq!(render_id("{{ counter }}{{ counter }}", &day, "ab"), Ok("abab".to_string()));
    assert_eq!(render_id("a } b }} c", &day, "1"), Ok("a } b }} c".to_string()));
    assert_eq!(render_id("{{ counter }}", &day, "{{ year }}"), Ok("{{ year }}".to_string()));
    assert_eq!(render_id("Ü{{ counter }}ß", &day, "é"), Ok("Üéß".to_string()));
}

#[test]
fn the_names_of_a_template_stand_for_the_date_and_the_counter() {
    let day = date(2024, 3, 5);
    assert_eq!(render_id("{{ year }}", &day, "c"), Ok("2024".to_string()));
    assert_eq!(render_id("{{ month }}", &day, "c"), Ok("3".to_string()));
    assert_eq!(render_id("{{ day }}", &day, "c"), Ok("5".to_string()));
    assert_eq!(render_id("{{ counter }}", &day, "c"), Ok("c".to_string()));
}

#[test]
fn a_template_that_is_not_plain_gives_no_identifier() {
    let day = date(2024, 3, 5);
    let refused = [
        "{{ nothing }}!",
        "{{counter}}",
        "{{  counter }}",
        "{{ counter  }}",
        "{{ counter|upper }}",
        "{{ Counter }}",
        "{{ counter }",
        "{ counter }",
        "a { b",
        "{",
        "{{",
        "{{ ",
        "{{ counter }}{",
        "{% if counter %}x{% endif %}",
        "{# note #}",
        "{{ \"abc\"[0:2:-1] }}",
        "{{ counter[0:2:-1] }}",
        "{{ counter | batch(99999999999999999) }}",
        "{{ counter | indent(99999999999999999) }}",
        "{{ range(3) | slice(99999999999999999) }}",
    ];
    for template in refused {
        match render_id(template, &day, "00001") {
            Err(Error::Identifier(detail)) => assert_eq!(detail, template),
            other => panic!("{:?} gave {:?}", template, other),
        }
    }
}

#[test]
fn the_templates_that_are_plain() {
    let names = |list: &[&str]| -> Vec<(String, String)> {
        list.iter().map(|name| (name.to_string(), String::new())).collect()
    };
    let four = names(&["year", "month", "day", "counter"]);
    assert!(is_plain("", &four));
    assert!(is_plain("R", &four));
    assert!(is_plain("R{{ year }}-{{ counter }}", &four));
    assert!(is_plain("{{ day }}{{ month }}", &four));
    assert!(is_plain("}} }", &four));
    assert!(!is_plain("{{ years }}", &four));
    assert!(!is_plain("{{ yea }}", &four));
    assert!(!is_plain("R{{ year }}-{{ counter }", &four));
    assert!(!is_plain("{{ year }}", &names(&["month"])));
    assert!(!is_plain("{", &names(&[])));
    assert!(is_plain("x", &names(&[])));
    assert!(!is_plain("x", &names(&["Year"])));
    assert!(!is_plain("x", &names(&[""])));
    assert!(!is_plain("x", &names(&["a b"])));
    assert!(!is_plain("x", &names(&["a1"])));
    assert!(is_word_text("counter"));
    assert!(is_word_text("z"));
    assert!(!is_word_text(""));
    assert!(!is_word_text("Counter"));
    assert!(!is_word_text("count er"));
    assert!(!is_word_text("zähler"));
    assert!(!is_word_text("x | batch(9)"));
}

#[test]
fn a_template_that_cannot_be_rendered_gives_no_identifier() {
    let day = date(2024, 3, 5);
    assert!(matches!(render_id("{{ counter", &day, "1"), Err(Error::Identifier(_))));
    assert!(matches!(render_id("{% if %}", &day, "1"), Err(Error::Identifier(_))));
    assert!(matches!(render_id("{{ counter | nofilter }}", &day, "1"), Err(Error::Identifier(_))));
    assert!(matches!(render_id("{{ not }}", &day, "1"), Err(Error::Identifier(_))));
    match render_id("{{ counter", &day, "1") {
        Err(e) => assert!(e.message().starts_with("Identifier error: ")),
        Ok(_) => panic!("rendered"),
    }
}

#[test]
fn an_identifier_for_today() {
    assert_eq!(render_id_template("K{{ counter }}", "00012"), Ok("K00012".to_string()));
    let today = Date::today();
    let expected = format!("R{}-{}", today.year, "00003");
    let rendered = render_id_template("R{{ year }}-{{ counter }}", "00003").unwrap();
    assert!(rendered == expected || rendered == format!("R{}-00003", today.year + 1));
    assert!(matches!(render_id_template("{{", "1"), Err(Error::Identifier(_))));
}

#[test]
fn the_first_draft_of_a_customer() {
    let customer = Customer::new_with_uuid("C", 1);
    assert_eq!(customer.id, "C00001");
    assert_eq!(customer.uuid.len(), 36);
    let mut expected = Customer::default();
    expected.uuid = customer.uuid.clone();
    expected.id = "C00001".to_string();
    assert_eq!(customer, expected);
    assert_eq!(Customer::new_with_uuid("KD-", 123456).id, "KD-123456");
    assert_eq!(Customer::new_with_uuid("", 99999).id, "99999");
    assert_ne!(Customer::new_with_uuid("C", 1).uuid, customer.uuid);
}

#[test]
fn the_identifier_of_a_customer_by_its_number() {
    assert_eq!(Customer::sequential_id("C", 1), "C00001");
    assert_eq!(Customer::sequential_id("C", 0), "C00000");
    assert_eq!(Customer::sequential_id("C", 100000), "C100000");
    assert_eq!(Customer::sequential_id("C", 42), format!("C{:05}", 42));
}

#[test]
fn a_draft_with_a_given_key() {
    let customer = Customer::draft("k".to_string(), "C00009".to_string());
    assert_eq!(customer.uuid, "k");
    assert_eq!(customer.id, "C00009");
    assert_eq!(customer.organization, "");
    assert_eq!(customer.invoices, Vec::<String>::new());
    let invoice = Invoice::draft("i".to_string(), "R1".to_string(), date(2024, 3, 5));
    assert_eq!(
        invoice,
        Invoice {
            uuid: "i".to_string(),
            id: "R1".to_string(),
            issuing_date: date(2024, 3, 5),
            delivery_date: date(2024, 3, 5),
            due_days: 30,
            customer: String::new(),
            items: vec![Item { description: String::new(), price: 0, quantity: None }],
        }
    );
}

#[test]
fn the_first_draft_of_an_invoice() {
    let invoice = Invoice::new_with_uuid("R2024-00001".to_string());
    assert_eq!(invoice.id, "R2024-00001");
    assert_eq!(invoice.uuid.len(), 36);
    assert_eq!(invoice.due_days, 30);
    assert_eq!(invoice.customer, "");
    assert_eq!(invoice.items, vec![Item::default()]);
    assert_eq!(invoice.issuing_date, invoice.delivery_date);
    let today = Date::today();
    assert!(invoice.issuing_date == today || invoice.issuing_date.plus_days(1) == Some(today));
}

#[test]
fn the_invoices_of_a_customer() {
    let mut customer = Customer::default();
    customer.add_invoice("a");
    customer.add_invoice("b");
    customer.add_invoice("a");
    customer.add_invoice("c");
    assert_eq!(customer.invoices, vec!["a", "b", "a", "c"]);
    customer.remove_invoice("a");
    assert_eq!(customer.invoices, vec!["b", "c"]);
    customer.remove_invoice("nothing");
    assert_eq!(customer.invoices, vec!["b", "c"]);
    customer.remove_invoice("c");
    customer.remove_invoice("b");
    assert_eq!(customer.invoices, Vec::<String>::new());
    customer.remove_invoice("b");
    assert_eq!(customer, Customer::default());
}

#[test]
fn the_first_configuration() {
    let config = Config::default();
    assert_eq!(config.customer_template, "K{{ counter }}");
    assert_eq!(config.customer_counter, 1);
    assert_eq!(config.invoice_template, "R{{ year }}-{{ counter }}");
    assert_eq!(config.invoice_counter, 1);
}
