pub mod business;
pub mod config;
pub mod customer;
pub mod invoice;

pub use business::{
    Business, BusinessView, Payment, PaymentView, Rate, PRIMARY_KEY as BUSINESS_PRIMARY_KEY,
};
pub use config::{Config, ConfigView, PRIMARY_KEY as CONFIG_PRIMARY_KEY};
pub use customer::{Customer, CustomerView};
pub use invoice::{Invoice, InvoiceView, Item, ItemView};

use crate::document::{
    bad_field, entry, lemma_field_at, named, optional_view, Node, NodeView, YamlAble,
};
use crate::error::Error;
use vstd::prelude::*;

verus! {

/// A postal address.
#[derive(Debug, Clone, PartialEq, Eq)]
pub struct Address {
    pub country: String,
    pub city: String,
    pub postal_code: String,
    pub street: String,
    pub number: String,
}

/// The mathematical value of a [`Address`].
pub struct AddressView {
    pub country: Seq<char>,
    pub city: Seq<char>,
    pub postal_code: Seq<char>,
    pub street: Seq<char>,
    pub number: Seq<char>,
}

impl View for Address {
    type V = AddressView;

    open spec fn view(&self) -> AddressView {
        AddressView {
            country: self.country@,
            city: self.city@,
            postal_code: self.postal_code@,
            street: self.street@,
            number: self.number@,
        }
    }
}

impl AddressView {
    /// The address of which nothing is known yet: every text is empty.
    pub open spec fn empty() -> AddressView {
        AddressView {
            country: Seq::empty(),
            city: Seq::empty(),
            postal_code: Seq::empty(),
            street: Seq::empty(),
            number: Seq::empty(),
        }
    }
}

impl Default for Address {
    fn default() -> (record: Address)
        ensures
            record@ == AddressView::empty(),
    {
        let record = Address {
            country: String::new(),
            city: String::new(),
            postal_code: String::new(),
            street: String::new(),
            number: String::new(),
        };
        record
    }
}

impl YamlAble for Address {
    open spec fn valid(v: AddressView) -> bool {
        true
    }

    open spec fn encode(v: AddressView) -> NodeView {
        NodeView::Mapping(
            seq![
                named("country"@, NodeView::Text(v.country)),
                named("city"@, NodeView::Text(v.city)),
                named("postal_code"@, NodeView::Text(v.postal_code)),
                named("street"@, NodeView::Text(v.street)),
                named("number"@, NodeView::Text(v.number)),
            ],
        )
    }

    open spec fn decode(doc: NodeView) -> Result<AddressView, Seq<char>> {
        if doc.text_field("country"@) is None {
            Err("country"@)
        } else if doc.text_field("city"@) is None {
            Err("city"@)
        } else if doc.text_field("postal_code"@) is None {
            Err("postal_code"@)
        } else if doc.text_field("street"@) is None {
            Err("street"@)
        } else if doc.text_field("number"@) is None {
            Err("number"@)
        } else {
            Ok(
                AddressView {
                    country: doc.text_field("country"@)->Some_0,
                    city: doc.text_field("city"@)->Some_0,
                    postal_code: doc.text_field("postal_code"@)->Some_0,
                    street: doc.text_field("street"@)->Some_0,
                    number: doc.text_field("number"@)->Some_0,
                },
            )
        }
    }

    proof fn round_trip(v: AddressView) {
        reveal_strlit("country");
        reveal_strlit("city");
        reveal_strlit("postal_code");
        reveal_strlit("street");
        reveal_strlit("number");
        assert("country"@.len() == 7 && "city"@.len() == 4 && "postal_code"@.len() == 11
            && "street"@.len() == 6 && "number"@.len() == 6);
        assert("street"@[0] == 's' && "number"@[0] == 'n');
        let entries = Self::encode(v)->Mapping_0;
        lemma_field_at(entries, 0);
        lemma_field_at(entries, 1);
        lemma_field_at(entries, 2);
        lemma_field_at(entries, 3);
        lemma_field_at(entries, 4);
    }

    fn is_valid(&self) -> (ok: bool) {
        true
    }

    fn to_yaml(&self) -> (doc: Node) {
        let mut entries: Vec<(Node, Node)> = Vec::new();
        entries.push(entry("country", Node::text(&self.country)));
        entries.push(entry("city", Node::text(&self.city)));
        entries.push(entry("postal_code", Node::text(&self.postal_code)));
        entries.push(entry("street", Node::text(&self.street)));
        entries.push(entry("number", Node::text(&self.number)));
        let doc = Node::mapping(entries);
        assert(doc@->Mapping_0 =~= Self::encode(self@)->Mapping_0);
        doc
    }

    fn from_yaml(doc: &Node) -> (result: Result<Self, Error>) {
        let country = match doc.text_field("country") {
            Some(country) => country,
            None => return Err(bad_field("country")),
        };
        let city = match doc.text_field("city") {
            Some(city) => city,
            None => return Err(bad_field("city")),
        };
        let postal_code = match doc.text_field("postal_code") {
            Some(postal_code) => postal_code,
            None => return Err(bad_field("postal_code")),
        };
        let street = match doc.text_field("street") {
            Some(street) => street,
            None => return Err(bad_field("street")),
        };
        let number = match doc.text_field("number") {
            Some(number) => number,
            None => return Err(bad_field("number")),
        };
        Ok(Address { country, city, postal_code, street, number })
    }
}

/// A person to talk to.
#[derive(Debug, Clone, PartialEq, Eq)]
pub struct Contact {
    pub name: String,
    pub surname: String,
    pub email: Option<String>,
    pub phone: Option<String>,
}

/// The mathematical value of a [`Contact`].
pub struct ContactView {
    pub name: Seq<char>,
    pub surname: Seq<char>,
    pub email: Option<Seq<char>>,
    pub phone: Option<Seq<char>>,
}

impl View for Contact {
    type V = ContactView;

    open spec fn view(&self) -> ContactView {
        ContactView {
            name: self.name@,
            surname: self.surname@,
            email: optional_view(self.email),
            phone: optional_view(self.phone),
        }
    }
}

impl ContactView {
    /// The contact of which nothing is known yet: the names are empty, and
    /// there is no email address and no phone number.
    pub open spec fn empty() -> ContactView {
        ContactView {
            name: Seq::empty(),
            surname: Seq::empty(),
            email: None,
            phone: None,
        }
    }
}

impl Default for Contact {
    fn default() -> (record: Contact)
        ensures
            record@ == ContactView::empty(),
    {
        let record = Contact {
            name: String::new(),
            surname: String::new(),
            email: None,
            phone: None,
        };
        record
    }
}

impl YamlAble for Contact {
    open spec fn valid(v: ContactView) -> bool {
        true
    }

    open spec fn encode(v: ContactView) -> NodeView {
        NodeView::Mapping(
            seq![
                named("name"@, NodeView::Text(v.name)),
                named("surname"@, NodeView::Text(v.surname)),
                named("email"@, NodeView::optional_text(v.email)),
                named("phone"@, NodeView::optional_text(v.phone)),
            ],
        )
    }

    open spec fn decode(doc: NodeView) -> Result<ContactView, Seq<char>> {
        if doc.text_field("name"@) is None {
            Err("name"@)
        } else if doc.text_field("surname"@) is None {
            Err("surname"@)
        } else if doc.optional_text_field("email"@) is None {
            Err("email"@)
        } else if doc.optional_text_field("phone"@) is None {
            Err("phone"@)
        } else {
            Ok(
                ContactView {
                    name: doc.text_field("name"@)->Some_0,
                    surname: doc.text_field("surname"@)->Some_0,
                    email: doc.optional_text_field("email"@)->Some_0,
                    phone: doc.optional_text_field("phone"@)->Some_0,
                },
            )
        }
    }

    proof fn round_trip(v: ContactView) {
        reveal_strlit("name");
        reveal_strlit("surname");
        reveal_strlit("email");
        reveal_strlit("phone");
        assert("name"@.len() == 4 && "surname"@.len() == 7 && "email"@.len() == 5
            && "phone"@.len() == 5);
        assert("email"@[0] == 'e' && "phone"@[0] == 'p');
        let entries = Self::encode(v)->Mapping_0;
        lemma_field_at(entries, 0);
        lemma_field_at(entries, 1);
        lemma_field_at(entries, 2);
        lemma_field_at(entries, 3);
    }

    fn is_valid(&self) -> (ok: bool) {
        true
    }

    fn to_yaml(&self) -> (doc: Node) {
        let mut entries: Vec<(Node, Node)> = Vec::new();
        entries.push(entry("name", Node::text(&self.name)));
        entries.push(entry("surname", Node::text(&self.surname)));
        entries.push(entry("email", Node::optional_text(&self.email)));
        entries.push(entry("phone", Node::optional_text(&self.phone)));
        let doc = Node::mapping(entries);
        assert(doc@->Mapping_0 =~= Self::encode(self@)->Mapping_0);
        doc
    }

    fn from_yaml(doc: &Node) -> (result: Result<Self, Error>) {
        let name = match doc.text_field("name") {
            Some(name) => name,
            None => return Err(bad_field("name")),
        };
        let surname = match doc.text_field("surname") {
            Some(surname) => surname,
            None => return Err(bad_field("surname")),
        };
        let email = match doc.optional_text_field("email") {
            Some(email) => email,
            None => return Err(bad_field("email")),
        };
        let phone = match doc.optional_text_field("phone") {
            Some(phone) => phone,
            None => return Err(bad_field("phone")),
        };
        Ok(Contact { name, surname, email, phone })
    }
}


} // verus!
