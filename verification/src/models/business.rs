use crate::document::{
    bad_field, entry, get_record, lemma_field_at, named, record_field, Node, NodeView, YamlAble,
};
use crate::error::Error;
use crate::models::{Address, AddressView, Contact, ContactView};
use crate::store::Model;
use vstd::prelude::*;

verus! {

/// A rate as it is written: a whole number, or a number with a fraction,
/// which is held by its bits. A rate is kept and handed on as it is; nothing
/// is computed from it.
#[derive(Debug, Clone, Copy, PartialEq, Eq, Structural)]
pub enum Rate {
    /// A whole number, such as `19`.
    Whole(u64),
    /// A number with a fraction, such as `0.19`, by the bits of its 64-bit
    /// floating-point form.
    Fraction(u64),
}

impl Rate {
    /// The document that stands for the rate.
    pub open spec fn node(self) -> NodeView {
        match self {
            Rate::Whole(n) => NodeView::Number(n),
            Rate::Fraction(bits) => NodeView::Float(bits),
        }
    }

    /// The rate under a name in a document; `None` where the field is
    /// missing or holds no number that is whole or has a fraction.
    pub open spec fn field(doc: NodeView, name: Seq<char>) -> Option<Rate> {
        match doc.field(name) {
            Some(NodeView::Number(n)) => Some(Rate::Whole(n)),
            Some(NodeView::Float(bits)) => Some(Rate::Fraction(bits)),
            _ => None,
        }
    }

    /// The document that stands for the rate.
    pub fn to_node(&self) -> (doc: Node)
        ensures
            doc@ == self.node(),
    {
        match self {
            Rate::Whole(n) => Node::Number(*n),
            Rate::Fraction(bits) => Node::Float(*bits),
        }
    }

    /// The rate under a name in a document.
    pub fn get(doc: &Node, name: &str) -> (found: Option<Rate>)
        ensures
            found == Rate::field(doc@, name@),
    {
        match doc.get(name) {
            Some(Node::Number(n)) => Some(Rate::Whole(*n)),
            Some(Node::Float(bits)) => Some(Rate::Fraction(*bits)),
            _ => None,
        }
    }
}

impl Default for Rate {
    /// The rate `0.0`.
    fn default() -> (rate: Rate)
        ensures
            rate == Rate::Fraction(0),
    {
        Rate::Fraction(0)
    }
}

/// Where an invoice is to be paid.
#[derive(Debug, Clone, PartialEq, Eq)]
pub struct Payment {
    pub bank: String,
    pub iban: String,
}

/// The mathematical value of a [`Payment`].
pub struct PaymentView {
    pub bank: Seq<char>,
    pub iban: Seq<char>,
}

impl View for Payment {
    type V = PaymentView;

    open spec fn view(&self) -> PaymentView {
        PaymentView {
            bank: self.bank@,
            iban: self.iban@,
        }
    }
}

impl PaymentView {
    /// The payment details of which nothing is known yet: every text is empty.
    pub open spec fn empty() -> PaymentView {
        PaymentView {
            bank: Seq::empty(),
            iban: Seq::empty(),
        }
    }
}

impl Default for Payment {
    fn default() -> (record: Payment)
        ensures
            record@ == PaymentView::empty(),
    {
        let record = Payment {
            bank: String::new(),
            iban: String::new(),
        };
        record
    }
}

impl YamlAble for Payment {
    open spec fn valid(v: PaymentView) -> bool {
        true
    }

    open spec fn encode(v: PaymentView) -> NodeView {
        NodeView::Mapping(
            seq![
                named("bank"@, NodeView::Text(v.bank)),
                named("iban"@, NodeView::Text(v.iban)),
            ],
        )
    }

    open spec fn decode(doc: NodeView) -> Result<PaymentView, Seq<char>> {
        if doc.text_field("bank"@) is None {
            Err("bank"@)
        } else if doc.text_field("iban"@) is None {
            Err("iban"@)
        } else {
            Ok(
                PaymentView {
                    bank: doc.text_field("bank"@)->Some_0,
                    iban: doc.text_field("iban"@)->Some_0,
                },
            )
        }
    }

    proof fn round_trip(v: PaymentView) {
        reveal_strlit("bank");
        reveal_strlit("iban");
        assert("bank"@.len() == 4 && "iban"@.len() == 4);
        assert("bank"@[0] == 'b' && "iban"@[0] == 'i');
        let entries = Self::encode(v)->Mapping_0;
        lemma_field_at(entries, 0);
        lemma_field_at(entries, 1);
    }

    fn is_valid(&self) -> (ok: bool) {
        true
    }

    fn to_yaml(&self) -> (doc: Node) {
        let mut entries: Vec<(Node, Node)> = Vec::new();
        entries.push(entry("bank", Node::text(&self.bank)));
        entries.push(entry("iban", Node::text(&self.iban)));
        let doc = Node::mapping(entries);
        assert(doc@->Mapping_0 =~= Self::encode(self@)->Mapping_0);
        doc
    }

    fn from_yaml(doc: &Node) -> (result: Result<Self, Error>) {
        let bank = match doc.text_field("bank") {
            Some(bank) => bank,
            None => return Err(bad_field("bank")),
        };
        let iban = match doc.text_field("iban") {
            Some(iban) => iban,
            None => return Err(bad_field("iban")),
        };
        Ok(Payment { bank, iban })
    }
}

/// The issuer of the invoices. A store holds one, under a fixed key.
#[derive(Debug, Clone, PartialEq, Eq)]
pub struct Business {
    pub name: String,
    pub vat_id: String,
    /// The rate of the value-added tax, as a part of the price: `0.19` for
    /// 19 per cent.
    pub vat: Rate,
    pub contact: Contact,
    pub address: Address,
    pub payment: Payment,
}

/// The mathematical value of a [`Business`].
pub struct BusinessView {
    pub name: Seq<char>,
    pub vat_id: Seq<char>,
    pub vat: Rate,
    pub contact: ContactView,
    pub address: AddressView,
    pub payment: PaymentView,
}

impl View for Business {
    type V = BusinessView;

    open spec fn view(&self) -> BusinessView {
        BusinessView {
            name: self.name@,
            vat_id: self.vat_id@,
            vat: self.vat,
            contact: self.contact@,
            address: self.address@,
            payment: self.payment@,
        }
    }
}

impl BusinessView {
    /// The business of which nothing is known yet: every text is empty and the
    /// rate is `0.0`.
    pub open spec fn empty() -> BusinessView {
        BusinessView {
            name: Seq::empty(),
            vat_id: Seq::empty(),
            vat: Rate::Fraction(0),
            contact: ContactView::empty(),
            address: AddressView::empty(),
            payment: PaymentView::empty(),
        }
    }
}

impl Default for Business {
    fn default() -> (record: Business)
        ensures
            record@ == BusinessView::empty(),
    {
        let record = Business {
            name: String::new(),
            vat_id: String::new(),
            vat: Rate::Fraction(0),
            contact: Contact::default(),
            address: Address::default(),
            payment: Payment::default(),
        };
        record
    }
}

impl YamlAble for Business {
    open spec fn valid(v: BusinessView) -> bool {
        &&& Contact::valid(v.contact)
        &&& Address::valid(v.address)
        &&& Payment::valid(v.payment)
    }

    open spec fn encode(v: BusinessView) -> NodeView {
        NodeView::Mapping(
            seq![
                named("name"@, NodeView::Text(v.name)),
                named("vat_id"@, NodeView::Text(v.vat_id)),
                named("vat"@, v.vat.node()),
                named("contact"@, Contact::encode(v.contact)),
                named("address"@, Address::encode(v.address)),
                named("payment"@, Payment::encode(v.payment)),
            ],
        )
    }

    open spec fn decode(doc: NodeView) -> Result<BusinessView, Seq<char>> {
        if doc.text_field("name"@) is None {
            Err("name"@)
        } else if doc.text_field("vat_id"@) is None {
            Err("vat_id"@)
        } else if Rate::field(doc, "vat"@) is None {
            Err("vat"@)
        } else if record_field::<Contact>(doc, "contact"@) is None {
            Err("contact"@)
        } else if record_field::<Address>(doc, "address"@) is None {
            Err("address"@)
        } else if record_field::<Payment>(doc, "payment"@) is None {
            Err("payment"@)
        } else {
            Ok(
                BusinessView {
                    name: doc.text_field("name"@)->Some_0,
                    vat_id: doc.text_field("vat_id"@)->Some_0,
                    vat: Rate::field(doc, "vat"@)->Some_0,
                    contact: record_field::<Contact>(doc, "contact"@)->Some_0,
                    address: record_field::<Address>(doc, "address"@)->Some_0,
                    payment: record_field::<Payment>(doc, "payment"@)->Some_0,
                },
            )
        }
    }

    proof fn round_trip(v: BusinessView) {
        reveal_strlit("name");
        reveal_strlit("vat_id");
        reveal_strlit("vat");
        reveal_strlit("contact");
        reveal_strlit("address");
        reveal_strlit("payment");
        assert("name"@.len() == 4 && "vat_id"@.len() == 6 && "vat"@.len() == 3
            && "contact"@.len() == 7 && "address"@.len() == 7 && "payment"@.len() == 7);
        assert("contact"@[0] == 'c' && "address"@[0] == 'a' && "payment"@[0] == 'p');
        let entries = Self::encode(v)->Mapping_0;
        lemma_field_at(entries, 0);
        lemma_field_at(entries, 1);
        lemma_field_at(entries, 2);
        lemma_field_at(entries, 3);
        lemma_field_at(entries, 4);
        lemma_field_at(entries, 5);
        Contact::round_trip(v.contact);
        Address::round_trip(v.address);
        Payment::round_trip(v.payment);
    }

    fn is_valid(&self) -> (ok: bool) {
        self.contact.is_valid() && self.address.is_valid() && self.payment.is_valid()
    }

    fn to_yaml(&self) -> (doc: Node) {
        let mut entries: Vec<(Node, Node)> = Vec::new();
        entries.push(entry("name", Node::text(&self.name)));
        entries.push(entry("vat_id", Node::text(&self.vat_id)));
        entries.push(entry("vat", self.vat.to_node()));
        entries.push(entry("contact", self.contact.to_yaml()));
        entries.push(entry("address", self.address.to_yaml()));
        entries.push(entry("payment", self.payment.to_yaml()));
        let doc = Node::mapping(entries);
        assert(doc@->Mapping_0 =~= Self::encode(self@)->Mapping_0);
        doc
    }

    fn from_yaml(doc: &Node) -> (result: Result<Self, Error>) {
        let name = match doc.text_field("name") {
            Some(name) => name,
            None => return Err(bad_field("name")),
        };
        let vat_id = match doc.text_field("vat_id") {
            Some(vat_id) => vat_id,
            None => return Err(bad_field("vat_id")),
        };
        let vat = match Rate::get(doc, "vat") {
            Some(vat) => vat,
            None => return Err(bad_field("vat")),
        };
        let contact = match get_record::<Contact>(doc, "contact") {
            Some(contact) => contact,
            None => return Err(bad_field("contact")),
        };
        let address = match get_record::<Address>(doc, "address") {
            Some(address) => address,
            None => return Err(bad_field("address")),
        };
        let payment = match get_record::<Payment>(doc, "payment") {
            Some(payment) => payment,
            None => return Err(bad_field("payment")),
        };
        Ok(Business { name, vat_id, vat, contact, address, payment })
    }
}


/// The key under which the one business record is stored.
pub const PRIMARY_KEY: &'static str = "BUSINESS";

impl Model for Business {
    open spec fn table_name() -> Seq<char> {
        "business"@
    }

    fn table() -> (name: String) {
        "business".to_owned()
    }

    open spec fn key(v: BusinessView) -> Seq<char> {
        "BUSINESS"@
    }

    fn primary_key(&self) -> (key: String) {
        PRIMARY_KEY.to_owned()
    }
}

} // verus!
