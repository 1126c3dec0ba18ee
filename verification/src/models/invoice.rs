use crate::date::Date;
use crate::document::{
    all_records_valid, all_valid, bad_field, date_field, encode_all, entry, get_date,
    get_optional_u32, get_records, get_u32, lemma_decode_all_encode_all, lemma_field_at, named,
    optional_u32_field, records_field, to_yaml_all, u32_field, views, widen, widened, Node,
    NodeView, YamlAble,
};
use crate::error::Error;
use crate::identity::uuid_v7;
use crate::store::Model;
use vstd::prelude::*;

verus! {

/// One position of an invoice.
#[derive(Debug, Clone, PartialEq, Eq)]
pub struct Item {
    pub description: String,
    /// The price of one unit.
    pub price: u32,
    pub quantity: Option<u32>,
}

/// The mathematical value of a [`Item`].
pub struct ItemView {
    pub description: Seq<char>,
    pub price: u32,
    pub quantity: Option<u32>,
}

impl View for Item {
    type V = ItemView;

    open spec fn view(&self) -> ItemView {
        ItemView {
            description: self.description@,
            price: self.price,
            quantity: self.quantity,
        }
    }
}

impl ItemView {
    /// The item of which nothing is known yet: no description, the price 0,
    /// no quantity.
    pub open spec fn empty() -> ItemView {
        ItemView {
            description: Seq::empty(),
            price: 0,
            quantity: None,
        }
    }
}

impl Default for Item {
    fn default() -> (record: Item)
        ensures
            record@ == ItemView::empty(),
    {
        let record = Item {
            description: String::new(),
            price: 0,
            quantity: None,
        };
        record
    }
}

impl YamlAble for Item {
    open spec fn valid(v: ItemView) -> bool {
        true
    }

    open spec fn encode(v: ItemView) -> NodeView {
        NodeView::Mapping(
            seq![
                named("description"@, NodeView::Text(v.description)),
                named("price"@, NodeView::Number(v.price as u64)),
                named("quantity"@, NodeView::optional_number(widened(v.quantity))),
            ],
        )
    }

    open spec fn decode(doc: NodeView) -> Result<ItemView, Seq<char>> {
        if doc.text_field("description"@) is None {
            Err("description"@)
        } else if u32_field(doc, "price"@) is None {
            Err("price"@)
        } else if optional_u32_field(doc, "quantity"@) is None {
            Err("quantity"@)
        } else {
            Ok(
                ItemView {
                    description: doc.text_field("description"@)->Some_0,
                    price: u32_field(doc, "price"@)->Some_0,
                    quantity: optional_u32_field(doc, "quantity"@)->Some_0,
                },
            )
        }
    }

    proof fn round_trip(v: ItemView) {
        reveal_strlit("description");
        reveal_strlit("price");
        reveal_strlit("quantity");
        assert("description"@.len() == 11 && "price"@.len() == 5 && "quantity"@.len() == 8);
        let entries = Self::encode(v)->Mapping_0;
        lemma_field_at(entries, 0);
        lemma_field_at(entries, 1);
        lemma_field_at(entries, 2);
    }

    fn is_valid(&self) -> (ok: bool) {
        true
    }

    fn to_yaml(&self) -> (doc: Node) {
        let mut entries: Vec<(Node, Node)> = Vec::new();
        entries.push(entry("description", Node::text(&self.description)));
        entries.push(entry("price", Node::Number(self.price as u64)));
        entries.push(entry("quantity", Node::optional_number(widen(self.quantity))));
        let doc = Node::mapping(entries);
        assert(doc@->Mapping_0 =~= Self::encode(self@)->Mapping_0);
        doc
    }

    fn from_yaml(doc: &Node) -> (result: Result<Self, Error>) {
        let description = match doc.text_field("description") {
            Some(description) => description,
            None => return Err(bad_field("description")),
        };
        let price = match get_u32(doc, "price") {
            Some(price) => price,
            None => return Err(bad_field("price")),
        };
        let quantity = match get_optional_u32(doc, "quantity") {
            Some(quantity) => quantity,
            None => return Err(bad_field("quantity")),
        };
        Ok(Item { description, price, quantity })
    }
}

/// An invoice to a customer.
#[derive(Debug, Clone, PartialEq, Eq)]
pub struct Invoice {
    /// The key under which the invoice is stored.
    pub uuid: String,
    /// The identifier shown to people.
    pub id: String,
    pub issuing_date: Date,
    pub delivery_date: Date,
    pub due_days: u32,
    /// The key of the customer that the invoice goes to.
    pub customer: String,
    pub items: Vec<Item>,
}

/// The mathematical value of a [`Invoice`].
pub struct InvoiceView {
    pub uuid: Seq<char>,
    pub id: Seq<char>,
    pub issuing_date: Date,
    pub delivery_date: Date,
    pub due_days: u32,
    pub customer: Seq<char>,
    pub items: Seq<ItemView>,
}

impl View for Invoice {
    type V = InvoiceView;

    open spec fn view(&self) -> InvoiceView {
        InvoiceView {
            uuid: self.uuid@,
            id: self.id@,
            issuing_date: self.issuing_date,
            delivery_date: self.delivery_date,
            due_days: self.due_days,
            customer: self.customer@,
            items: views(self.items@),
        }
    }
}

impl InvoiceView {
    /// The invoice of which nothing is known yet: every text is empty, both
    /// dates are the first of January 1970, it is due at once and has no
    /// items.
    pub open spec fn empty() -> InvoiceView {
        InvoiceView {
            uuid: Seq::empty(),
            id: Seq::empty(),
            issuing_date: Date { year: 1970, month: 1, day: 1 },
            delivery_date: Date { year: 1970, month: 1, day: 1 },
            due_days: 0,
            customer: Seq::empty(),
            items: Seq::empty(),
        }
    }
}

impl Default for Invoice {
    fn default() -> (record: Invoice)
        ensures
            record@ == InvoiceView::empty(),
    {
        let record = Invoice {
            uuid: String::new(),
            id: String::new(),
            issuing_date: Date::default(),
            delivery_date: Date::default(),
            due_days: 0,
            customer: String::new(),
            items: Vec::new(),
        };
        assert(record@.items =~= Seq::empty());
        record
    }
}

impl YamlAble for Invoice {
    open spec fn valid(v: InvoiceView) -> bool {
        &&& v.issuing_date.valid()
        &&& v.delivery_date.valid()
        &&& all_valid::<Item>(v.items)
    }

    open spec fn encode(v: InvoiceView) -> NodeView {
        NodeView::Mapping(
            seq![
                named("uuid"@, NodeView::Text(v.uuid)),
                named("id"@, NodeView::Text(v.id)),
                named("issuing_date"@, NodeView::Text(v.issuing_date.text())),
                named("delivery_date"@, NodeView::Text(v.delivery_date.text())),
                named("due_days"@, NodeView::Number(v.due_days as u64)),
                named("customer"@, NodeView::Text(v.customer)),
                named("items"@, NodeView::List(encode_all::<Item>(v.items))),
            ],
        )
    }

    open spec fn decode(doc: NodeView) -> Result<InvoiceView, Seq<char>> {
        if doc.text_field("uuid"@) is None {
            Err("uuid"@)
        } else if doc.text_field("id"@) is None {
            Err("id"@)
        } else if date_field(doc, "issuing_date"@) is None {
            Err("issuing_date"@)
        } else if date_field(doc, "delivery_date"@) is None {
            Err("delivery_date"@)
        } else if u32_field(doc, "due_days"@) is None {
            Err("due_days"@)
        } else if doc.text_field("customer"@) is None {
            Err("customer"@)
        } else if records_field::<Item>(doc, "items"@) is None {
            Err("items"@)
        } else {
            Ok(
                InvoiceView {
                    uuid: doc.text_field("uuid"@)->Some_0,
                    id: doc.text_field("id"@)->Some_0,
                    issuing_date: date_field(doc, "issuing_date"@)->Some_0,
                    delivery_date: date_field(doc, "delivery_date"@)->Some_0,
                    due_days: u32_field(doc, "due_days"@)->Some_0,
                    customer: doc.text_field("customer"@)->Some_0,
                    items: records_field::<Item>(doc, "items"@)->Some_0,
                },
            )
        }
    }

    proof fn round_trip(v: InvoiceView) {
        reveal_strlit("uuid");
        reveal_strlit("id");
        reveal_strlit("issuing_date");
        reveal_strlit("delivery_date");
        reveal_strlit("due_days");
        reveal_strlit("customer");
        reveal_strlit("items");
        assert("uuid"@.len() == 4 && "id"@.len() == 2 && "issuing_date"@.len() == 12
            && "delivery_date"@.len() == 13 && "due_days"@.len() == 8 && "customer"@.len() == 8
            && "items"@.len() == 5);
        assert("due_days"@[0] == 'd' && "customer"@[0] == 'c');
        let entries = Self::encode(v)->Mapping_0;
        lemma_field_at(entries, 0);
        lemma_field_at(entries, 1);
        lemma_field_at(entries, 2);
        lemma_field_at(entries, 3);
        lemma_field_at(entries, 4);
        lemma_field_at(entries, 5);
        lemma_field_at(entries, 6);
        lemma_decode_all_encode_all::<Item>(v.items);
    }

    fn is_valid(&self) -> (ok: bool) {
        self.issuing_date.is_valid() && self.delivery_date.is_valid() && all_records_valid(
            &self.items,
        )
    }

    fn to_yaml(&self) -> (doc: Node) {
        let mut entries: Vec<(Node, Node)> = Vec::new();
        entries.push(entry("uuid", Node::text(&self.uuid)));
        entries.push(entry("id", Node::text(&self.id)));
        entries.push(entry("issuing_date", Node::Text(self.issuing_date.to_text())));
        entries.push(entry("delivery_date", Node::Text(self.delivery_date.to_text())));
        entries.push(entry("due_days", Node::Number(self.due_days as u64)));
        entries.push(entry("customer", Node::text(&self.customer)));
        entries.push(entry("items", Node::list(to_yaml_all::<Item>(&self.items))));
        let doc = Node::mapping(entries);
        assert(doc@->Mapping_0 =~= Self::encode(self@)->Mapping_0);
        doc
    }

    fn from_yaml(doc: &Node) -> (result: Result<Self, Error>) {
        let uuid = match doc.text_field("uuid") {
            Some(uuid) => uuid,
            None => return Err(bad_field("uuid")),
        };
        let id = match doc.text_field("id") {
            Some(id) => id,
            None => return Err(bad_field("id")),
        };
        let issuing_date = match get_date(doc, "issuing_date") {
            Some(issuing_date) => issuing_date,
            None => return Err(bad_field("issuing_date")),
        };
        let delivery_date = match get_date(doc, "delivery_date") {
            Some(delivery_date) => delivery_date,
            None => return Err(bad_field("delivery_date")),
        };
        let due_days = match get_u32(doc, "due_days") {
            Some(due_days) => due_days,
            None => return Err(bad_field("due_days")),
        };
        let customer = match doc.text_field("customer") {
            Some(customer) => customer,
            None => return Err(bad_field("customer")),
        };
        let items = match get_records::<Item>(doc, "items") {
            Some(items) => items,
            None => return Err(bad_field("items")),
        };
        Ok(Invoice { uuid, id, issuing_date, delivery_date, due_days, customer, items })
    }
}


impl InvoiceView {
    /// The invoice as it is first drafted: issued and delivered on `date`,
    /// due after 30 days, to no customer yet, with one empty item.
    pub open spec fn draft(uuid: Seq<char>, id: Seq<char>, date: Date) -> InvoiceView {
        InvoiceView {
            uuid,
            id,
            issuing_date: date,
            delivery_date: date,
            due_days: 30,
            customer: Seq::empty(),
            items: seq![ItemView::empty()],
        }
    }
}

impl Invoice {
    /// A first draft of an invoice with the given key and identifier.
    pub fn draft(uuid: String, id: String, date: Date) -> (invoice: Invoice)
        ensures
            invoice@ == InvoiceView::draft(uuid@, id@, date),
    {
        let mut items: Vec<Item> = Vec::new();
        items.push(Item::default());
        let invoice = Invoice {
            uuid,
            id,
            issuing_date: date,
            delivery_date: date,
            due_days: 30,
            customer: String::new(),
            items,
        };
        assert(invoice@.items =~= seq![ItemView::empty()]);
        invoice
    }

    /// A first draft of an invoice with the given identifier, under a new
    /// key, dated today. The draft can be stored as it is.
    pub fn new_with_uuid(id: String) -> (invoice: Invoice)
        ensures
            invoice@ == InvoiceView::draft(invoice@.uuid, id@, invoice@.issuing_date),
            invoice@.uuid.len() == 36,
            1 <= invoice@.issuing_date.month <= 12,
            1 <= invoice@.issuing_date.day <= 31,
            Invoice::valid(invoice@),
    {
        Invoice::draft(uuid_v7(), id, Date::today())
    }
}

impl Model for Invoice {
    open spec fn table_name() -> Seq<char> {
        "invoices"@
    }

    fn table() -> (name: String) {
        "invoices".to_owned()
    }

    open spec fn key(v: InvoiceView) -> Seq<char> {
        v.uuid
    }

    fn primary_key(&self) -> (key: String) {
        self.uuid.clone()
    }
}

} // verus!
