use crate::document::{
    bad_field, encode_all, entry, get_record, get_records, lemma_decode_all_encode_all,
    lemma_field_at, named, record_field, records_field, to_yaml_all, views, Node, NodeView,
    YamlAble,
};
use crate::error::Error;
use crate::identity::uuid_v7;
use crate::models::{Address, AddressView, Contact, ContactView};
use crate::store::Model;
use crate::text::{zero_padded, zero_padded_text};
use vstd::prelude::*;
use vstd::string::StringExecFns;

verus! {

/// A customer.
#[derive(Debug, Clone, PartialEq, Eq)]
pub struct Customer {
    /// The key under which the customer is stored.
    pub uuid: String,
    /// The identifier shown to people.
    pub id: String,
    pub organization: String,
    pub vat_id: String,
    pub contact: Contact,
    pub address: Address,
    /// The keys of the invoices of this customer, oldest first.
    pub invoices: Vec<String>,
}

/// The mathematical value of a [`Customer`].
pub struct CustomerView {
    pub uuid: Seq<char>,
    pub id: Seq<char>,
    pub organization: Seq<char>,
    pub vat_id: Seq<char>,
    pub contact: ContactView,
    pub address: AddressView,
    pub invoices: Seq<Seq<char>>,
}

impl View for Customer {
    type V = CustomerView;

    open spec fn view(&self) -> CustomerView {
        CustomerView {
            uuid: self.uuid@,
            id: self.id@,
            organization: self.organization@,
            vat_id: self.vat_id@,
            contact: self.contact@,
            address: self.address@,
            invoices: views(self.invoices@),
        }
    }
}

impl CustomerView {
    /// The customer of which nothing is known yet: every text is empty and it
    /// has no invoices.
    pub open spec fn empty() -> CustomerView {
        CustomerView {
            uuid: Seq::empty(),
            id: Seq::empty(),
            organization: Seq::empty(),
            vat_id: Seq::empty(),
            contact: ContactView::empty(),
            address: AddressView::empty(),
            invoices: Seq::empty(),
        }
    }
}

impl Default for Customer {
    fn default() -> (record: Customer)
        ensures
            record@ == CustomerView::empty(),
    {
        let record = Customer {
            uuid: String::new(),
            id: String::new(),
            organization: String::new(),
            vat_id: String::new(),
            contact: Contact::default(),
            address: Address::default(),
            invoices: Vec::new(),
        };
        assert(record@.invoices =~= Seq::empty());
        record
    }
}

impl YamlAble for Customer {
    open spec fn valid(v: CustomerView) -> bool {
        &&& Contact::valid(v.contact)
        &&& Address::valid(v.address)
    }

    open spec fn encode(v: CustomerView) -> NodeView {
        NodeView::Mapping(
            seq![
                named("uuid"@, NodeView::Text(v.uuid)),
                named("id"@, NodeView::Text(v.id)),
                named("organization"@, NodeView::Text(v.organization)),
                named("vat_id"@, NodeView::Text(v.vat_id)),
                named("contact"@, Contact::encode(v.contact)),
                named("address"@, Address::encode(v.address)),
                named("invoices"@, NodeView::List(encode_all::<String>(v.invoices))),
            ],
        )
    }

    open spec fn decode(doc: NodeView) -> Result<CustomerView, Seq<char>> {
        if doc.text_field("uuid"@) is None {
            Err("uuid"@)
        } else if doc.text_field("id"@) is None {
            Err("id"@)
        } else if doc.text_field("organization"@) is None {
            Err("organization"@)
        } else if doc.text_field("vat_id"@) is None {
            Err("vat_id"@)
        } else if record_field::<Contact>(doc, "contact"@) is None {
            Err("contact"@)
        } else if record_field::<Address>(doc, "address"@) is None {
            Err("address"@)
        } else if records_field::<String>(doc, "invoices"@) is None {
            Err("invoices"@)
        } else {
            Ok(
                CustomerView {
                    uuid: doc.text_field("uuid"@)->Some_0,
                    id: doc.text_field("id"@)->Some_0,
                    organization: doc.text_field("organization"@)->Some_0,
                    vat_id: doc.text_field("vat_id"@)->Some_0,
                    contact: record_field::<Contact>(doc, "contact"@)->Some_0,
                    address: record_field::<Address>(doc, "address"@)->Some_0,
                    invoices: records_field::<String>(doc, "invoices"@)->Some_0,
                },
            )
        }
    }

    proof fn round_trip(v: CustomerView) {
        reveal_strlit("uuid");
        reveal_strlit("id");
        reveal_strlit("organization");
        reveal_strlit("vat_id");
        reveal_strlit("contact");
        reveal_strlit("address");
        reveal_strlit("invoices");
        assert("uuid"@.len() == 4 && "id"@.len() == 2 && "organization"@.len() == 12
            && "vat_id"@.len() == 6 && "contact"@.len() == 7 && "address"@.len() == 7
            && "invoices"@.len() == 8);
        assert("contact"@[0] == 'c' && "address"@[0] == 'a');
        let entries = Self::encode(v)->Mapping_0;
        lemma_field_at(entries, 0);
        lemma_field_at(entries, 1);
        lemma_field_at(entries, 2);
        lemma_field_at(entries, 3);
        lemma_field_at(entries, 4);
        lemma_field_at(entries, 5);
        lemma_field_at(entries, 6);
        Contact::round_trip(v.contact);
        Address::round_trip(v.address);
        lemma_decode_all_encode_all::<String>(v.invoices);
    }

    fn is_valid(&self) -> (ok: bool) {
        self.contact.is_valid() && self.address.is_valid()
    }

    fn to_yaml(&self) -> (doc: Node) {
        let mut entries: Vec<(Node, Node)> = Vec::new();
        entries.push(entry("uuid", Node::text(&self.uuid)));
        entries.push(entry("id", Node::text(&self.id)));
        entries.push(entry("organization", Node::text(&self.organization)));
        entries.push(entry("vat_id", Node::text(&self.vat_id)));
        entries.push(entry("contact", self.contact.to_yaml()));
        entries.push(entry("address", self.address.to_yaml()));
        entries.push(entry("invoices", Node::list(to_yaml_all::<String>(&self.invoices))));
        let doc = Node::mapping(entries);
        assert(doc@->Mapping_0 =~= Self::encode(self@)->Mapping_0);
        doc
    }

    fn from_yaml(doc: &Node) -> (result: Result<Self, Error>) {
        let uuid = match doc.text_field("uuid") {
            Some(uuid) => uuid,
            None => return Err(bad_field("uuid")),
        };
        let id = match doc.text_field("id") {
            Some(id) => id,
            None => return Err(bad_field("id")),
        };
        let organization = match doc.text_field("organization") {
            Some(organization) => organization,
            None => return Err(bad_field("organization")),
        };
        let vat_id = match doc.text_field("vat_id") {
            Some(vat_id) => vat_id,
            None => return Err(bad_field("vat_id")),
        };
        let contact = match get_record::<Contact>(doc, "contact") {
            Some(contact) => contact,
            None => return Err(bad_field("contact")),
        };
        let address = match get_record::<Address>(doc, "address") {
            Some(address) => address,
            None => return Err(bad_field("address")),
        };
        let invoices = match get_records::<String>(doc, "invoices") {
            Some(invoices) => invoices,
            None => return Err(bad_field("invoices")),
        };
        Ok(Customer { uuid, id, organization, vat_id, contact, address, invoices })
    }
}


/// The identifier of the `number`-th record of a kind: the prefix, then the
/// number with five digits at least.
pub open spec fn sequential_id(prefix: Seq<char>, number: nat) -> Seq<char> {
    prefix + zero_padded(number, 5)
}

/// The keys of a list but `key`, in their order.
pub open spec fn without(keys: Seq<Seq<char>>, key: Seq<char>) -> Seq<Seq<char>> {
    keys.filter(|k: Seq<char>| k != key)
}

impl CustomerView {
    /// The customer as it is first drafted: nothing known of it but its key
    /// and its identifier.
    pub open spec fn draft(uuid: Seq<char>, id: Seq<char>) -> CustomerView {
        CustomerView { uuid, id, ..CustomerView::empty() }
    }

    /// The customer with one more invoice at the end of its list.
    pub open spec fn add_invoice(self, invoice: Seq<char>) -> CustomerView {
        CustomerView { invoices: self.invoices.push(invoice), ..self }
    }

    /// The customer without the invoice in its list.
    pub open spec fn remove_invoice(self, invoice: Seq<char>) -> CustomerView {
        CustomerView { invoices: without(self.invoices, invoice), ..self }
    }
}

impl Customer {
    /// A first draft of a customer with the given key and identifier.
    pub fn draft(uuid: String, id: String) -> (customer: Customer)
        ensures
            customer@ == CustomerView::draft(uuid@, id@),
    {
        let customer = Customer {
            uuid,
            id,
            organization: String::new(),
            vat_id: String::new(),
            contact: Contact::default(),
            address: Address::default(),
            invoices: Vec::new(),
        };
        assert(customer@.invoices =~= Seq::empty());
        customer
    }

    /// The identifier of the `number`-th customer: the prefix, then the
    /// number with five digits at least.
    pub fn sequential_id(prefix: &str, number: usize) -> (id: String)
        ensures
            id@ == sequential_id(prefix@, number as nat),
    {
        let mut id = prefix.to_owned();
        id.append(zero_padded_text(number as u64, 5).as_str());
        id
    }

    /// A first draft of the `id`-th customer, under a new key.
    pub fn new_with_uuid(prefix: &str, id: usize) -> (customer: Customer)
        ensures
            customer@ == CustomerView::draft(customer@.uuid, sequential_id(prefix@, id as nat)),
            customer@.uuid.len() == 36,
    {
        Customer::draft(uuid_v7(), Customer::sequential_id(prefix, id))
    }

    /// Puts an invoice at the end of the customer's list.
    pub fn add_invoice(&mut self, invoice_id: &str)
        ensures
            final(self)@ == old(self)@.add_invoice(invoice_id@),
    {
        self.invoices.push(invoice_id.to_owned());
        assert(self@.invoices =~= old(self)@.invoices.push(invoice_id@));
    }

    /// Takes an invoice out of the customer's list, wherever it stands in it.
    pub fn remove_invoice(&mut self, invoice_id: &str)
        ensures
            final(self)@ == old(self)@.remove_invoice(invoice_id@),
    {
        let gone = invoice_id.to_owned();
        let ghost all = views(self.invoices@);
        let ghost keep = |k: Seq<char>| k != invoice_id@;
        let mut kept: Vec<String> = Vec::new();
        let mut i: usize = 0;
        proof {
            reveal(Seq::filter);
            assert(all.take(0) =~= Seq::empty());
            assert(views(kept@) =~= Seq::empty());
        }
        while i < self.invoices.len()
            invariant
                i <= self.invoices.len(),
                gone@ == invoice_id@,
                all == views(self.invoices@),
                keep == |k: Seq<char>| k != invoice_id@,
                views(kept@) == all.take(i as int).filter(keep),
            decreases self.invoices.len() - i,
        {
            let ghost before = views(kept@);
            proof {
                reveal(Seq::filter);
                assert(all.take(i + 1).drop_last() =~= all.take(i as int));
                assert(all.take(i + 1).last() == self.invoices[i as int]@);
            }
            if self.invoices[i] != gone {
                kept.push(self.invoices[i].clone());
                assert(views(kept@) =~= before.push(self.invoices[i as int]@));
            }
            i += 1;
        }
        assert(all.take(i as int) =~= all);
        self.invoices = kept;
    }
}

impl Model for Customer {
    open spec fn table_name() -> Seq<char> {
        "customers"@
    }

    fn table() -> (name: String) {
        "customers".to_owned()
    }

    open spec fn key(v: CustomerView) -> Seq<char> {
        v.uuid
    }

    fn primary_key(&self) -> (key: String) {
        self.uuid.clone()
    }
}

} // verus!
