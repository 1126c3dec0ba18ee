use crate::document::{
    bad_field, entry, get_usize, lemma_field_at, named, usize_field, Node, NodeView, YamlAble,
};
use crate::error::Error;
use crate::store::Model;
use vstd::prelude::*;

verus! {

/// The templates and running counters from which new identifiers are made. A
/// store holds one, under a fixed key.
#[derive(Debug, Clone, PartialEq, Eq)]
pub struct Config {
    pub customer_template: String,
    pub customer_counter: usize,
    pub invoice_template: String,
    pub invoice_counter: usize,
}

/// The mathematical value of a [`Config`].
pub struct ConfigView {
    pub customer_template: Seq<char>,
    pub customer_counter: usize,
    pub invoice_template: Seq<char>,
    pub invoice_counter: usize,
}

impl View for Config {
    type V = ConfigView;

    open spec fn view(&self) -> ConfigView {
        ConfigView {
            customer_template: self.customer_template@,
            customer_counter: self.customer_counter,
            invoice_template: self.invoice_template@,
            invoice_counter: self.invoice_counter,
        }
    }
}

impl YamlAble for Config {
    open spec fn valid(v: ConfigView) -> bool {
        true
    }

    open spec fn encode(v: ConfigView) -> NodeView {
        NodeView::Mapping(
            seq![
                named("customer_template"@, NodeView::Text(v.customer_template)),
                named("customer_counter"@, NodeView::Number(v.customer_counter as u64)),
                named("invoice_template"@, NodeView::Text(v.invoice_template)),
                named("invoice_counter"@, NodeView::Number(v.invoice_counter as u64)),
            ],
        )
    }

    open spec fn decode(doc: NodeView) -> Result<ConfigView, Seq<char>> {
        if doc.text_field("customer_template"@) is None {
            Err("customer_template"@)
        } else if usize_field(doc, "customer_counter"@) is None {
            Err("customer_counter"@)
        } else if doc.text_field("invoice_template"@) is None {
            Err("invoice_template"@)
        } else if usize_field(doc, "invoice_counter"@) is None {
            Err("invoice_counter"@)
        } else {
            Ok(
                ConfigView {
                    customer_template: doc.text_field("customer_template"@)->Some_0,
                    customer_counter: usize_field(doc, "customer_counter"@)->Some_0,
                    invoice_template: doc.text_field("invoice_template"@)->Some_0,
                    invoice_counter: usize_field(doc, "invoice_counter"@)->Some_0,
                },
            )
        }
    }

    proof fn round_trip(v: ConfigView) {
        reveal_strlit("customer_template");
        reveal_strlit("customer_counter");
        reveal_strlit("invoice_template");
        reveal_strlit("invoice_counter");
        assert("customer_template"@.len() == 17 && "customer_counter"@.len() == 16
            && "invoice_template"@.len() == 16 && "invoice_counter"@.len() == 15);
        assert("customer_counter"@[0] == 'c' && "invoice_template"@[0] == 'i');
        let entries = Self::encode(v)->Mapping_0;
        lemma_field_at(entries, 0);
        lemma_field_at(entries, 1);
        lemma_field_at(entries, 2);
        lemma_field_at(entries, 3);
    }

    fn is_valid(&self) -> (ok: bool) {
        true
    }

    fn to_yaml(&self) -> (doc: Node) {
        let mut entries: Vec<(Node, Node)> = Vec::new();
        entries.push(entry("customer_template", Node::text(&self.customer_template)));
        entries.push(entry("customer_counter", Node::Number(self.customer_counter as u64)));
        entries.push(entry("invoice_template", Node::text(&self.invoice_template)));
        entries.push(entry("invoice_counter", Node::Number(self.invoice_counter as u64)));
        let doc = Node::mapping(entries);
        assert(doc@->Mapping_0 =~= Self::encode(self@)->Mapping_0);
        doc
    }

    fn from_yaml(doc: &Node) -> (result: Result<Self, Error>) {
        let customer_template = match doc.text_field("customer_template") {
            Some(customer_template) => customer_template,
            None => return Err(bad_field("customer_template")),
        };
        let customer_counter = match get_usize(doc, "customer_counter") {
            Some(customer_counter) => customer_counter,
            None => return Err(bad_field("customer_counter")),
        };
        let invoice_template = match doc.text_field("invoice_template") {
            Some(invoice_template) => invoice_template,
            None => return Err(bad_field("invoice_template")),
        };
        let invoice_counter = match get_usize(doc, "invoice_counter") {
            Some(invoice_counter) => invoice_counter,
            None => return Err(bad_field("invoice_counter")),
        };
        Ok(Config { customer_template, customer_counter, invoice_template, invoice_counter })
    }
}


/// The key under which the one configuration record is stored.
pub const PRIMARY_KEY: &'static str = "CONFIG";

impl ConfigView {
    /// The configuration of a new store: customers are numbered `K1`, `K2`
    /// and so on, invoices `R` with the year, a hyphen and the number, and
    /// both counters stand at 1.
    pub open spec fn initial() -> ConfigView {
        ConfigView {
            customer_template: "K{{ counter }}"@,
            customer_counter: 1,
            invoice_template: "R{{ year }}-{{ counter }}"@,
            invoice_counter: 1,
        }
    }
}

impl Default for Config {
    fn default() -> (config: Config)
        ensures
            config@ == ConfigView::initial(),
    {
        Config {
            customer_template: "K{{ counter }}".to_owned(),
            customer_counter: 1,
            invoice_template: "R{{ year }}-{{ counter }}".to_owned(),
            invoice_counter: 1,
        }
    }
}

impl Model for Config {
    open spec fn table_name() -> Seq<char> {
        "config"@
    }

    fn table() -> (name: String) {
        "config".to_owned()
    }

    open spec fn key(v: ConfigView) -> Seq<char> {
        "CONFIG"@
    }

    fn primary_key(&self) -> (key: String) {
        PRIMARY_KEY.to_owned()
    }
}

} // verus!
