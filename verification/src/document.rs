use crate::date::Date;
use crate::error::{Error, ErrorView};
use vstd::prelude::*;

verus! {

/// A document: what a YAML text holds, as a tree. The records are stored and
/// shown as documents.
#[derive(Debug, PartialEq, Eq)]
pub enum Node {
    Null,
    Bool(bool),
    /// A whole number that is not negative.
    Number(u64),
    /// A whole number that is negative.
    Negative(i64),
    /// A number with a fraction, by its bits.
    Float(u64),
    Text(String),
    List(Vec<Node>),
    /// Keys with their values, in the order in which they are written.
    Mapping(Vec<(Node, Node)>),
    /// A value with a tag in front of it.
    Tagged(String, Box<Node>),
}

/// The mathematical value of a [`Node`].
pub enum NodeView {
    Null,
    Bool(bool),
    Number(u64),
    Negative(i64),
    Float(u64),
    Text(Seq<char>),
    List(Seq<NodeView>),
    Mapping(Seq<(NodeView, NodeView)>),
    Tagged(Seq<char>, Box<NodeView>),
}

/// The mathematical value of a document.
pub open spec fn node_view(node: Node) -> NodeView
    decreases node,
{
    match node {
        Node::Null => NodeView::Null,
        Node::Bool(b) => NodeView::Bool(b),
        Node::Number(n) => NodeView::Number(n),
        Node::Negative(n) => NodeView::Negative(n),
        Node::Float(bits) => NodeView::Float(bits),
        Node::Text(s) => NodeView::Text(s@),
        Node::List(items) => NodeView::List(
            Seq::new(
                items.len() as nat,
                |i: int|
                    if 0 <= i < items.len() {
                        node_view(items[i])
                    } else {
                        NodeView::Null
                    },
            ),
        ),
        Node::Mapping(entries) => NodeView::Mapping(
            Seq::new(
                entries.len() as nat,
                |i: int|
                    if 0 <= i < entries.len() {
                        (node_view(entries[i].0), node_view(entries[i].1))
                    } else {
                        (NodeView::Null, NodeView::Null)
                    },
            ),
        ),
        Node::Tagged(tag, inner) => NodeView::Tagged(tag@, Box::new(node_view(*inner))),
    }
}

impl View for Node {
    type V = NodeView;

    open spec fn view(&self) -> NodeView {
        node_view(*self)
    }
}

/// The entry of a mapping that has a text as its key.
pub open spec fn named(name: Seq<char>, value: NodeView) -> (NodeView, NodeView) {
    (NodeView::Text(name), value)
}

impl NodeView {
    /// Whether the document is a mapping with an entry whose key is the text
    /// `name`.
    pub open spec fn has_field(self, name: Seq<char>) -> bool {
        self is Mapping && exists|i: int|
            0 <= i < self->Mapping_0.len() && self->Mapping_0[i].0 == NodeView::Text(name)
    }

    /// The place of the first entry of that name in a mapping.
    pub open spec fn field_index(self, name: Seq<char>) -> int {
        let entries = self->Mapping_0;
        choose|i: int|
            0 <= i < entries.len() && entries[i].0 == NodeView::Text(name) && forall|j: int|
                0 <= j < i ==> entries[j].0 != NodeView::Text(name)
    }

    /// The value of the first entry of that name, if the document is a
    /// mapping and has one.
    #[verifier::opaque]
    pub open spec fn field(self, name: Seq<char>) -> Option<NodeView> {
        if self.has_field(name) {
            Some(self->Mapping_0[self.field_index(name)].1)
        } else {
            None
        }
    }

    /// The text under that name; `None` where the field is missing or no text.
    pub open spec fn text_field(self, name: Seq<char>) -> Option<Seq<char>> {
        match self.field(name) {
            Some(NodeView::Text(text)) => Some(text),
            _ => None,
        }
    }

    /// The text under that name, which may be left out or null; `None` where
    /// the field holds anything else.
    pub open spec fn optional_text_field(self, name: Seq<char>) -> Option<Option<Seq<char>>> {
        match self.field(name) {
            None => Some(None),
            Some(NodeView::Null) => Some(None),
            Some(NodeView::Text(text)) => Some(Some(text)),
            _ => None,
        }
    }

    /// The number under that name; `None` where the field is missing or no
    /// number.
    pub open spec fn number_field(self, name: Seq<char>) -> Option<u64> {
        match self.field(name) {
            Some(NodeView::Number(n)) => Some(n),
            _ => None,
        }
    }

    /// The number under that name, which may be left out or null; `None`
    /// where the field holds anything else.
    pub open spec fn optional_number_field(self, name: Seq<char>) -> Option<Option<u64>> {
        match self.field(name) {
            None => Some(None),
            Some(NodeView::Null) => Some(None),
            Some(NodeView::Number(n)) => Some(Some(n)),
            _ => None,
        }
    }

    /// The items of the list under that name; `None` where the field is
    /// missing or no list.
    pub open spec fn list_field(self, name: Seq<char>) -> Option<Seq<NodeView>> {
        match self.field(name) {
            Some(NodeView::List(items)) => Some(items),
            _ => None,
        }
    }

    /// The document for a text that may be missing.
    pub open spec fn optional_text(text: Option<Seq<char>>) -> NodeView {
        match text {
            Some(text) => NodeView::Text(text),
            None => NodeView::Null,
        }
    }

    /// The document for a number that may be missing.
    pub open spec fn optional_number(n: Option<u64>) -> NodeView {
        match n {
            Some(n) => NodeView::Number(n),
            None => NodeView::Null,
        }
    }
}

/// The number under that name, where it fits 32 bits.
pub open spec fn u32_field(doc: NodeView, name: Seq<char>) -> Option<u32> {
    match doc.number_field(name) {
        Some(n) => if n <= u32::MAX {
            Some(n as u32)
        } else {
            None
        },
        None => None,
    }
}

/// The number under that name, which may be left out or null, where it fits
/// 32 bits.
pub open spec fn optional_u32_field(doc: NodeView, name: Seq<char>) -> Option<Option<u32>> {
    match doc.optional_number_field(name) {
        Some(Some(n)) => if n <= u32::MAX {
            Some(Some(n as u32))
        } else {
            None
        },
        Some(None) => Some(None),
        None => None,
    }
}

/// The number under that name, where it fits a machine word.
pub open spec fn usize_field(doc: NodeView, name: Seq<char>) -> Option<usize> {
    match doc.number_field(name) {
        Some(n) => if n <= usize::MAX {
            Some(n as usize)
        } else {
            None
        },
        None => None,
    }
}

/// The valid date whose text stands under that name.
pub open spec fn date_field(doc: NodeView, name: Seq<char>) -> Option<Date> {
    match doc.text_field(name) {
        Some(text) => Date::parse(text),
        None => None,
    }
}

/// The value that the document under that name stands for.
pub open spec fn record_field<T: YamlAble>(doc: NodeView, name: Seq<char>) -> Option<T::V> {
    match doc.field(name) {
        Some(inner) => match T::decode(inner) {
            Ok(value) => Some(value),
            Err(_) => None,
        },
        None => None,
    }
}

/// The values that the documents of the list under that name stand for.
pub open spec fn records_field<T: YamlAble>(doc: NodeView, name: Seq<char>) -> Option<Seq<T::V>> {
    match doc.list_field(name) {
        Some(items) => match decode_all::<T>(items) {
            Ok(values) => Some(values),
            Err(_) => None,
        },
        None => None,
    }
}

/// The same number, if there is one, in 64 bits.
pub open spec fn widened(n: Option<u32>) -> Option<u64> {
    match n {
        Some(n) => Some(n as u64),
        None => None,
    }
}

/// The value of a text that may be missing.
pub open spec fn optional_view(text: Option<String>) -> Option<Seq<char>> {
    match text {
        Some(text) => Some(text@),
        None => None,
    }
}

/// An entry of a mapping is found under its name if no entry before it has
/// the same name.
pub proof fn lemma_field_at(entries: Seq<(NodeView, NodeView)>, i: int)
    requires
        0 <= i < entries.len(),
        entries[i].0 is Text,
        forall|j: int| 0 <= j < i ==> entries[j].0 != entries[i].0,
    ensures
        NodeView::Mapping(entries).field(entries[i].0->Text_0) == Some(entries[i].1),
{
    reveal(NodeView::field);
    let doc = NodeView::Mapping(entries);
    let name = entries[i].0->Text_0;
    assert(doc->Mapping_0[i].0 == NodeView::Text(name));
    assert(doc.has_field(name));
    let p = doc.field_index(name);
    assert(0 <= p < entries.len() && entries[p].0 == NodeView::Text(name) && forall|j: int|
        0 <= j < p ==> entries[j].0 != NodeView::Text(name));
    if p < i {
        assert(entries[p].0 != NodeView::Text(name));
    } else if i < p {
        assert(entries[i].0 != NodeView::Text(name));
    }
}

/// A mapping has no field of a name that none of its entries has.
pub proof fn lemma_field_missing(entries: Seq<(NodeView, NodeView)>, name: Seq<char>)
    requires
        forall|j: int| 0 <= j < entries.len() ==> entries[j].0 != NodeView::Text(name),
    ensures
        NodeView::Mapping(entries).field(name) is None,
{
    reveal(NodeView::field);
}

/// The value of a list is the list of the values of its items.
pub proof fn lemma_list_view(items: Vec<Node>)
    ensures
        Node::List(items)@ == NodeView::List(nodes_view(items@)),
{
    reveal_with_fuel(node_view, 2);
    assert(Node::List(items)@->List_0 =~= nodes_view(items@));
}

/// The value of a mapping is the list of its entries' keys and values.
pub proof fn lemma_mapping_view(entries: Vec<(Node, Node)>)
    ensures
        Node::Mapping(entries)@ == NodeView::Mapping(entries_view(entries@)),
{
    reveal_with_fuel(node_view, 2);
    assert(Node::Mapping(entries)@->Mapping_0 =~= entries_view(entries@));
}

impl Node {
    /// The value of the first entry of that name, if the document is a
    /// mapping and has one.
    pub fn get(&self, name: &str) -> (found: Option<&Node>)
        ensures
            match self@.field(name@) {
                Some(value) => found matches Some(node) && node@ == value,
                None => found is None,
            },
    {
        match self {
            Node::Mapping(entries) => {
                let wanted = name.to_owned();
                let ghost all = entries_view(entries@);
                let mut i: usize = 0;
                proof {
                    lemma_mapping_view(*entries);
                }
                while i < entries.len()
                    invariant
                        i <= entries.len(),
                        wanted@ == name@,
                        all == entries_view(entries@),
                        self@ == NodeView::Mapping(all),
                        forall|j: int| 0 <= j < i ==> all[j].0 != NodeView::Text(name@),
                    decreases entries.len() - i,
                {
                    assert(all[i as int] == (entries[i as int].0@, entries[i as int].1@));
                    let found = match &entries[i].0 {
                        Node::Text(key) => *key == wanted,
                        _ => false,
                    };
                    if found {
                        proof {
                            lemma_field_at(all, i as int);
                        }
                        return Some(&entries[i].1);
                    }
                    i += 1;
                }
                proof {
                    lemma_field_missing(all, name@);
                }
                None
            },
            _ => {
                proof {
                    reveal(NodeView::field);
                }
                None
            },
        }
    }

    /// The text under that name; `None` where the field is missing or no text.
    pub fn text_field(&self, name: &str) -> (found: Option<String>)
        ensures
            match self@.text_field(name@) {
                Some(text) => found matches Some(s) && s@ == text,
                None => found is None,
            },
    {
        match self.get(name) {
            Some(Node::Text(text)) => Some(text.clone()),
            _ => None,
        }
    }

    /// The text under that name, which may be left out or null; `None` where
    /// the field holds anything else.
    pub fn optional_text_field(&self, name: &str) -> (found: Option<Option<String>>)
        ensures
            match self@.optional_text_field(name@) {
                Some(text) => found matches Some(s) && optional_view(s) == text,
                None => found is None,
            },
    {
        match self.get(name) {
            None => Some(None),
            Some(Node::Null) => Some(None),
            Some(Node::Text(text)) => Some(Some(text.clone())),
            _ => None,
        }
    }

    /// The number under that name; `None` where the field is missing or no
    /// number.
    pub fn number_field(&self, name: &str) -> (found: Option<u64>)
        ensures
            found == self@.number_field(name@),
    {
        match self.get(name) {
            Some(Node::Number(n)) => Some(*n),
            _ => None,
        }
    }

    /// The number under that name, which may be left out or null; `None`
    /// where the field holds anything else.
    pub fn optional_number_field(&self, name: &str) -> (found: Option<Option<u64>>)
        ensures
            found == self@.optional_number_field(name@),
    {
        match self.get(name) {
            None => Some(None),
            Some(Node::Null) => Some(None),
            Some(Node::Number(n)) => Some(Some(*n)),
            _ => None,
        }
    }

    /// The items of the list under that name; `None` where the field is
    /// missing or no list.
    pub fn list_field(&self, name: &str) -> (found: Option<&Vec<Node>>)
        ensures
            match self@.list_field(name@) {
                Some(items) => found matches Some(list) && nodes_view(list@) == items,
                None => found is None,
            },
    {
        match self.get(name) {
            Some(Node::List(items)) => {
                proof {
                    lemma_list_view(*items);
                }
                Some(items)
            },
            _ => None,
        }
    }

    /// The document for a text.
    pub fn text(text: &String) -> (doc: Node)
        ensures
            doc@ == NodeView::Text(text@),
    {
        Node::Text(text.clone())
    }

    /// The document for a text that may be missing.
    pub fn optional_text(text: &Option<String>) -> (doc: Node)
        ensures
            doc@ == NodeView::optional_text(optional_view(*text)),
    {
        match text {
            Some(text) => Node::Text(text.clone()),
            None => Node::Null,
        }
    }

    /// The document for a number that may be missing.
    pub fn optional_number(n: Option<u64>) -> (doc: Node)
        ensures
            doc@ == NodeView::optional_number(n),
    {
        match n {
            Some(n) => Node::Number(n),
            None => Node::Null,
        }
    }

    /// The mapping with the given entries.
    pub fn mapping(entries: Vec<(Node, Node)>) -> (doc: Node)
        ensures
            doc@ == NodeView::Mapping(entries_view(entries@)),
    {
        proof {
            lemma_mapping_view(entries);
        }
        Node::Mapping(entries)
    }

    /// The list with the given items.
    pub fn list(items: Vec<Node>) -> (doc: Node)
        ensures
            doc@ == NodeView::List(nodes_view(items@)),
    {
        proof {
            lemma_list_view(items);
        }
        Node::List(items)
    }
}

/// The values of the documents of a list, in order.
pub open spec fn nodes_view(items: Seq<Node>) -> Seq<NodeView> {
    Seq::new(items.len(), |i: int| items[i]@)
}

/// The values of the entries of a mapping, in order.
pub open spec fn entries_view(entries: Seq<(Node, Node)>) -> Seq<(NodeView, NodeView)> {
    Seq::new(entries.len(), |i: int| (entries[i].0@, entries[i].1@))
}

/// The entry of a mapping that has a text as its key.
pub fn entry(name: &str, value: Node) -> (e: (Node, Node))
    ensures
        e.0@ == NodeView::Text(name@),
        e.1 == value,
{
    (Node::Text(name.to_owned()), value)
}

/// A record type with a document form.
///
/// `encode` says which document stands for a value, `decode` which value a
/// document stands for, or else the name of the first field that is missing or
/// has the wrong shape. `round_trip` is the law that ties the two together.
pub trait YamlAble: Sized + View {
    /// Whether a value is one that can be written out and read back.
    spec fn valid(v: Self::V) -> bool;

    /// The document that stands for `v`.
    spec fn encode(v: Self::V) -> NodeView;

    /// The value that `doc` stands for, or the name of the offending field.
    spec fn decode(doc: NodeView) -> Result<Self::V, Seq<char>>;

    /// Reading back what was written out yields the value that was written.
    proof fn round_trip(v: Self::V)
        requires
            Self::valid(v),
        ensures
            Self::decode(Self::encode(v)) == Ok::<Self::V, Seq<char>>(v),
    ;

    /// Whether the record is one that can be written out and read back.
    fn is_valid(&self) -> (ok: bool)
        ensures
            ok == Self::valid(self@),
    ;

    /// Writes the record out as a document.
    fn to_yaml(&self) -> (doc: Node)
        ensures
            doc@ == Self::encode(self@),
    ;

    /// Reads a record back from a document.
    fn from_yaml(doc: &Node) -> (result: Result<Self, Error>)
        ensures
            match Self::decode(doc@) {
                Ok(v) => result matches Ok(record) && record@ == v,
                Err(field) => result matches Err(e) && e@ == ErrorView::Deserialization(field),
            },
    ;
}

/// The documents that stand for the values, in order.
pub open spec fn encode_all<T: YamlAble>(values: Seq<T::V>) -> Seq<NodeView> {
    Seq::new(values.len(), |i: int| T::encode(values[i]))
}

/// The values that the documents stand for, in order, or the offending field
/// of the first document that stands for none.
pub open spec fn decode_all<T: YamlAble>(docs: Seq<NodeView>) -> Result<Seq<T::V>, Seq<char>>
    decreases docs.len(),
{
    if docs.len() == 0 {
        Ok(Seq::empty())
    } else {
        match decode_all::<T>(docs.drop_last()) {
            Err(field) => Err(field),
            Ok(values) => match T::decode(docs.last()) {
                Err(field) => Err(field),
                Ok(value) => Ok(values.push(value)),
            },
        }
    }
}

/// Whether every value of the list can be written out and read back.
pub open spec fn all_valid<T: YamlAble>(values: Seq<T::V>) -> bool {
    forall|i: int| 0 <= i < values.len() ==> T::valid(#[trigger] values[i])
}

/// The values of the records of a list, in order.
pub open spec fn views<T: View>(records: Seq<T>) -> Seq<T::V> {
    Seq::new(records.len(), |i: int| records[i]@)
}

/// If the documents up to `n` cannot all be decoded, neither can all of them,
/// and the offending field is the same.
pub proof fn lemma_decode_all_failure<T: YamlAble>(docs: Seq<NodeView>, n: int)
    requires
        0 <= n <= docs.len(),
        decode_all::<T>(docs.take(n)) is Err,
    ensures
        decode_all::<T>(docs) == decode_all::<T>(docs.take(n)),
    decreases docs.len() - n,
{
    if n < docs.len() {
        assert(docs.take(n + 1).drop_last() =~= docs.take(n));
        lemma_decode_all_failure::<T>(docs, n + 1);
    } else {
        assert(docs.take(n) =~= docs);
    }
}

/// A list of values is read back from the documents that were written for it.
pub proof fn lemma_decode_all_encode_all<T: YamlAble>(values: Seq<T::V>)
    requires
        all_valid::<T>(values),
    ensures
        decode_all::<T>(encode_all::<T>(values)) == Ok::<Seq<T::V>, Seq<char>>(values),
    decreases values.len(),
{
    let docs = encode_all::<T>(values);
    if values.len() > 0 {
        assert(docs.drop_last() =~= encode_all::<T>(values.drop_last()));
        lemma_decode_all_encode_all::<T>(values.drop_last());
        T::round_trip(values.last());
        assert(values.drop_last().push(values.last()) =~= values);
    } else {
        assert(values =~= Seq::empty());
    }
}

/// Whether every record of a list can be written out and read back.
pub fn all_records_valid<T: YamlAble>(records: &Vec<T>) -> (ok: bool)
    ensures
        ok == all_valid::<T>(views(records@)),
{
    let mut i: usize = 0;
    while i < records.len()
        invariant
            i <= records.len(),
            forall|j: int| 0 <= j < i ==> T::valid(#[trigger] views(records@)[j]),
        decreases records.len() - i,
    {
        if !records[i].is_valid() {
            assert(!T::valid(views(records@)[i as int]));
            return false;
        }
        i += 1;
    }
    true
}

/// Writes every record of a list out as a document.
pub fn to_yaml_all<T: YamlAble>(records: &Vec<T>) -> (docs: Vec<Node>)
    ensures
        nodes_view(docs@) == encode_all::<T>(views(records@)),
{
    let mut docs: Vec<Node> = Vec::new();
    let mut i: usize = 0;
    while i < records.len()
        invariant
            i <= records.len(),
            docs.len() == i,
            forall|j: int| 0 <= j < i ==> docs[j]@ == T::encode(records[j]@),
        decreases records.len() - i,
    {
        docs.push(records[i].to_yaml());
        i += 1;
    }
    assert(nodes_view(docs@) =~= encode_all::<T>(views(records@)));
    docs
}

/// Reads a record back from every document of a list; fails at the first
/// document that stands for none.
pub fn from_yaml_all<T: YamlAble>(docs: &Vec<Node>) -> (result: Result<Vec<T>, Error>)
    ensures
        match decode_all::<T>(nodes_view(docs@)) {
            Ok(values) => result matches Ok(records) && views(records@) == values,
            Err(field) => result matches Err(e) && e@ == ErrorView::Deserialization(field),
        },
{
    let ghost all = nodes_view(docs@);
    let mut records: Vec<T> = Vec::new();
    let mut i: usize = 0;
    assert(all.take(0) =~= Seq::empty());
    assert(views(records@) =~= Seq::empty());
    while i < docs.len()
        invariant
            i <= docs.len(),
            all == nodes_view(docs@),
            decode_all::<T>(all.take(i as int)) == Ok::<Seq<T::V>, Seq<char>>(views(records@)),
        decreases docs.len() - i,
    {
        proof {
            assert(all.take(i + 1).drop_last() =~= all.take(i as int));
            assert(all.take(i + 1).last() == docs[i as int]@);
        }
        let ghost before = views(records@);
        match T::from_yaml(&docs[i]) {
            Err(e) => {
                proof {
                    lemma_decode_all_failure::<T>(all, i + 1);
                }
                return Err(e);
            },
            Ok(record) => {
                records.push(record);
                assert(views(records@) =~= before.push(record@));
            },
        }
        i += 1;
    }
    assert(all.take(i as int) =~= all);
    Ok(records)
}

/// The number under that name, where it fits 32 bits.
pub fn get_u32(doc: &Node, name: &str) -> (found: Option<u32>)
    ensures
        found == u32_field(doc@, name@),
{
    match doc.number_field(name) {
        Some(n) => if n <= u32::MAX as u64 {
            Some(n as u32)
        } else {
            None
        },
        None => None,
    }
}

/// The number under that name, which may be left out or null, where it fits
/// 32 bits.
pub fn get_optional_u32(doc: &Node, name: &str) -> (found: Option<Option<u32>>)
    ensures
        found == optional_u32_field(doc@, name@),
{
    match doc.optional_number_field(name) {
        Some(Some(n)) => if n <= u32::MAX as u64 {
            Some(Some(n as u32))
        } else {
            None
        },
        Some(None) => Some(None),
        None => None,
    }
}

/// The number under that name, where it fits a machine word.
pub fn get_usize(doc: &Node, name: &str) -> (found: Option<usize>)
    ensures
        found == usize_field(doc@, name@),
{
    match doc.number_field(name) {
        Some(n) => if n <= usize::MAX as u64 {
            Some(n as usize)
        } else {
            None
        },
        None => None,
    }
}

/// The valid date whose text stands under that name.
pub fn get_date(doc: &Node, name: &str) -> (found: Option<Date>)
    ensures
        found == date_field(doc@, name@),
{
    match doc.text_field(name) {
        Some(text) => Date::from_text(text.as_str()),
        None => None,
    }
}

/// The record that the document under that name stands for.
pub fn get_record<T: YamlAble>(doc: &Node, name: &str) -> (found: Option<T>)
    ensures
        match record_field::<T>(doc@, name@) {
            Some(value) => found matches Some(record) && record@ == value,
            None => found is None,
        },
{
    match doc.get(name) {
        Some(inner) => match T::from_yaml(inner) {
            Ok(record) => Some(record),
            Err(_) => None,
        },
        None => None,
    }
}

/// The records that the documents of the list under that name stand for.
pub fn get_records<T: YamlAble>(doc: &Node, name: &str) -> (found: Option<Vec<T>>)
    ensures
        match records_field::<T>(doc@, name@) {
            Some(values) => found matches Some(records) && views(records@) == values,
            None => found is None,
        },
{
    match doc.list_field(name) {
        Some(items) => match from_yaml_all::<T>(items) {
            Ok(records) => Some(records),
            Err(_) => None,
        },
        None => None,
    }
}

/// The same number, if there is one, in 64 bits.
pub fn widen(n: Option<u32>) -> (wide: Option<u64>)
    ensures
        wide == widened(n),
{
    match n {
        Some(n) => Some(n as u64),
        None => None,
    }
}

/// The error for a document in which the field `name` is missing or wrong.
pub fn bad_field(name: &str) -> (e: Error)
    ensures
        e@ == ErrorView::Deserialization(name@),
{
    Error::Deserialization(name.to_owned())
}

impl YamlAble for String {
    open spec fn valid(v: Seq<char>) -> bool {
        true
    }

    open spec fn encode(v: Seq<char>) -> NodeView {
        NodeView::Text(v)
    }

    open spec fn decode(doc: NodeView) -> Result<Seq<char>, Seq<char>> {
        match doc {
            NodeView::Text(text) => Ok(text),
            _ => Err(Seq::empty()),
        }
    }

    proof fn round_trip(v: Seq<char>) {
    }

    fn is_valid(&self) -> (ok: bool) {
        true
    }

    fn to_yaml(&self) -> (doc: Node) {
        Node::Text(self.clone())
    }

    fn from_yaml(doc: &Node) -> (result: Result<Self, Error>) {
        match doc {
            Node::Text(text) => Ok(text.clone()),
            _ => Err(Error::Deserialization(String::new())),
        }
    }
}

} // verus!
