//! The structured configuration document, read into plain data.
//!
//! The on-disk configuration is a KDL text. Parsing the text is the kdl
//! crate's work and stays behind trusted items; everything after the parse
//! — walking nodes, entries and children — happens on the plain types of
//! this module, where it is verified. A document is a list of nodes; a
//! node has a name, a list of entries (each an optionally named value) and
//! a list of child nodes, of which this crate reads one level: the
//! configuration format nests no deeper.

use vstd::prelude::*;

use crate::error::Error;

verus! {

/// A configuration value as this crate distinguishes them: a string, a
/// boolean, or anything else the document format can hold but the
/// configuration never reads (numbers, null).
#[derive(Debug, Clone)]
pub enum ValueData {
    Str(String),
    Bool(bool),
    Other,
}

/// The mathematical shadow of `ValueData`.
pub enum ValueModel {
    Str(Seq<char>),
    Bool(bool),
    Other,
}

impl View for ValueData {
    type V = ValueModel;

    open spec fn view(&self) -> ValueModel {
        match self {
            ValueData::Str(s) => ValueModel::Str(s@),
            ValueData::Bool(b) => ValueModel::Bool(*b),
            ValueData::Other => ValueModel::Other,
        }
    }
}

/// One entry of a node: a value, with the property name it was bound to,
/// or `None` for a positional argument.
#[derive(Debug, Clone)]
pub struct EntryData {
    pub name: Option<String>,
    pub value: ValueData,
}

/// The mathematical shadow of `EntryData`.
pub struct EntryModel {
    pub name: Option<Seq<char>>,
    pub value: ValueModel,
}

impl View for EntryData {
    type V = EntryModel;

    open spec fn view(&self) -> EntryModel {
        EntryModel {
            name: match self.name {
                Option::Some(n) => Option::Some(n@),
                Option::None => Option::None,
            },
            value: self.value@,
        }
    }
}

/// A child node, one level below a top-level node: a name and entries.
#[derive(Debug, Clone)]
pub struct ChildData {
    pub name: String,
    pub entries: Vec<EntryData>,
}

/// The mathematical shadow of `ChildData`.
pub struct ChildModel {
    pub name: Seq<char>,
    pub entries: Seq<EntryModel>,
}

impl View for ChildData {
    type V = ChildModel;

    open spec fn view(&self) -> ChildModel {
        ChildModel {
            name: self.name@,
            entries: self.entries@.map_values(|e: EntryData| e@),
        }
    }
}

/// A top-level node of the document: a name, entries, and child nodes.
#[derive(Debug, Clone)]
pub struct NodeData {
    pub name: String,
    pub entries: Vec<EntryData>,
    pub children: Vec<ChildData>,
}

/// The mathematical shadow of `NodeData`.
pub struct NodeModel {
    pub name: Seq<char>,
    pub entries: Seq<EntryModel>,
    pub children: Seq<ChildModel>,
}

impl View for NodeData {
    type V = NodeModel;

    open spec fn view(&self) -> NodeModel {
        NodeModel {
            name: self.name@,
            entries: self.entries@.map_values(|e: EntryData| e@),
            children: self.children@.map_values(|c: ChildData| c@),
        }
    }
}

/// The shadow of a whole document.
pub open spec fn nodes_model(v: Seq<NodeData>) -> Seq<NodeModel> {
    v.map_values(|n: NodeData| n@)
}

/// The value of the rightmost entry bound to the property `key`, if any:
/// the document format lets a later binding of the same property win.
/// Positional (unnamed) entries never match.
pub open spec fn find_prop_model(es: Seq<EntryModel>, key: Seq<char>) -> Option<ValueModel>
    decreases es.len(),
{
    if es.len() == 0 {
        Option::None
    } else if es[es.len() - 1].name == Option::Some(key) {
        Option::Some(es[es.len() - 1].value)
    } else {
        find_prop_model(es.drop_last(), key)
    }
}

/// Whether the kdl crate accepts `s` as a KDL document. The outcome
/// depends on the characters of `s` alone.
pub uninterp spec fn kdl_parses(s: Seq<char>) -> bool;

/// The document the kdl crate reads out of `s`, projected to this
/// module's model: the top-level nodes in order, each with its name, its
/// entries in order, and its direct children. Only meaningful when
/// `kdl_parses(s)` holds.
pub uninterp spec fn kdl_document_model(s: Seq<char>) -> Seq<NodeModel>;

#[verifier::external_type_specification]
#[verifier::external_body]
pub struct ExKdlDocument(kdl::KdlDocument);

#[verifier::external_type_specification]
#[verifier::external_body]
pub struct ExKdlNode(kdl::KdlNode);

#[verifier::external_type_specification]
#[verifier::external_body]
pub struct ExKdlEntry(kdl::KdlEntry);

/// What a parsed document holds, node by node, in this module's model.
pub uninterp spec fn doc_model(d: kdl::KdlDocument) -> Seq<NodeModel>;

/// What a parsed node holds — its name, entries and direct children — in
/// this module's model. The children's own children are not part of the
/// model: this crate never reads them.
pub uninterp spec fn node_model(n: kdl::KdlNode) -> NodeModel;

/// What a parsed entry holds in this module's model.
pub uninterp spec fn entry_model(e: kdl::KdlEntry) -> EntryModel;

/// Relies on `str::parse::<kdl::KdlDocument>`: whether the parse succeeds
/// is a pure function of the text, and so is the resulting document. A
/// failure is reported as the display text of the kdl error.
#[verifier::external_body]
fn kdl_parse(text: &str) -> (r: Result<kdl::KdlDocument, String>)
    ensures
        r is Ok <==> kdl_parses(text@),
        r matches Ok(d) ==> doc_model(d) == kdl_document_model(text@),
{
    text.parse::<kdl::KdlDocument>().map_err(|e| format!("{e}"))
}

/// Relies on `KdlDocument::nodes`, a slice of the document's nodes in
/// order.
#[verifier::external_body]
fn kdl_doc_len(d: &kdl::KdlDocument) -> (r: usize)
    ensures
        r == doc_model(*d).len(),
{
    d.nodes().len()
}

/// Relies on `KdlDocument::nodes`: the node at a valid index.
#[verifier::external_body]
fn kdl_doc_node<'a>(d: &'a kdl::KdlDocument, i: usize) -> (r: &'a kdl::KdlNode)
    requires
        i < doc_model(*d).len(),
    ensures
        node_model(*r) == doc_model(*d)[i as int],
{
    &d.nodes()[i]
}

/// Relies on `KdlNode::name` and `KdlIdentifier::value`: the node's name.
#[verifier::external_body]
fn kdl_node_name(n: &kdl::KdlNode) -> (r: String)
    ensures
        r@ == node_model(*n).name,
{
    n.name().value().to_string()
}

/// Relies on `KdlNode::entries`, a slice of the node's entries in order.
#[verifier::external_body]
fn kdl_node_entry_count(n: &kdl::KdlNode) -> (r: usize)
    ensures
        r == node_model(*n).entries.len(),
{
    n.entries().len()
}

/// Relies on `KdlNode::entries`: the entry at a valid index.
#[verifier::external_body]
fn kdl_node_entry<'a>(n: &'a kdl::KdlNode, i: usize) -> (r: &'a kdl::KdlEntry)
    requires
        i < node_model(*n).entries.len(),
    ensures
        entry_model(*r) == node_model(*n).entries[i as int],
{
    &n.entries()[i]
}

/// Relies on `KdlNode::children` and `KdlDocument::nodes`: how many
/// direct children the node has (none when it has no child block).
#[verifier::external_body]
fn kdl_node_child_count(n: &kdl::KdlNode) -> (r: usize)
    ensures
        r == node_model(*n).children.len(),
{
    match n.children() {
        Some(d) => d.nodes().len(),
        None => 0,
    }
}

/// Relies on `KdlNode::children` and `KdlDocument::nodes`: the direct
/// child at a valid index. Its name and entries are the modelled child;
/// its own children are outside the model.
#[verifier::external_body]
fn kdl_node_child<'a>(n: &'a kdl::KdlNode, i: usize) -> (r: &'a kdl::KdlNode)
    requires
        i < node_model(*n).children.len(),
    ensures
        node_model(*r).name == node_model(*n).children[i as int].name,
        node_model(*r).entries == node_model(*n).children[i as int].entries,
{
    &n.children().unwrap().nodes()[i]
}

/// Relies on `KdlEntry::name` and `KdlIdentifier::value`: the property
/// name the entry was bound to, or `None` for a positional argument.
#[verifier::external_body]
fn kdl_entry_name(e: &kdl::KdlEntry) -> (r: Option<String>)
    ensures
        match r {
            Option::Some(s) => entry_model(*e).name == Option::Some(s@),
            Option::None => entry_model(*e).name is None,
        },
{
    e.name().map(|id| id.value().to_string())
}

/// Relies on `KdlEntry::value` and `KdlValue::as_string`: the entry's
/// value exactly when it is a string.
#[verifier::external_body]
fn kdl_entry_string(e: &kdl::KdlEntry) -> (r: Option<String>)
    ensures
        match r {
            Option::Some(s) => entry_model(*e).value == ValueModel::Str(s@),
            Option::None => !(entry_model(*e).value is Str),
        },
{
    e.value().as_string().map(str::to_string)
}

/// Relies on `KdlEntry::value` and `KdlValue::as_bool`: the entry's value
/// exactly when it is a boolean.
#[verifier::external_body]
fn kdl_entry_bool(e: &kdl::KdlEntry) -> (r: Option<bool>)
    ensures
        match r {
            Option::Some(b) => entry_model(*e).value == ValueModel::Bool(b),
            Option::None => !(entry_model(*e).value is Bool),
        },
{
    e.value().as_bool()
}

/// Reads one entry into plain data.
fn convert_entry(e: &kdl::KdlEntry) -> (r: EntryData)
    ensures
        r@ == entry_model(*e),
{
    let name = kdl_entry_name(e);
    let value = match kdl_entry_string(e) {
        Option::Some(s) => ValueData::Str(s),
        Option::None => match kdl_entry_bool(e) {
            Option::Some(b) => ValueData::Bool(b),
            Option::None => ValueData::Other,
        },
    };
    let r = EntryData { name, value };
    proof {
        let m = entry_model(*e);
        assert(r@.name == m.name);
        match m.value {
            ValueModel::Str(_) => {},
            ValueModel::Bool(_) => {},
            ValueModel::Other => {},
        }
    }
    r
}

/// Reads a node's entries into plain data, in order.
fn convert_entries(n: &kdl::KdlNode) -> (r: Vec<EntryData>)
    ensures
        r@.map_values(|e: EntryData| e@) == node_model(*n).entries,
{
    let count = kdl_node_entry_count(n);
    let mut out: Vec<EntryData> = Vec::new();
    let mut i: usize = 0;
    while i < count
        invariant
            i <= count,
            count == node_model(*n).entries.len(),
            out@.len() == i,
            out@.map_values(|e: EntryData| e@) =~= node_model(*n).entries.take(i as int),
        decreases count - i,
    {
        let entry = convert_entry(kdl_node_entry(n, i));
        out.push(entry);
        assert(out@.map_values(|e: EntryData| e@) =~= node_model(*n).entries.take(i as int + 1));
        i = i + 1;
    }
    assert(node_model(*n).entries.take(count as int) =~= node_model(*n).entries);
    out
}

/// Reads a node's direct children into plain data, in order.
fn convert_children(n: &kdl::KdlNode) -> (r: Vec<ChildData>)
    ensures
        r@.map_values(|c: ChildData| c@) == node_model(*n).children,
{
    let count = kdl_node_child_count(n);
    let mut out: Vec<ChildData> = Vec::new();
    let mut i: usize = 0;
    while i < count
        invariant
            i <= count,
            count == node_model(*n).children.len(),
            out@.len() == i,
            out@.map_values(|c: ChildData| c@) =~= node_model(*n).children.take(i as int),
        decreases count - i,
    {
        let child = kdl_node_child(n, i);
        let name = kdl_node_name(child);
        let entries = convert_entries(child);
        out.push(ChildData { name, entries });
        assert(out@.map_values(|c: ChildData| c@) =~= node_model(*n).children.take(i as int + 1));
        i = i + 1;
    }
    assert(node_model(*n).children.take(count as int) =~= node_model(*n).children);
    out
}

/// Reads one top-level node into plain data.
fn convert_node(n: &kdl::KdlNode) -> (r: NodeData)
    ensures
        r@ == node_model(*n),
{
    let name = kdl_node_name(n);
    let entries = convert_entries(n);
    let children = convert_children(n);
    NodeData { name, entries, children }
}

/// Parses a configuration text into the plain document model. Succeeds
/// exactly on the texts the kdl crate accepts; a parse failure carries
/// the parser's message as a `ConfigParse` error.
pub fn parse_document(text: &str) -> (r: Result<Vec<NodeData>, Error>)
    ensures
        r is Ok <==> kdl_parses(text@),
        r matches Ok(v) ==> nodes_model(v@) == kdl_document_model(text@),
        r matches Err(e) ==> e is ConfigParse,
{
    let doc = match kdl_parse(text) {
        Ok(d) => d,
        Err(message) => {
            return Err(crate::error::config_parse_error(message.as_str()));
        },
    };
    let count = kdl_doc_len(&doc);
    let mut out: Vec<NodeData> = Vec::new();
    let mut i: usize = 0;
    while i < count
        invariant
            i <= count,
            count == doc_model(doc).len(),
            doc_model(doc) == kdl_document_model(text@),
            out@.len() == i,
            nodes_model(out@) =~= doc_model(doc).take(i as int),
        decreases count - i,
    {
        let node = convert_node(kdl_doc_node(&doc, i));
        out.push(node);
        assert(nodes_model(out@) =~= doc_model(doc).take(i as int + 1));
        i = i + 1;
    }
    assert(doc_model(doc).take(count as int) =~= doc_model(doc));
    Ok(out)
}

} // verus!
