//! The parsed document as a tree over plain values, and the trusted boundary
//! to serde_yaml, which turns YAML text into that tree. YAML syntax is the
//! outside crate's work: what text parses, and to what tree, is named, not
//! restated; everything read out of the tree afterwards is verified code.

use vstd::prelude::*;

verus! {

/// One node of a parsed document: a scalar, a sequence, or a mapping of
/// key/value pairs in document order. Numbers are held as the IEEE-754 bit
/// pattern of their double value, the only form the schema keeps. YAML tags
/// are dropped, as serde_yaml's own accessors drop them.
pub enum YamlNode {
    Null,
    Bool(bool),
    Number(u64),
    Text(String),
    Sequence(Vec<YamlNode>),
    Mapping(Vec<(YamlNode, YamlNode)>),
}

/// Mathematical model of a [`YamlNode`].
#[verifier::ext_equal]
pub enum YamlNodeModel {
    Null,
    Bool(bool),
    Number(u64),
    Text(Seq<char>),
    Sequence(Seq<YamlNodeModel>),
    Mapping(Seq<(YamlNodeModel, YamlNodeModel)>),
}

impl YamlNode {
    pub open spec fn model(self) -> YamlNodeModel
        decreases self,
    {
        match self {
            YamlNode::Null => YamlNodeModel::Null,
            YamlNode::Bool(b) => YamlNodeModel::Bool(b),
            YamlNode::Number(bits) => YamlNodeModel::Number(bits),
            YamlNode::Text(s) => YamlNodeModel::Text(s@),
            YamlNode::Sequence(items) => YamlNodeModel::Sequence(node_models_from(items, 0)),
            YamlNode::Mapping(pairs) => YamlNodeModel::Mapping(pair_models_from(pairs, 0)),
        }
    }
}

pub open spec fn node_models_from(items: Vec<YamlNode>, i: int) -> Seq<YamlNodeModel>
    decreases items, items@.len() - i,
{
    if i < 0 || i >= items@.len() {
        Seq::<YamlNodeModel>::empty()
    } else {
        seq![items@[i].model()] + node_models_from(items, i + 1)
    }
}

pub open spec fn pair_models_from(pairs: Vec<(YamlNode, YamlNode)>, i: int) -> Seq<
    (YamlNodeModel, YamlNodeModel),
>
    decreases pairs, pairs@.len() - i,
{
    if i < 0 || i >= pairs@.len() {
        Seq::<(YamlNodeModel, YamlNodeModel)>::empty()
    } else {
        seq![(pairs@[i].0.model(), pairs@[i].1.model())] + pair_models_from(pairs, i + 1)
    }
}

/// The model of a sequence node's elements, in order.
pub open spec fn node_models(items: Vec<YamlNode>) -> Seq<YamlNodeModel> {
    node_models_from(items, 0)
}

/// The model of a mapping node's pairs, in document order.
pub open spec fn pair_models(pairs: Vec<(YamlNode, YamlNode)>) -> Seq<
    (YamlNodeModel, YamlNodeModel),
> {
    pair_models_from(pairs, 0)
}

impl View for YamlNode {
    type V = YamlNodeModel;

    open spec fn view(&self) -> YamlNodeModel {
        (*self).model()
    }
}

proof fn lemma_node_models_from(items: Vec<YamlNode>, i: int)
    requires
        0 <= i <= items@.len(),
    ensures
        node_models_from(items, i).len() == items@.len() - i,
        forall|j: int|
            0 <= j < items@.len() - i ==> node_models_from(items, i)[j] == items@[i + j]@,
    decreases items@.len() - i,
{
    if i < items@.len() {
        lemma_node_models_from(items, i + 1);
    }
}

/// Pointwise reading of [`node_models`]: element `j` of the model is the
/// model of element `j`.
pub proof fn lemma_node_models(items: Vec<YamlNode>)
    ensures
        node_models(items).len() == items@.len(),
        forall|j: int| 0 <= j < items@.len() ==> node_models(items)[j] == items@[j]@,
{
    lemma_node_models_from(items, 0);
}

proof fn lemma_pair_models_from(pairs: Vec<(YamlNode, YamlNode)>, i: int)
    requires
        0 <= i <= pairs@.len(),
    ensures
        pair_models_from(pairs, i).len() == pairs@.len() - i,
        forall|j: int|
            0 <= j < pairs@.len() - i ==> pair_models_from(pairs, i)[j] == (
                pairs@[i + j].0@,
                pairs@[i + j].1@,
            ),
    decreases pairs@.len() - i,
{
    if i < pairs@.len() {
        lemma_pair_models_from(pairs, i + 1);
    }
}

/// Pointwise reading of [`pair_models`]: pair `j` of the model is the pair
/// of models at `j`.
pub proof fn lemma_pair_models(pairs: Vec<(YamlNode, YamlNode)>)
    ensures
        pair_models(pairs).len() == pairs@.len(),
        forall|j: int|
            0 <= j < pairs@.len() ==> pair_models(pairs)[j] == (pairs@[j].0@, pairs@[j].1@),
{
    lemma_pair_models_from(pairs, 0);
}

/// The tree that YAML parsing gives for this text. Parsing is a function of
/// the text alone, so the result has a name; what the name denotes on given
/// text only the parser knows.
pub uninterp spec fn yaml_tree_of(text: Seq<char>) -> YamlNodeModel;

/// Whether YAML parsing accepts this text at all.
pub uninterp spec fn yaml_wellformed(text: Seq<char>) -> bool;

#[verifier::external_type_specification]
#[verifier::external_body]
pub struct ExYamlValue(serde_yaml::Value);

#[verifier::external_type_specification]
#[verifier::external_body]
pub struct ExYamlError(serde_yaml::Error);

/// Relies on the variants of serde_yaml::Value: converts the parsed tree
/// into the library's node type, one arm per variant, dropping tags as that
/// crate's accessors do; numbers become the bits of their double value.
#[verifier::external_body]
fn node_of_value(v: serde_yaml::Value) -> YamlNode {
    match v {
        serde_yaml::Value::Null => YamlNode::Null,
        serde_yaml::Value::Bool(b) => YamlNode::Bool(b),
        serde_yaml::Value::Number(n) => YamlNode::Number(
            n.as_f64().map(|x| x.to_bits()).unwrap_or(0),
        ),
        serde_yaml::Value::String(s) => YamlNode::Text(s),
        serde_yaml::Value::Sequence(s) => YamlNode::Sequence(
            s.into_iter().map(node_of_value).collect(),
        ),
        serde_yaml::Value::Mapping(m) => YamlNode::Mapping(
            m.into_iter().map(|(k, val)| (node_of_value(k), node_of_value(val))).collect(),
        ),
        serde_yaml::Value::Tagged(t) => node_of_value(t.value),
    }
}

/// Relies on serde_yaml::from_str::<Value>: parses YAML text, failing — not
/// panicking — on anything the format refuses, and on nothing else; the
/// resulting tree is a function of the text alone.
#[verifier::external_body]
pub(crate) fn parse_document(text: &str) -> (r: Result<YamlNode, serde_yaml::Error>)
    ensures
        (r matches Ok(t) ==> t@ == yaml_tree_of(text@)),
        r is Err <==> !yaml_wellformed(text@),
{
    serde_yaml::from_str::<serde_yaml::Value>(text).map(node_of_value)
}

/// Relies on the Display impl of serde_yaml::Error: renders the message the
/// parser gave for a rejected document.
#[verifier::external_body]
pub(crate) fn error_message(e: &serde_yaml::Error) -> (r: String) {
    format!("{}", e)
}

} // verus!
