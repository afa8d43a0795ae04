//! From the parsed tree to the configuration: key lookup, field extraction,
//! schema mapping and defaulting, each step pinned to a spec function, so
//! the whole of [`load_tree`] is exact over the tree.
//!
//! Field matching is lenient: keys the schema does not know are ignored;
//! missing required keys and wrongly typed values fail with the messages
//! written here.

use vstd::prelude::*;

use crate::model::{
    str_eq, Config, ConfigModel, RawConfig, RawConfigModel, RawSampleConfig, RawSampleConfigModel,
    UnknownTag, spec_config_from_raw, spec_set_defaults,
};
use crate::yaml::{
    YamlNode, YamlNodeModel, lemma_node_models, lemma_pair_models, node_models, pair_models,
};

verus! {

/// The value under the first pair whose key is the given text; a mapping
/// parsed from YAML has no duplicate keys, so "first" is "the".
pub open spec fn spec_lookup(
    pairs: Seq<(YamlNodeModel, YamlNodeModel)>,
    key: Seq<char>,
) -> Option<YamlNodeModel>
    decreases pairs.len(),
{
    if pairs.len() == 0 {
        None
    } else if pairs[0].0 matches YamlNodeModel::Text(k) && k == key {
        Some(pairs[0].1)
    } else {
        spec_lookup(pairs.drop_first(), key)
    }
}

fn lookup<'a>(pairs: &'a Vec<(YamlNode, YamlNode)>, key: &str) -> (r: Option<&'a YamlNode>)
    ensures
        (match r {
            Some(n) => spec_lookup(pair_models(*pairs), key@) == Some(n@),
            None => spec_lookup(pair_models(*pairs), key@) is None,
        }),
{
    proof {
        lemma_pair_models(*pairs);
    }
    let ghost pm = pair_models(*pairs);
    let mut i: usize = 0;
    proof {
        assert(pm.skip(0) =~= pm);
    }
    while i < pairs.len()
        invariant
            i <= pairs@.len(),
            pm == pair_models(*pairs),
            pm.len() == pairs@.len(),
            forall|j: int| 0 <= j < pm.len() ==> pm[j] == (pairs@[j].0@, pairs@[j].1@),
            spec_lookup(pm, key@) == spec_lookup(pm.skip(i as int), key@),
        decreases pairs@.len() - i,
    {
        proof {
            assert(pm.skip(i as int)[0] == pm[i as int]);
            assert(pm.skip(i as int).drop_first() =~= pm.skip(i as int + 1));
        }
        match &pairs[i].0 {
            YamlNode::Text(k) => {
                if str_eq(k.as_str(), key) {
                    return Some(&pairs[i].1);
                }
            },
            _ => {},
        }
        i += 1;
    }
    proof {
        assert(pm.skip(pairs@.len() as int) =~= Seq::<(YamlNodeModel, YamlNodeModel)>::empty());
    }
    None
}

/// The text under a key that must hold a string.
pub open spec fn spec_string_field(
    pairs: Seq<(YamlNodeModel, YamlNodeModel)>,
    key: Seq<char>,
) -> Option<Seq<char>> {
    match spec_lookup(pairs, key) {
        Some(YamlNodeModel::Text(s)) => Some(s),
        _ => None,
    }
}

fn string_field(pairs: &Vec<(YamlNode, YamlNode)>, key: &str) -> (r: Option<String>)
    ensures
        (match r {
            Some(s) => spec_string_field(pair_models(*pairs), key@) == Some(s@),
            None => spec_string_field(pair_models(*pairs), key@) is None,
        }),
{
    match lookup(pairs, key) {
        Some(node) => match node {
            YamlNode::Text(s) => Some(s.clone()),
            _ => None,
        },
        None => None,
    }
}

/// The optional multiplier: `None` means a wrongly typed value, `Some(None)`
/// an absent key, `Some(Some(bits))` a number.
pub open spec fn spec_multiplier_field(pairs: Seq<(YamlNodeModel, YamlNodeModel)>) -> Option<
    Option<u64>,
> {
    match spec_lookup(pairs, "value_multiplier"@) {
        None => Some(None),
        Some(YamlNodeModel::Number(bits)) => Some(Some(bits)),
        Some(_) => None,
    }
}

fn multiplier_field(pairs: &Vec<(YamlNode, YamlNode)>) -> (r: Option<Option<u64>>)
    ensures
        r == spec_multiplier_field(pair_models(*pairs)),
{
    match lookup(pairs, "value_multiplier") {
        None => Some(None),
        Some(node) => match node {
            YamlNode::Number(bits) => Some(Some(*bits)),
            _ => None,
        },
    }
}

/// The optional navigation text, with the same three-way reading as the
/// multiplier.
pub open spec fn spec_navigation_field(pairs: Seq<(YamlNodeModel, YamlNodeModel)>) -> Option<
    Option<Seq<char>>,
> {
    match spec_lookup(pairs, "navigation"@) {
        None => Some(None),
        Some(YamlNodeModel::Text(s)) => Some(Some(s)),
        Some(_) => None,
    }
}

fn navigation_field(pairs: &Vec<(YamlNode, YamlNode)>) -> (r: Option<Option<String>>)
    ensures
        (match r {
            None => spec_navigation_field(pair_models(*pairs)) is None,
            Some(None) => spec_navigation_field(pair_models(*pairs)) == Some(
                Option::<Seq<char>>::None,
            ),
            Some(Some(s)) => spec_navigation_field(pair_models(*pairs)) == Some(Some(s@)),
        }),
{
    match lookup(pairs, "navigation") {
        None => Some(None),
        Some(node) => match node {
            YamlNode::Text(s) => Some(Some(s.clone())),
            _ => None,
        },
    }
}

/// What extracting one sample entry from its node returns: the entry must
/// be a mapping; each required key must hold a string; the two optional
/// keys may be absent but not wrongly typed. Checked in field order, so the
/// message names the first offender.
pub open spec fn spec_extract_sample(n: YamlNodeModel) -> Result<RawSampleConfigModel, Seq<char>> {
    match n {
        YamlNodeModel::Mapping(fields) => {
            if spec_string_field(fields, "entity_type"@) is None {
                Err("entity_type is missing or not a string"@)
            } else if spec_string_field(fields, "entity_name"@) is None {
                Err("entity_name is missing or not a string"@)
            } else if spec_string_field(fields, "sample_type"@) is None {
                Err("sample_type is missing or not a string"@)
            } else if spec_string_field(fields, "sample_name"@) is None {
                Err("sample_name is missing or not a string"@)
            } else if spec_string_field(fields, "metric_type"@) is None {
                Err("metric_type is missing or not a string"@)
            } else if spec_multiplier_field(fields) is None {
                Err("value_multiplier is not a number"@)
            } else if spec_navigation_field(fields) is None {
                Err("navigation is not a string"@)
            } else if spec_string_field(fields, "item"@) is None {
                Err("item is missing or not a string"@)
            } else {
                Ok(
                    RawSampleConfigModel {
                        entity_type: spec_string_field(fields, "entity_type"@)->0,
                        entity_name: spec_string_field(fields, "entity_name"@)->0,
                        sample_type: spec_string_field(fields, "sample_type"@)->0,
                        sample_name: spec_string_field(fields, "sample_name"@)->0,
                        metric_type: spec_string_field(fields, "metric_type"@)->0,
                        value_multiplier: spec_multiplier_field(fields)->0,
                        navigation: spec_navigation_field(fields)->0,
                        item: spec_string_field(fields, "item"@)->0,
                    },
                )
            }
        },
        _ => Err("sample entry is not a mapping"@),
    }
}

/// The model of an exec extraction result.
pub open spec fn raw_sample_result_model(r: Result<RawSampleConfig, String>) -> Result<
    RawSampleConfigModel,
    Seq<char>,
> {
    match r {
        Ok(raw) => Ok(raw@),
        Err(m) => Err(m@),
    }
}

/// Extracts one sample entry, exactly as [`spec_extract_sample`] says.
pub fn extract_sample(n: &YamlNode) -> (r: Result<RawSampleConfig, String>)
    ensures
        raw_sample_result_model(r) == spec_extract_sample(n@),
{
    let fields = match n {
        YamlNode::Mapping(fields) => fields,
        _ => {
            return Err("sample entry is not a mapping".to_owned());
        },
    };
    let entity_type = match string_field(fields, "entity_type") {
        Some(s) => s,
        None => {
            return Err("entity_type is missing or not a string".to_owned());
        },
    };
    let entity_name = match string_field(fields, "entity_name") {
        Some(s) => s,
        None => {
            return Err("entity_name is missing or not a string".to_owned());
        },
    };
    let sample_type = match string_field(fields, "sample_type") {
        Some(s) => s,
        None => {
            return Err("sample_type is missing or not a string".to_owned());
        },
    };
    let sample_name = match string_field(fields, "sample_name") {
        Some(s) => s,
        None => {
            return Err("sample_name is missing or not a string".to_owned());
        },
    };
    let metric_type = match string_field(fields, "metric_type") {
        Some(s) => s,
        None => {
            return Err("metric_type is missing or not a string".to_owned());
        },
    };
    let value_multiplier = match multiplier_field(fields) {
        Some(m) => m,
        None => {
            return Err("value_multiplier is not a number".to_owned());
        },
    };
    let navigation = match navigation_field(fields) {
        Some(n) => n,
        None => {
            return Err("navigation is not a string".to_owned());
        },
    };
    let item = match string_field(fields, "item") {
        Some(s) => s,
        None => {
            return Err("item is missing or not a string".to_owned());
        },
    };
    Ok(
        RawSampleConfig {
            entity_type,
            entity_name,
            sample_type,
            sample_name,
            metric_type,
            value_multiplier,
            navigation,
            item,
        },
    )
}

/// What extracting every sample entry returns: each node in document order,
/// or the message of the first node that fails.
pub open spec fn spec_extract_samples(nodes: Seq<YamlNodeModel>) -> Result<
    Seq<RawSampleConfigModel>,
    Seq<char>,
>
    decreases nodes.len(),
{
    if nodes.len() == 0 {
        Ok(Seq::<RawSampleConfigModel>::empty())
    } else {
        match spec_extract_sample(nodes[0]) {
            Err(m) => Err(m),
            Ok(raw) => match spec_extract_samples(nodes.drop_first()) {
                Err(m) => Err(m),
                Ok(rest) => Ok(seq![raw] + rest),
            },
        }
    }
}

proof fn lemma_extract_samples_snoc(nodes: Seq<YamlNodeModel>, x: YamlNodeModel)
    ensures
        spec_extract_samples(nodes.push(x)) == (match spec_extract_samples(nodes) {
            Err(m) => Err::<Seq<RawSampleConfigModel>, Seq<char>>(m),
            Ok(raws) => match spec_extract_sample(x) {
                Err(m) => Err(m),
                Ok(raw) => Ok(raws.push(raw)),
            },
        }),
    decreases nodes.len(),
{
    if nodes.len() == 0 {
        assert(nodes.push(x)[0] == x);
        assert(nodes.push(x).drop_first() =~= Seq::<YamlNodeModel>::empty());
        assert(spec_extract_samples(Seq::<YamlNodeModel>::empty()) == Ok::<
            Seq<RawSampleConfigModel>,
            Seq<char>,
        >(Seq::<RawSampleConfigModel>::empty()));
        match spec_extract_sample(x) {
            Ok(raw) => {
                assert(seq![raw] + Seq::<RawSampleConfigModel>::empty()
                    =~= Seq::<RawSampleConfigModel>::empty().push(raw));
            },
            Err(_) => {},
        }
    } else {
        assert(nodes.push(x)[0] == nodes[0]);
        assert(nodes.push(x).drop_first() =~= nodes.drop_first().push(x));
        lemma_extract_samples_snoc(nodes.drop_first(), x);
        match spec_extract_sample(nodes[0]) {
            Ok(raw0) => {
                match spec_extract_samples(nodes.drop_first()) {
                    Ok(rest) => {
                        match spec_extract_sample(x) {
                            Ok(raw) => {
                                assert(seq![raw0] + rest.push(raw)
                                    =~= (seq![raw0] + rest).push(raw));
                            },
                            Err(_) => {},
                        }
                    },
                    Err(_) => {},
                }
            },
            Err(_) => {},
        }
    }
}

proof fn lemma_extract_samples_prefix_err(nodes: Seq<YamlNodeModel>, j: int)
    requires
        0 <= j <= nodes.len(),
        spec_extract_samples(nodes.subrange(0, j)) is Err,
    ensures
        spec_extract_samples(nodes) == spec_extract_samples(nodes.subrange(0, j)),
    decreases nodes.len(),
{
    let prefix = nodes.subrange(0, j);
    if j == 0 {
        assert(prefix =~= Seq::<YamlNodeModel>::empty());
        assert(false);
    } else {
        assert(prefix[0] == nodes[0]);
        match spec_extract_sample(nodes[0]) {
            Err(_) => {},
            Ok(_) => {
                assert(prefix.drop_first() =~= nodes.drop_first().subrange(0, j - 1));
                lemma_extract_samples_prefix_err(nodes.drop_first(), j - 1);
            },
        }
    }
}

fn extract_samples(nodes: &Vec<YamlNode>) -> (r: Result<Vec<RawSampleConfig>, String>)
    ensures
        (match r {
            Ok(raws) => spec_extract_samples(node_models(*nodes)) == Ok::<
                Seq<RawSampleConfigModel>,
                Seq<char>,
            >(raws@.map_values(|raw: RawSampleConfig| raw@)),
            Err(m) => spec_extract_samples(node_models(*nodes)) == Err::<
                Seq<RawSampleConfigModel>,
                Seq<char>,
            >(m@),
        }),
{
    proof {
        lemma_node_models(*nodes);
    }
    let ghost nm = node_models(*nodes);
    let n = nodes.len();
    let mut raws: Vec<RawSampleConfig> = Vec::new();
    let mut i: usize = 0;
    proof {
        assert(nm.subrange(0, 0) =~= Seq::<YamlNodeModel>::empty());
        assert(raws@.map_values(|raw: RawSampleConfig| raw@) =~= Seq::<
            RawSampleConfigModel,
        >::empty());
        assert(spec_extract_samples(Seq::<YamlNodeModel>::empty()) == Ok::<
            Seq<RawSampleConfigModel>,
            Seq<char>,
        >(Seq::<RawSampleConfigModel>::empty()));
    }
    while i < n
        invariant
            n == nodes@.len(),
            i <= n,
            nm == node_models(*nodes),
            nm.len() == nodes@.len(),
            forall|j: int| 0 <= j < nodes@.len() ==> nm[j] == nodes@[j]@,
            raws@.len() == i as int,
            spec_extract_samples(nm.subrange(0, i as int)) == Ok::<
                Seq<RawSampleConfigModel>,
                Seq<char>,
            >(raws@.map_values(|raw: RawSampleConfig| raw@)),
        decreases n - i,
    {
        let ghost prefix = nm.subrange(0, i as int);
        proof {
            lemma_extract_samples_snoc(prefix, nm[i as int]);
            assert(nm.subrange(0, i as int + 1) =~= prefix.push(nm[i as int]));
        }
        match extract_sample(&nodes[i]) {
            Ok(raw) => {
                let ghost raws_before = raws@;
                let ghost raw_view = raw@;
                raws.push(raw);
                proof {
                    assert(raws@ == raws_before.push(raws@[i as int]));
                    assert(raws@.map_values(|r2: RawSampleConfig| r2@)
                        =~= raws_before.map_values(|r2: RawSampleConfig| r2@).push(raw_view));
                }
            },
            Err(m) => {
                proof {
                    lemma_extract_samples_prefix_err(nm, i as int + 1);
                }
                return Err(m);
            },
        }
        i += 1;
    }
    proof {
        assert(nm.subrange(0, n as int) =~= nm);
    }
    Ok(raws)
}

/// What extracting the whole document returns: the root must be a mapping
/// with a string `location` and a sequence `sample_configs`.
pub open spec fn spec_extract_config(root: YamlNodeModel) -> Result<RawConfigModel, Seq<char>> {
    match root {
        YamlNodeModel::Mapping(fields) => {
            if spec_string_field(fields, "location"@) is None {
                Err("location is missing or not a string"@)
            } else {
                match spec_lookup(fields, "sample_configs"@) {
                    None => Err("sample_configs is missing"@),
                    Some(YamlNodeModel::Sequence(nodes)) => match spec_extract_samples(nodes) {
                        Err(m) => Err(m),
                        Ok(raws) => Ok(
                            RawConfigModel {
                                location: spec_string_field(fields, "location"@)->0,
                                sample_configs: raws,
                            },
                        ),
                    },
                    Some(_) => Err("sample_configs is not a sequence"@),
                }
            }
        },
        _ => Err("document is not a mapping"@),
    }
}

/// The model of an exec extraction result.
pub open spec fn raw_config_result_model(r: Result<RawConfig, String>) -> Result<
    RawConfigModel,
    Seq<char>,
> {
    match r {
        Ok(raw) => Ok(raw@),
        Err(m) => Err(m@),
    }
}

/// Extracts the whole document, exactly as [`spec_extract_config`] says.
pub fn extract_config(root: &YamlNode) -> (r: Result<RawConfig, String>)
    ensures
        raw_config_result_model(r) == spec_extract_config(root@),
{
    let fields = match root {
        YamlNode::Mapping(fields) => fields,
        _ => {
            return Err("document is not a mapping".to_owned());
        },
    };
    let location = match string_field(fields, "location") {
        Some(s) => s,
        None => {
            return Err("location is missing or not a string".to_owned());
        },
    };
    let entries = match lookup(fields, "sample_configs") {
        None => {
            return Err("sample_configs is missing".to_owned());
        },
        Some(node) => match node {
            YamlNode::Sequence(nodes) => nodes,
            _ => {
                return Err("sample_configs is not a sequence".to_owned());
            },
        },
    };
    match extract_samples(entries) {
        Ok(sample_configs) => Ok(RawConfig { location, sample_configs }),
        Err(m) => Err(m),
    }
}

/// The message the loader reports for an unknown tag.
pub open spec fn spec_tag_message(t: UnknownTag) -> Seq<char> {
    match t {
        UnknownTag::EntityType => "entity_type holds an unknown tag"@,
        UnknownTag::SampleType => "sample_type holds an unknown tag"@,
        UnknownTag::MetricType => "metric_type holds an unknown tag"@,
    }
}

/// What loading a parsed tree returns: extract the plain values, map them
/// onto the schema, fill defaults — or the message of the first failure.
pub open spec fn spec_load_tree(tree: YamlNodeModel) -> Result<ConfigModel, Seq<char>> {
    match spec_extract_config(tree) {
        Err(m) => Err(m),
        Ok(raw) => match spec_config_from_raw(raw) {
            Err(tag) => Err(spec_tag_message(tag)),
            Ok(c) => Ok(spec_set_defaults(c)),
        },
    }
}

/// Loads a parsed tree, exactly as [`spec_load_tree`] says.
pub fn load_tree(tree: &YamlNode) -> (r: Result<Config, String>)
    ensures
        (match r {
            Ok(c) => spec_load_tree(tree@) == Ok::<ConfigModel, Seq<char>>(c@),
            Err(m) => spec_load_tree(tree@) == Err::<ConfigModel, Seq<char>>(m@),
        }),
{
    let raw = match extract_config(tree) {
        Ok(raw) => raw,
        Err(m) => {
            return Err(m);
        },
    };
    let mut config = match Config::from_raw(&raw) {
        Ok(c) => c,
        Err(tag) => {
            let message: &str = match tag {
                UnknownTag::EntityType => "entity_type holds an unknown tag",
                UnknownTag::SampleType => "sample_type holds an unknown tag",
                UnknownTag::MetricType => "metric_type holds an unknown tag",
            };
            return Err(message.to_owned());
        },
    };
    config.set_defaults();
    Ok(config)
}

} // verus!
