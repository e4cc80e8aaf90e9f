//! YAML boundary of the configuration loader. The parser comes from the
//! yaml_rust crate and is trusted for one thing only: turning the text
//! into a plain-value document model, a result that depends on the text
//! alone and is given a name. Everything after that — key lookup, field
//! extraction, defaults, precedence, validation — is verified code, so
//! the loader's whole outcome is pinned as a function of the text.

use vstd::prelude::*;

use crate::config::{from_raw_post, instances_validation, lemma_dup_validation_error,
    lemma_fields_validation_error, ConfigError, RawConfig, RawInstance, ServiceConfig};

verus! {

/// One YAML value, mirroring the parser's document tree variant for
/// variant as plain library data. A floating-point scalar keeps its
/// scalar text; a mapping keeps its entries in document order.
pub enum YamlNode {
    Real(String),
    Int(i64),
    Str(String),
    Bool(bool),
    List(Vec<YamlNode>),
    Hash(Vec<(YamlNode, YamlNode)>),
    Alias(usize),
    Null,
    Bad,
}

/// Outcome of parsing one configuration text: unparseable, an empty
/// document stream, or the first document.
pub enum ParsedYaml {
    Invalid,
    Empty,
    Doc(YamlNode),
}

/// What the YAML parser returns for a given text. The parse depends on
/// the text alone, so the same text always stands for the same
/// document.
pub uninterp spec fn yaml_parse_of(s: Seq<char>) -> ParsedYaml;

#[verifier::external_type_specification]
#[verifier::external_body]
pub struct ExYaml(yaml_rust::Yaml);

/// Converting half of the parse boundary: relies on the shape of
/// yaml_rust::Yaml, copying each variant of the parsed tree into the
/// library's model, one arm for one variant.
#[verifier::external_body]
fn node_of_yaml(y: &yaml_rust::Yaml) -> YamlNode {
    match y {
        yaml_rust::Yaml::Real(s) => YamlNode::Real(s.clone()),
        yaml_rust::Yaml::Integer(i) => YamlNode::Int(*i),
        yaml_rust::Yaml::String(s) => YamlNode::Str(s.clone()),
        yaml_rust::Yaml::Boolean(b) => YamlNode::Bool(*b),
        yaml_rust::Yaml::Array(items) => YamlNode::List(items.iter().map(node_of_yaml).collect()),
        yaml_rust::Yaml::Hash(entries) => YamlNode::Hash(
            entries.iter().map(|(k, v)| (node_of_yaml(k), node_of_yaml(v))).collect(),
        ),
        yaml_rust::Yaml::Alias(a) => YamlNode::Alias(*a),
        yaml_rust::Yaml::Null => YamlNode::Null,
        yaml_rust::Yaml::BadValue => YamlNode::Bad,
    }
}

/// Relies on yaml_rust::YamlLoader::load_from_str: a scan error, an
/// empty document stream and a parsed first document are told apart,
/// and the document is copied into the library's model.
#[verifier::external_body]
fn parse_yaml(content: &str) -> (r: ParsedYaml)
    ensures
        r == yaml_parse_of(content@),
{
    match yaml_rust::YamlLoader::load_from_str(content) {
        Err(_) => ParsedYaml::Invalid,
        Ok(docs) => match docs.first() {
            None => ParsedYaml::Empty,
            Some(doc) => ParsedYaml::Doc(node_of_yaml(doc)),
        },
    }
}

/// Value under a string key among a mapping's entries: the first entry
/// whose key is that string.
pub open spec fn lookup_spec(entries: Seq<(YamlNode, YamlNode)>, key: Seq<char>) -> Option<
    YamlNode,
>
    decreases entries.len(),
{
    if entries.len() == 0 {
        None
    } else if entries[0].0 matches YamlNode::Str(s) && s@ == key {
        Some(entries[0].1)
    } else {
        lookup_spec(entries.drop_first(), key)
    }
}

/// Value under a string key of a document: a lookup in a mapping,
/// nothing in any other kind of node.
pub open spec fn node_get_spec(doc: YamlNode, key: Seq<char>) -> Option<YamlNode> {
    match doc {
        YamlNode::Hash(entries) => lookup_spec(entries@, key),
        _ => None,
    }
}

/// The string under a key, when the key holds a string.
pub open spec fn get_str_spec(doc: YamlNode, key: Seq<char>) -> Option<String> {
    match node_get_spec(doc, key) {
        Some(YamlNode::Str(s)) => Some(s),
        _ => None,
    }
}

/// The boolean under a key, when the key holds a boolean.
pub open spec fn get_bool_spec(doc: YamlNode, key: Seq<char>) -> Option<bool> {
    match node_get_spec(doc, key) {
        Some(YamlNode::Bool(b)) => Some(b),
        _ => None,
    }
}

/// The integer under a key, when the key holds an integer.
pub open spec fn get_i64_spec(doc: YamlNode, key: Seq<char>) -> Option<i64> {
    match node_get_spec(doc, key) {
        Some(YamlNode::Int(v)) => Some(v),
        _ => None,
    }
}

/// The scalar text under a key, when the key holds a floating-point
/// scalar.
pub open spec fn get_real_spec(doc: YamlNode, key: Seq<char>) -> Option<String> {
    match node_get_spec(doc, key) {
        Some(YamlNode::Real(s)) => Some(s),
        _ => None,
    }
}

/// The raw instance entry a list element stands for, key by key.
pub open spec fn raw_instance_of(e: YamlNode) -> RawInstance {
    RawInstance {
        stratum_port: get_str_spec(e, "stratum_port"@),
        min_share_diff: get_i64_spec(e, "min_share_diff"@),
        prom_port: get_str_spec(e, "prom_port"@),
        log_to_file: get_bool_spec(e, "log_to_file"@),
        var_diff: get_bool_spec(e, "var_diff"@),
        shares_per_min: get_i64_spec(e, "shares_per_min"@),
        var_diff_stats: get_bool_spec(e, "var_diff_stats"@),
        pow2_clamp: get_bool_spec(e, "pow2_clamp"@),
    }
}

/// The raw configuration a document stands for, key by key: every
/// scalar field read under its key, and the instance list read entry by
/// entry when `instances` holds a list.
pub open spec fn raw_of_doc(doc: YamlNode, raw: RawConfig) -> bool {
    &&& raw.kaspad_address == get_str_spec(doc, "kaspad_address"@)
    &&& raw.print_stats == get_bool_spec(doc, "print_stats"@)
    &&& raw.log_to_file == get_bool_spec(doc, "log_to_file"@)
    &&& raw.health_check_port == get_str_spec(doc, "health_check_port"@)
    &&& raw.var_diff == get_bool_spec(doc, "var_diff"@)
    &&& raw.shares_per_min == get_i64_spec(doc, "shares_per_min"@)
    &&& raw.var_diff_stats == get_bool_spec(doc, "var_diff_stats"@)
    &&& raw.extranonce_size == get_i64_spec(doc, "extranonce_size"@)
    &&& raw.pow2_clamp == get_bool_spec(doc, "pow2_clamp"@)
    &&& raw.block_wait_time_ms == get_i64_spec(doc, "block_wait_time"@)
    &&& raw.block_wait_time_real == get_real_spec(doc, "block_wait_time"@)
    &&& raw.stratum_port == get_str_spec(doc, "stratum_port"@)
    &&& raw.min_share_diff == get_i64_spec(doc, "min_share_diff"@)
    &&& raw.prom_port == get_str_spec(doc, "prom_port"@)
    &&& match node_get_spec(doc, "instances"@) {
        Some(YamlNode::List(entries)) => raw.instances matches Some(v) && v@.len()
            == entries@.len() && forall|k: int|
            0 <= k < entries@.len() ==> v@[k] == raw_instance_of(entries@[k]),
        _ => raw.instances is None,
    }
}

/// Looks a string key up in a document node.
fn node_get<'a>(doc: &'a YamlNode, key: &str) -> (r: Option<&'a YamlNode>)
    ensures
        match r {
            Some(n) => node_get_spec(*doc, key@) == Some(*n),
            None => node_get_spec(*doc, key@) is None,
        },
{
    match doc {
        YamlNode::Hash(entries) => {
            let wanted = String::from_str(key);
            proof {
                assert(entries@.subrange(0, entries@.len() as int) =~= entries@);
                assert(node_get_spec(*doc, key@) == lookup_spec(entries@, key@));
            }
            let mut i: usize = 0;
            while i < entries.len()
                invariant
                    i <= entries@.len(),
                    wanted@ == key@,
                    node_get_spec(*doc, key@) == lookup_spec(entries@, key@),
                    lookup_spec(entries@, key@) == lookup_spec(
                        entries@.subrange(i as int, entries@.len() as int),
                        key@,
                    ),
                decreases entries@.len() - i,
            {
                let ghost rest = entries@.subrange(i as int, entries@.len() as int);
                proof {
                    assert(rest[0] == entries@[i as int]);
                    assert(rest.drop_first() =~= entries@.subrange(
                        i as int + 1,
                        entries@.len() as int,
                    ));
                }
                match &entries[i].0 {
                    YamlNode::Str(s) => {
                        if *s == wanted {
                            proof {
                                assert(entries@[i as int].0 == YamlNode::Str(*s));
                                assert(lookup_spec(rest, key@) == Some(rest[0].1));
                            }
                            return Some(&entries[i].1);
                        }
                    },
                    _ => {},
                }
                i = i + 1;
            }
            None
        },
        _ => None,
    }
}

/// The string under a key of the document, owned.
fn get_str(doc: &YamlNode, key: &str) -> (r: Option<String>)
    ensures
        r == get_str_spec(*doc, key@),
{
    match node_get(doc, key) {
        Some(n) => match n {
            YamlNode::Str(s) => Some(s.clone()),
            _ => None,
        },
        None => None,
    }
}

/// The boolean under a key of the document.
fn get_bool(doc: &YamlNode, key: &str) -> (r: Option<bool>)
    ensures
        r == get_bool_spec(*doc, key@),
{
    match node_get(doc, key) {
        Some(n) => match n {
            YamlNode::Bool(b) => Some(*b),
            _ => None,
        },
        None => None,
    }
}

/// The integer under a key of the document.
fn get_i64(doc: &YamlNode, key: &str) -> (r: Option<i64>)
    ensures
        r == get_i64_spec(*doc, key@),
{
    match node_get(doc, key) {
        Some(n) => match n {
            YamlNode::Int(v) => Some(*v),
            _ => None,
        },
        None => None,
    }
}

/// The scalar text under a key of the document, when it holds a
/// floating-point scalar.
fn get_real(doc: &YamlNode, key: &str) -> (r: Option<String>)
    ensures
        r == get_real_spec(*doc, key@),
{
    match node_get(doc, key) {
        Some(n) => match n {
            YamlNode::Real(s) => Some(s.clone()),
            _ => None,
        },
        None => None,
    }
}

/// Reads one instance entry of the `instances` list into its raw form.
fn extract_instance(e: &YamlNode) -> (r: RawInstance)
    ensures
        r == raw_instance_of(*e),
{
    RawInstance {
        stratum_port: get_str(e, "stratum_port"),
        min_share_diff: get_i64(e, "min_share_diff"),
        prom_port: get_str(e, "prom_port"),
        log_to_file: get_bool(e, "log_to_file"),
        var_diff: get_bool(e, "var_diff"),
        shares_per_min: get_i64(e, "shares_per_min"),
        var_diff_stats: get_bool(e, "var_diff_stats"),
        pow2_clamp: get_bool(e, "pow2_clamp"),
    }
}

/// Reads the whole document into its raw form, key by key.
fn extract_raw(doc: &YamlNode) -> (r: RawConfig)
    ensures
        raw_of_doc(*doc, r),
{
    let instances: Option<Vec<RawInstance>> = match node_get(doc, "instances") {
        Some(node) => match node {
            YamlNode::List(entries) => {
                let mut raw_instances: Vec<RawInstance> = Vec::new();
                let mut i: usize = 0;
                while i < entries.len()
                    invariant
                        i <= entries@.len(),
                        raw_instances@.len() == i,
                        forall|k: int|
                            0 <= k < i ==> raw_instances@[k] == raw_instance_of(entries@[k]),
                    decreases entries@.len() - i,
                {
                    raw_instances.push(extract_instance(&entries[i]));
                    i = i + 1;
                }
                Some(raw_instances)
            },
            _ => None,
        },
        None => None,
    };
    RawConfig {
        kaspad_address: get_str(doc, "kaspad_address"),
        print_stats: get_bool(doc, "print_stats"),
        log_to_file: get_bool(doc, "log_to_file"),
        health_check_port: get_str(doc, "health_check_port"),
        var_diff: get_bool(doc, "var_diff"),
        shares_per_min: get_i64(doc, "shares_per_min"),
        var_diff_stats: get_bool(doc, "var_diff_stats"),
        extranonce_size: get_i64(doc, "extranonce_size"),
        pow2_clamp: get_bool(doc, "pow2_clamp"),
        block_wait_time_ms: get_i64(doc, "block_wait_time"),
        block_wait_time_real: get_real(doc, "block_wait_time"),
        instances,
        stratum_port: get_str(doc, "stratum_port"),
        min_share_diff: get_i64(doc, "min_share_diff"),
        prom_port: get_str(doc, "prom_port"),
    }
}

impl ServiceConfig {
    /// Parses and resolves a YAML configuration text. The result is a
    /// function of the text: an unparseable text is rejected as invalid
    /// YAML, an empty document stream as an empty document, and for a
    /// parsed document the outcome is exactly `from_raw`'s on the raw
    /// configuration that document stands for — so every accepted
    /// configuration is valid (at least one instance, stratum and
    /// metrics ports colon-prefixed, stratum ports mutually distinct).
    pub fn from_yaml(content: &str) -> (r: Result<ServiceConfig, ConfigError>)
        ensures
            yaml_parse_of(content@) is Invalid <==> r == Err::<ServiceConfig, ConfigError>(
                ConfigError::InvalidYaml,
            ),
            yaml_parse_of(content@) is Empty <==> r == Err::<ServiceConfig, ConfigError>(
                ConfigError::EmptyDocument,
            ),
            yaml_parse_of(content@) matches ParsedYaml::Doc(doc) ==> exists|raw: RawConfig|
                raw_of_doc(doc, raw) && from_raw_post(raw, r),
            r matches Ok(c) ==> c.valid(),
    {
        match parse_yaml(content) {
            ParsedYaml::Invalid => Err(ConfigError::InvalidYaml),
            ParsedYaml::Empty => Err(ConfigError::EmptyDocument),
            ParsedYaml::Doc(doc) => {
                let raw = extract_raw(&doc);
                let result = ServiceConfig::from_raw(&raw);
                proof {
                    // the resolution's errors are validation errors,
                    // never the parse-level ones
                    if raw.instances is Some {
                        let insts = raw.instances.unwrap();
                        match instances_validation(insts@) {
                            Err(_) => {
                                lemma_fields_validation_error(insts@, 0);
                                lemma_dup_validation_error(insts@, 0);
                            },
                            Ok(_) => {},
                        }
                    }
                    assert(raw_of_doc(doc, raw) && from_raw_post(raw, result));
                }
                result
            },
        }
    }
}

} // verus!
