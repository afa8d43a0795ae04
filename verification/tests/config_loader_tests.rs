use config_loader::config_client::{ConfigClient, ConfigClientConfig, ConfigError};
use config_loader::document;
use config_loader::model::{
    Config, EntityType, MetricType, RawConfig, RawSampleConfig, SampleConfig, SampleType,
    UnknownTag, DEFAULT_VALUE_MULTIPLIER_BITS,
};
use config_loader::yaml::YamlNode;

fn text(s: &str) -> YamlNode {
    YamlNode::Text(s.to_string())
}

fn test_client(path: &str) -> ConfigClient {
    ConfigClient::new(ConfigClientConfig::new(path.to_string()).unwrap())
}

const TEST_CONFIG_YAML: &str = r#"
location: My Home
sample_configs:
- entity_type: DEVICE
  entity_name: Alpha Innotec SWCV 92K3
  sample_type: TEMPERATURE
  sample_name: Aanvoer
  metric_type: GAUGE
  navigation: Informatie > Temperaturen
  item: Aanvoer
- entity_type: DEVICE
  entity_name: Alpha Innotec SWCV 92K3
  sample_type: TEMPERATURE
  sample_name: Retour
  metric_type: GAUGE
  value_multiplier: 0.5
  navigation: Informatie > Temperaturen
  item: Retour
"#;

#[test]
fn read_config_from_file_returns_deserialized_test_file() {
    let config_client = test_client("test-config.yaml");

    let config = config_client
        .read_config(Ok(TEST_CONFIG_YAML.to_string()))
        .unwrap();

    assert_eq!(config.location, "My Home".to_string());
    assert_eq!(config.sample_configs.len(), 2);
    assert_eq!(config.sample_configs[0].entity_type, EntityType::Device);
    assert_eq!(
        config.sample_configs[0].entity_name,
        "Alpha Innotec SWCV 92K3".to_string()
    );
    assert_eq!(
        config.sample_configs[0].sample_type,
        SampleType::Temperature
    );
    assert_eq!(config.sample_configs[0].sample_name, "Aanvoer".to_string());
    assert_eq!(config.sample_configs[0].metric_type, MetricType::Gauge);

    assert_eq!(
        f64::from_bits(config.sample_configs[0].value_multiplier.unwrap()),
        1.0
    );
    assert_eq!(
        config.sample_configs[0].navigation,
        "Informatie > Temperaturen".to_string()
    );
    assert_eq!(config.sample_configs[0].item, "Aanvoer".to_string());
}

#[test]
fn parse_keeps_document_order_and_explicit_multiplier() {
    let config = test_client("c.yaml")
        .parse_config(TEST_CONFIG_YAML)
        .unwrap();

    assert_eq!(config.sample_configs[0].sample_name, "Aanvoer");
    assert_eq!(config.sample_configs[1].sample_name, "Retour");
    assert_eq!(
        f64::from_bits(config.sample_configs[1].value_multiplier.unwrap()),
        0.5
    );
    assert_eq!(config.sample_configs[1].item, "Retour");
}

#[test]
fn parse_widens_integer_multiplier() {
    let yaml = "location: L\nsample_configs:\n- entity_type: ZONE\n  entity_name: e\n  sample_type: PRESSURE\n  sample_name: s\n  metric_type: COUNTER\n  value_multiplier: 2\n  item: i\n";
    let config = test_client("c.yaml").parse_config(yaml).unwrap();
    assert_eq!(config.sample_configs[0].entity_type, EntityType::Zone);
    assert_eq!(config.sample_configs[0].sample_type, SampleType::Pressure);
    assert_eq!(config.sample_configs[0].metric_type, MetricType::Counter);
    assert_eq!(
        f64::from_bits(config.sample_configs[0].value_multiplier.unwrap()),
        2.0
    );
    assert_eq!(config.sample_configs[0].navigation, "");
}

fn sample(multiplier: Option<u64>) -> SampleConfig {
    SampleConfig {
        entity_type: EntityType::Device,
        entity_name: "e".to_string(),
        sample_type: SampleType::Temperature,
        sample_name: "s".to_string(),
        metric_type: MetricType::Gauge,
        value_multiplier: multiplier,
        navigation: "n".to_string(),
        item: "i".to_string(),
    }
}

#[test]
fn set_defaults_keeps_explicit_multipliers() {
    let explicit_bits = 2.5f64.to_bits();
    let mut config = Config {
        location: "L".to_string(),
        sample_configs: vec![sample(Some(explicit_bits)), sample(Some(0))],
    };
    let before = config.clone();
    config.set_defaults();
    assert_eq!(config, before);
    assert_eq!(config.sample_configs[0].value_multiplier, Some(explicit_bits));
    assert_eq!(config.sample_configs[1].value_multiplier, Some(0));
}

#[test]
fn set_defaults_fills_missing_multiplier_with_one() {
    let mut config = Config {
        location: "L".to_string(),
        sample_configs: vec![sample(None), sample(Some(2.5f64.to_bits()))],
    };
    config.set_defaults();
    assert_eq!(
        config.sample_configs[0].value_multiplier,
        Some(DEFAULT_VALUE_MULTIPLIER_BITS)
    );
    assert_eq!(f64::from_bits(DEFAULT_VALUE_MULTIPLIER_BITS), 1.0);
    assert_eq!(
        f64::from_bits(config.sample_configs[1].value_multiplier.unwrap()),
        2.5
    );
}

#[test]
fn set_defaults_is_idempotent() {
    let mut config = Config {
        location: "L".to_string(),
        sample_configs: vec![sample(None), sample(Some(7))],
    };
    config.set_defaults();
    let once = config.clone();
    config.set_defaults();
    assert_eq!(config, once);
}

#[test]
fn read_config_failed_read_is_io_error() {
    let result = test_client("/nowhere/missing.yaml").read_config(Err("no such file".to_string()));
    match result {
        Err(ConfigError::Io { path, message }) => {
            assert_eq!(path, "/nowhere/missing.yaml");
            assert_eq!(message, "no such file");
        }
        other => panic!("expected an I/O error, got {:?}", other),
    }
}

#[test]
fn parse_config_malformed_document_is_schema_error() {
    let result = test_client("bad.yaml").parse_config("location: [unclosed");
    match result {
        Err(ConfigError::Schema { path, message }) => {
            assert_eq!(path, "bad.yaml");
            assert!(!message.is_empty());
        }
        other => panic!("expected a schema error, got {:?}", other),
    }
}

#[test]
fn parse_config_missing_location_is_schema_error() {
    let result = test_client("c.yaml").parse_config("sample_configs: []");
    match result {
        Err(ConfigError::Schema { message, .. }) => {
            assert_eq!(message, "location is missing or not a string");
        }
        other => panic!("expected a schema error, got {:?}", other),
    }
}

#[test]
fn parse_config_missing_sample_configs_is_schema_error() {
    let result = test_client("c.yaml").parse_config("location: L");
    match result {
        Err(ConfigError::Schema { message, .. }) => {
            assert_eq!(message, "sample_configs is missing");
        }
        other => panic!("expected a schema error, got {:?}", other),
    }
}

#[test]
fn parse_config_missing_entry_field_is_schema_error() {
    let yaml = "location: L\nsample_configs:\n- entity_type: DEVICE\n  entity_name: e\n  sample_type: TEMPERATURE\n  sample_name: s\n  metric_type: GAUGE\n";
    let result = test_client("c.yaml").parse_config(yaml);
    match result {
        Err(ConfigError::Schema { message, .. }) => {
            assert_eq!(message, "item is missing or not a string");
        }
        other => panic!("expected a schema error, got {:?}", other),
    }
}

#[test]
fn parse_config_unknown_tag_is_schema_error() {
    let yaml = "location: L\nsample_configs:\n- entity_type: TOASTER\n  entity_name: e\n  sample_type: TEMPERATURE\n  sample_name: s\n  metric_type: GAUGE\n  item: i\n";
    let result = test_client("c.yaml").parse_config(yaml);
    match result {
        Err(ConfigError::Schema { message, .. }) => {
            assert_eq!(message, "entity_type holds an unknown tag");
        }
        other => panic!("expected a schema error, got {:?}", other),
    }
}

#[test]
fn parse_config_wrongly_typed_multiplier_is_schema_error() {
    let yaml = "location: L\nsample_configs:\n- entity_type: DEVICE\n  entity_name: e\n  sample_type: TEMPERATURE\n  sample_name: s\n  metric_type: GAUGE\n  value_multiplier: much\n  item: i\n";
    let result = test_client("c.yaml").parse_config(yaml);
    match result {
        Err(ConfigError::Schema { message, .. }) => {
            assert_eq!(message, "value_multiplier is not a number");
        }
        other => panic!("expected a schema error, got {:?}", other),
    }
}

#[test]
fn parse_config_ignores_unknown_fields() {
    let yaml = "location: L\nextra: true\nsample_configs:\n- entity_type: DEVICE\n  entity_name: e\n  sample_type: TEMPERATURE\n  sample_name: s\n  metric_type: GAUGE\n  item: i\n  surplus: 3\n";
    let config = test_client("c.yaml").parse_config(yaml).unwrap();
    assert_eq!(config.location, "L");
    assert_eq!(config.sample_configs.len(), 1);
}

#[test]
fn from_env_unset_resolves_to_default_path() {
    let config = ConfigClientConfig::from_env(None).unwrap();
    assert_eq!(config.config_path, "/configs/config.yaml");
}

#[test]
fn from_env_set_resolves_to_given_path() {
    let config = ConfigClientConfig::from_env(Some("X".to_string())).unwrap();
    assert_eq!(config.config_path, "X");
}

#[test]
fn tags_map_to_variants() {
    assert_eq!(EntityType::from_tag("DEVICE"), Some(EntityType::Device));
    assert_eq!(EntityType::from_tag("ZONE"), Some(EntityType::Zone));
    assert_eq!(EntityType::from_tag("device"), None);
    assert_eq!(
        SampleType::from_tag("TEMPERATURE"),
        Some(SampleType::Temperature)
    );
    assert_eq!(SampleType::from_tag("PRESSURE"), Some(SampleType::Pressure));
    assert_eq!(SampleType::from_tag("ENERGY"), Some(SampleType::Energy));
    assert_eq!(SampleType::from_tag(""), None);
    assert_eq!(MetricType::from_tag("GAUGE"), Some(MetricType::Gauge));
    assert_eq!(MetricType::from_tag("COUNTER"), Some(MetricType::Counter));
    assert_eq!(MetricType::from_tag("HISTOGRAM"), None);
}

fn raw_sample(entity_type: &str, metric_type: &str) -> RawSampleConfig {
    RawSampleConfig {
        entity_type: entity_type.to_string(),
        entity_name: "e".to_string(),
        sample_type: "TEMPERATURE".to_string(),
        sample_name: "s".to_string(),
        metric_type: metric_type.to_string(),
        value_multiplier: Some(9),
        navigation: None,
        item: "i".to_string(),
    }
}

#[test]
fn sample_from_raw_defaults_navigation_and_keeps_multiplier() {
    let mapped = SampleConfig::from_raw(&raw_sample("DEVICE", "COUNTER")).unwrap();
    assert_eq!(mapped.navigation, "");
    assert_eq!(mapped.value_multiplier, Some(9));
    assert_eq!(mapped.entity_type, EntityType::Device);
    assert_eq!(mapped.metric_type, MetricType::Counter);
}

#[test]
fn config_from_raw_reports_first_failing_entry() {
    let raw = RawConfig {
        location: "L".to_string(),
        sample_configs: vec![
            raw_sample("DEVICE", "BROKEN"),
            raw_sample("BROKEN", "GAUGE"),
        ],
    };
    assert_eq!(Config::from_raw(&raw), Err(UnknownTag::MetricType));
}

#[test]
fn load_tree_returns_scenario_document_exactly() {
    let entry1 = YamlNode::Mapping(vec![
        (text("entity_type"), text("DEVICE")),
        (text("entity_name"), text("Alpha Innotec SWCV 92K3")),
        (text("sample_type"), text("TEMPERATURE")),
        (text("sample_name"), text("Aanvoer")),
        (text("metric_type"), text("GAUGE")),
        (text("navigation"), text("Informatie > Temperaturen")),
        (text("item"), text("Aanvoer")),
    ]);
    let entry2 = YamlNode::Mapping(vec![
        (text("entity_type"), text("DEVICE")),
        (text("entity_name"), text("Alpha Innotec SWCV 92K3")),
        (text("sample_type"), text("TEMPERATURE")),
        (text("sample_name"), text("Retour")),
        (text("metric_type"), text("GAUGE")),
        (text("value_multiplier"), YamlNode::Number(0.5f64.to_bits())),
        (text("navigation"), text("Informatie > Temperaturen")),
        (text("item"), text("Retour")),
    ]);
    let tree = YamlNode::Mapping(vec![
        (text("location"), text("My Home")),
        (text("sample_configs"), YamlNode::Sequence(vec![entry1, entry2])),
    ]);

    let config = document::load_tree(&tree).unwrap();

    assert_eq!(config.location, "My Home");
    assert_eq!(config.sample_configs.len(), 2);
    assert_eq!(config.sample_configs[0].entity_type, EntityType::Device);
    assert_eq!(config.sample_configs[0].entity_name, "Alpha Innotec SWCV 92K3");
    assert_eq!(
        config.sample_configs[0].sample_type,
        SampleType::Temperature
    );
    assert_eq!(config.sample_configs[0].sample_name, "Aanvoer");
    assert_eq!(config.sample_configs[0].metric_type, MetricType::Gauge);
    assert_eq!(
        f64::from_bits(config.sample_configs[0].value_multiplier.unwrap()),
        1.0
    );
    assert_eq!(
        config.sample_configs[0].navigation,
        "Informatie > Temperaturen"
    );
    assert_eq!(config.sample_configs[0].item, "Aanvoer");
    assert_eq!(config.sample_configs[1].sample_name, "Retour");
    assert_eq!(
        f64::from_bits(config.sample_configs[1].value_multiplier.unwrap()),
        0.5
    );
}

#[test]
fn load_tree_non_mapping_document_fails() {
    let message = document::load_tree(&YamlNode::Bool(true)).unwrap_err();
    assert_eq!(message, "document is not a mapping");
}

#[test]
fn load_tree_non_mapping_entry_fails() {
    let tree = YamlNode::Mapping(vec![
        (text("location"), text("L")),
        (text("sample_configs"), YamlNode::Sequence(vec![YamlNode::Null])),
    ]);
    let message = document::load_tree(&tree).unwrap_err();
    assert_eq!(message, "sample entry is not a mapping");
}

#[test]
fn parse_config_non_mapping_document_is_schema_error() {
    let result = test_client("c.yaml").parse_config("- 1\n- 2");
    match result {
        Err(ConfigError::Schema { message, .. }) => {
            assert_eq!(message, "document is not a mapping");
        }
        other => panic!("expected a schema error, got {:?}", other),
    }
}

#[test]
fn config_from_raw_maps_every_entry_in_order() {
    let raw = RawConfig {
        location: "L".to_string(),
        sample_configs: vec![raw_sample("DEVICE", "GAUGE"), raw_sample("ZONE", "COUNTER")],
    };
    let config = Config::from_raw(&raw).unwrap();
    assert_eq!(config.location, "L");
    assert_eq!(config.sample_configs.len(), 2);
    assert_eq!(config.sample_configs[0].entity_type, EntityType::Device);
    assert_eq!(config.sample_configs[1].entity_type, EntityType::Zone);
}
