use backend_core::config::{
    env_pair_to_config, env_source, parse_port, production_override_applies, ConfigSource,
    Settings,
};

fn source_of(pairs: &[(&str, &str)]) -> ConfigSource {
    ConfigSource {
        pairs: pairs
            .iter()
            .map(|(k, v)| (k.to_string(), v.to_string()))
            .collect(),
    }
}

fn full_default_source() -> ConfigSource {
    source_of(&[
        ("server.host", "0.0.0.0"),
        ("server.port", "8080"),
        ("mysql.uri", "mysql://root@localhost/app"),
        ("mongodb.uri", "mongodb://localhost:27017"),
        ("redis.uri", "redis://localhost:6379"),
        ("rabbitmq.uri", "amqp://localhost:5672"),
        ("kafka.brokers", "localhost:9092"),
    ])
}

#[test]
fn load_merges_all_required_fields() {
    let sources = vec![full_default_source()];
    let settings = Settings::load(&sources).unwrap();
    assert_eq!(settings.server.host, "0.0.0.0");
    assert_eq!(settings.server.port, 8080);
    assert_eq!(settings.mysql_uri(), "mysql://root@localhost/app");
    assert_eq!(settings.mongodb_uri(), "mongodb://localhost:27017");
    assert_eq!(settings.redis_uri(), "redis://localhost:6379");
    assert_eq!(settings.rabbitmq_uri(), "amqp://localhost:5672");
    assert_eq!(settings.kafka.brokers, "localhost:9092");
}

#[test]
fn higher_precedence_source_overrides_lower() {
    let override_source = source_of(&[("server.port", "9000"), ("redis.uri", "redis://cache:6379")]);
    let sources = vec![full_default_source(), override_source];
    let settings = Settings::load(&sources).unwrap();
    assert_eq!(settings.server.port, 9000);
    assert_eq!(settings.redis_uri(), "redis://cache:6379");
    assert_eq!(settings.server.host, "0.0.0.0");
}

#[test]
fn within_a_source_the_last_binding_wins() {
    let mut source = full_default_source();
    source
        .pairs
        .push(("server.port".to_string(), "9999".to_string()));
    let sources = vec![source];
    let settings = Settings::load(&sources).unwrap();
    assert_eq!(settings.server.port, 9999);
}

#[test]
fn load_is_deterministic_for_identical_inputs() {
    let sources = vec![
        full_default_source(),
        source_of(&[("server.port", "9000")]),
    ];
    let first = Settings::load(&sources).unwrap();
    let second = Settings::load(&sources).unwrap();
    assert_eq!(first.server.host, second.server.host);
    assert_eq!(first.server.port, second.server.port);
    assert_eq!(first.mysql_uri(), second.mysql_uri());
    assert_eq!(first.mongodb_uri(), second.mongodb_uri());
    assert_eq!(first.redis_uri(), second.redis_uri());
    assert_eq!(first.rabbitmq_uri(), second.rabbitmq_uri());
    assert_eq!(first.kafka.brokers, second.kafka.brokers);
}

#[test]
fn missing_field_is_a_configuration_error() {
    let source = source_of(&[("server.host", "0.0.0.0"), ("server.port", "8080")]);
    let sources = vec![source];
    let err = match Settings::load(&sources) {
        Err(err) => err,
        Ok(_) => panic!("expected a configuration error"),
    };
    let (status, message) = err.status_and_message();
    assert_eq!(status, 500);
    assert!(message.starts_with("configuration error: "));
    assert!(message.contains("mysql.uri"));
}

#[test]
fn malformed_port_is_a_configuration_error() {
    let mut source = full_default_source();
    source
        .pairs
        .push(("server.port".to_string(), "eighty".to_string()));
    let sources = vec![source];
    let err = match Settings::load(&sources) {
        Err(err) => err,
        Ok(_) => panic!("expected a configuration error"),
    };
    let (status, message) = err.status_and_message();
    assert_eq!(status, 500);
    assert!(message.contains("server.port"));
}

#[test]
fn empty_uri_is_rejected() {
    let mut source = full_default_source();
    source.pairs.push(("redis.uri".to_string(), String::new()));
    let sources = vec![source];
    assert!(Settings::load(&sources).is_err());
}

#[test]
fn port_parsing_accepts_exactly_u16_numbers() {
    assert_eq!(parse_port("8080"), Some(8080));
    assert_eq!(parse_port("0"), Some(0));
    assert_eq!(parse_port("65535"), Some(65535));
    assert_eq!(parse_port("070"), Some(70));
    assert_eq!(parse_port("65536"), None);
    assert_eq!(parse_port("99999999"), None);
    assert_eq!(parse_port(""), None);
    assert_eq!(parse_port("80a"), None);
    assert_eq!(parse_port("-1"), None);
    assert_eq!(parse_port(" 80"), None);
}

#[test]
fn env_names_under_the_prefix_map_to_dotted_keys() {
    let pair = env_pair_to_config("APP__SERVER__PORT", &"9000".to_string()).unwrap();
    assert_eq!(pair.0, "server.port");
    assert_eq!(pair.1, "9000");
    let pair = env_pair_to_config("APP__MYSQL__URI", &"mysql://x".to_string()).unwrap();
    assert_eq!(pair.0, "mysql.uri");
    let pair = env_pair_to_config("APP__KAFKA__BROKERS", &"b:9092".to_string()).unwrap();
    assert_eq!(pair.0, "kafka.brokers");
}

#[test]
fn env_names_outside_the_prefix_are_ignored() {
    assert!(env_pair_to_config("PATH", &"/bin".to_string()).is_none());
    assert!(env_pair_to_config("APP_ENV", &"production".to_string()).is_none());
    assert!(env_pair_to_config("APP__", &"x".to_string()).is_none());
    assert!(env_pair_to_config("OTHER__SERVER__PORT", &"1".to_string()).is_none());
}

#[test]
fn env_source_keeps_exactly_the_matching_variables() {
    let raw = vec![
        ("PATH".to_string(), "/bin".to_string()),
        ("APP__SERVER__HOST".to_string(), "127.0.0.1".to_string()),
        ("HOME".to_string(), "/root".to_string()),
        ("APP__REDIS__URI".to_string(), "redis://env:6379".to_string()),
    ];
    let source = env_source(&raw);
    assert_eq!(source.pairs.len(), 2);
    assert_eq!(source.pairs[0].0, "server.host");
    assert_eq!(source.pairs[0].1, "127.0.0.1");
    assert_eq!(source.pairs[1].0, "redis.uri");
    assert_eq!(source.pairs[1].1, "redis://env:6379");
}

#[test]
fn environment_overrides_files_in_the_merge() {
    let env_pairs = vec![("APP__SERVER__PORT".to_string(), "7777".to_string())];
    let sources = vec![full_default_source(), env_source(&env_pairs)];
    let settings = Settings::load(&sources).unwrap();
    assert_eq!(settings.server.port, 7777);
}

#[test]
fn production_override_requires_the_production_indicator() {
    assert!(production_override_applies(Some(&"production".to_string())));
    assert!(!production_override_applies(Some(&"staging".to_string())));
    assert!(!production_override_applies(Some(&"Production".to_string())));
    assert!(!production_override_applies(None));
}
