use rest_latency::config::{
    expansion_outcome, load_config, lookup_var, parse_outcome, AppConfig, ConfigError, EnvVar,
};

fn config() -> AppConfig {
    AppConfig {
        routes: vec![],
        auths: vec![],
        scrape_interval_seconds: 15,
        listen_addr: "127.0.0.1:9090".to_string(),
    }
}

fn var(name: &str, value: &str) -> EnvVar {
    EnvVar { name: name.to_string(), value: Ok(value.to_string()) }
}

fn expanded(raw: &str) -> Result<String, ConfigError> {
    let vars = vec![
        var("USER", "me"),
        var("TOKEN", "a$USER"),
        EnvVar { name: "BROKEN".to_string(), value: Err("not valid".to_string()) },
        var("USER", "shadowed"),
        var("EMPTY", ""),
    ];
    load_config(Ok(raw.to_string()), &vars)
}

#[test]
fn unreadable_file_is_a_read_error() {
    let error = load_config(Err("no such file".to_string()), &vec![]).unwrap_err();
    assert!(matches!(&error, ConfigError::Read(cause) if cause == "no such file"));
    assert_eq!(error.message(), "Failed to read config file: no such file");
}

#[test]
fn text_without_references_is_parsed_as_it_is() {
    let text = "routes: []\nauths: []\n# ~ and {} are kept: \u{e9}\n";
    assert_eq!(expanded(text).unwrap(), text);
    assert_eq!(expanded("").unwrap(), "");
}

#[test]
fn references_are_put_in() {
    assert_eq!(expanded("user: $USER, ${USER}s").unwrap(), "user: me, mes");
    assert_eq!(expanded("token: $TOKEN").unwrap(), "token: a$USER");
    assert_eq!(expanded("[${EMPTY}] ${NOBODY:-fallback} $$5").unwrap(), "[] fallback $5");
}

#[test]
fn reference_to_nothing_is_an_expansion_error() {
    let error = expanded("token: $NOBODY").unwrap_err();
    assert!(matches!(error, ConfigError::EnvExpansion(_)));
    assert_eq!(
        error.message(),
        "Failed to expand environment variables: error looking key 'NOBODY' up: \
         environment variable not found"
    );
    let error = expanded("token: ${BROKEN}").unwrap_err();
    assert_eq!(
        error.message(),
        "Failed to expand environment variables: error looking key 'BROKEN' up: not valid"
    );
}

#[test]
fn first_variable_of_a_name_is_found() {
    let vars = vec![var("A", "1"), var("B", "2"), var("A", "3")];
    assert_eq!(lookup_var(&vars, "A"), Ok("1".to_string()));
    assert_eq!(lookup_var(&vars, "B"), Ok("2".to_string()));
    assert_eq!(lookup_var(&vars, "C"), Err("environment variable not found".to_string()));
}

#[test]
fn outcome_of_the_expansion_decides() {
    assert_eq!(expansion_outcome(Ok("text".to_string())).unwrap(), "text");
    let error = expansion_outcome(Err("cause".to_string())).unwrap_err();
    assert!(matches!(&error, ConfigError::EnvExpansion(cause) if cause == "cause"));
}

#[test]
fn text_that_is_no_configuration_is_a_parse_error() {
    assert_eq!(parse_outcome(Ok(config())).unwrap().scrape_interval_seconds, 15);
    let error = parse_outcome(Err("bad indent".to_string())).unwrap_err();
    assert!(matches!(&error, ConfigError::Parse(cause) if cause == "bad indent"));
    assert_eq!(error.message(), "Failed to parse config YAML: bad indent");
}
