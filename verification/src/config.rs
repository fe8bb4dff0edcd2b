//! The configuration, and the stages through which it is loaded.
use vstd::prelude::*;

verus! {

/// A route whose latency is measured.
#[derive(Debug, Clone)]
pub struct RouteConfig {
    pub name: String,
    pub url: String,
    /// The name of the [`Auth`] that requests are made with.
    pub auth: Option<String>,
}

/// How requests are authenticated.
#[derive(Debug, Clone)]
pub enum AuthConfig {
    /// With a fixed token.
    Bearer { token: String },
    /// With a token that a Keycloak server hands out.
    OAuth { user: String, pass: String, url: String, client_id: String, realm: String },
    /// With user name and password.
    Basic { user: String, pass: String },
}

/// An [`AuthConfig`] and its name.
#[derive(Debug, Clone)]
pub struct Auth {
    pub name: String,
    pub config: AuthConfig,
}

/// The whole configuration.
#[derive(Debug, Clone)]
pub struct AppConfig {
    pub routes: Vec<RouteConfig>,
    pub auths: Vec<Auth>,
    pub scrape_interval_seconds: u64,
    pub listen_addr: String,
}

/// Why there is no configuration. Each variant holds the words of the cause.
#[derive(Debug)]
pub enum ConfigError {
    /// The file could not be read.
    Read(String),
    /// A variable of the environment could not be put in.
    EnvExpansion(String),
    /// The text is not a configuration.
    Parse(String),
}

impl ConfigError {
    /// What the error says.
    pub open spec fn message_spec(self) -> Seq<char> {
        match self {
            ConfigError::Read(cause) => "Failed to read config file: "@ + cause@,
            ConfigError::EnvExpansion(cause) => "Failed to expand environment variables: "@
                + cause@,
            ConfigError::Parse(cause) => "Failed to parse config YAML: "@ + cause@,
        }
    }

    /// What the error says.
    pub fn message(&self) -> (text: String)
        ensures
            text@ == self.message_spec(),
    {
        match self {
            ConfigError::Read(cause) => "Failed to read config file: ".to_owned().concat(
                cause.as_str(),
            ),
            ConfigError::EnvExpansion(cause) =>
                "Failed to expand environment variables: ".to_owned().concat(cause.as_str()),
            ConfigError::Parse(cause) => "Failed to parse config YAML: ".to_owned().concat(
                cause.as_str(),
            ),
        }
    }
}

/// A variable of the environment.
#[derive(Debug)]
pub struct EnvVar {
    pub name: String,
    /// The value, or the words of the cause for which it cannot be had.
    pub value: Result<String, String>,
}

/// The text of a value, or of the cause for which there is none.
pub open spec fn outcome_text(outcome: Result<String, String>) -> Result<Seq<char>, Seq<char>> {
    match outcome {
        Ok(text) => Ok(text@),
        Err(cause) => Err(cause@),
    }
}

/// The text of the variables `vars`.
pub open spec fn env_text(vars: Seq<EnvVar>) -> Seq<(Seq<char>, Result<Seq<char>, Seq<char>>)> {
    vars.map_values(|var: EnvVar| (var.name@, outcome_text(var.value)))
}

/// The value of the first of `vars` with the name `name`, or that there is none.
pub open spec fn lookup_spec(
    vars: Seq<(Seq<char>, Result<Seq<char>, Seq<char>>)>,
    name: Seq<char>,
) -> Result<Seq<char>, Seq<char>>
    decreases vars.len(),
{
    if vars.len() == 0 {
        Err("environment variable not found"@)
    } else if vars[0].0 == name {
        vars[0].1
    } else {
        lookup_spec(vars.drop_first(), name)
    }
}

/// The value of the first of `vars` with the name `name`, or that there is none.
pub fn lookup_var(vars: &Vec<EnvVar>, name: &str) -> (value: Result<String, String>)
    ensures
        outcome_text(value) == lookup_spec(env_text(vars@), name@),
{
    let wanted = name.to_owned();
    let mut i: usize = 0;
    assert(env_text(vars@).skip(0) =~= env_text(vars@));
    while i < vars.len()
        invariant
            i <= vars@.len(),
            wanted@ == name@,
            lookup_spec(env_text(vars@), name@) == lookup_spec(
                env_text(vars@).skip(i as int),
                name@,
            ),
        decreases vars@.len() - i,
    {
        assert(env_text(vars@).skip(i as int).drop_first() =~= env_text(vars@).skip(
            i as int + 1,
        ));
        if vars[i].name == wanted {
            return match &vars[i].value {
                Ok(text) => Ok(text.clone()),
                Err(cause) => Err(cause.clone()),
            };
        }
        i += 1;
    }
    Err("environment variable not found".to_owned())
}

/// What `shellexpand::env_with_context` makes of the text `raw` where references are looked up
/// in `vars` as [`lookup_spec`] says: the text with the values put in, or the words of the error.
pub uninterp spec fn env_expansion(
    raw: Seq<char>,
    vars: Seq<(Seq<char>, Result<Seq<char>, Seq<char>>)>,
) -> Result<Seq<char>, Seq<char>>;

/// `text` starts as `raw` does before its first dollar sign; without one it is `raw`.
pub open spec fn keeps_plain_text(raw: Seq<char>, text: Seq<char>) -> bool {
    &&& forall|n: int|
        0 <= n <= raw.len() && !(#[trigger] raw.take(n)).contains('$') ==> n <= text.len()
            && text.take(n) == raw.take(n)
    &&& !raw.contains('$') ==> text == raw
}

/// Calls `shellexpand::env_with_context`, which puts values in for references to variables, with
/// the values that [`lookup_var`] finds in `vars`, and gives an error by its words. Claimed: what
/// comes of it depends on the text and the variables alone; only a text with a dollar sign makes
/// for an error; and what stands before the first dollar sign is kept, and everything without
/// one.
#[verifier::external_body]
fn expand_env(raw: &str, vars: &Vec<EnvVar>) -> (expansion: Result<String, String>)
    ensures
        outcome_text(expansion) == env_expansion(raw@, env_text(vars@)),
        expansion is Err ==> raw@.contains('$'),
        expansion matches Ok(text) ==> keeps_plain_text(raw@, text@),
{
    match shellexpand::env_with_context(raw, |name: &str| lookup_var(vars, name).map(Some)) {
        Ok(text) => Ok(text.into_owned()),
        Err(e) => Err(e.to_string()),
    }
}

/// What the outcome of putting in the environment is to the loading of a configuration.
pub fn expansion_outcome(expansion: Result<String, String>) -> (outcome: Result<
    String,
    ConfigError,
>)
    ensures
        outcome == (match expansion {
            Ok(text) => Ok::<String, ConfigError>(text),
            Err(cause) => Err(ConfigError::EnvExpansion(cause)),
        }),
{
    match expansion {
        Ok(text) => Ok(text),
        Err(cause) => Err(ConfigError::EnvExpansion(cause)),
    }
}

/// Given what reading the file gave, the text that is to be parsed: that of the file, with
/// variables of the environment put in.
pub fn load_config(read: Result<String, String>, vars: &Vec<EnvVar>) -> (outcome: Result<
    String,
    ConfigError,
>)
    ensures
        match read {
            Ok(raw) => match (env_expansion(raw@, env_text(vars@)), outcome) {
                (Ok(expanded), Ok(text)) => text@ == expanded && keeps_plain_text(raw@, text@),
                (Err(words), Err(ConfigError::EnvExpansion(cause))) => cause@ == words
                    && raw@.contains('$'),
                _ => false,
            },
            Err(cause) => outcome == Err::<String, ConfigError>(ConfigError::Read(cause)),
        },
{
    match read {
        Ok(raw) => expansion_outcome(expand_env(raw.as_str(), vars)),
        Err(cause) => Err(ConfigError::Read(cause)),
    }
}

/// What the outcome of parsing the text is to the loading of a configuration.
pub fn parse_outcome(parsed: Result<AppConfig, String>) -> (outcome: Result<
    AppConfig,
    ConfigError,
>)
    ensures
        outcome == (match parsed {
            Ok(config) => Ok::<AppConfig, ConfigError>(config),
            Err(cause) => Err(ConfigError::Parse(cause)),
        }),
{
    match parsed {
        Ok(config) => Ok(config),
        Err(cause) => Err(ConfigError::Parse(cause)),
    }
}

/// The value that is found for a name is that of the first variable of which it is the whole
/// name, or the cause for which that one cannot be had. Where it is the name of none, it is said
/// so.
pub proof fn law_first_variable_of_the_name_is_found(
    vars: Seq<EnvVar>,
    name: Seq<char>,
    value: Result<String, String>,
)
    requires
        outcome_text(value) == lookup_spec(env_text(vars), name),
    ensures
        (exists|i: int|
            0 <= i < vars.len() && (#[trigger] vars[i]).name@ == name && (forall|j: int|
                0 <= j < i ==> (#[trigger] vars[j]).name@ != name) && match (value, vars[i].value) {
                (Ok(text), Ok(set)) => text@ == set@,
                (Err(cause), Err(words)) => cause@ == words@,
                _ => false,
            }) || (forall|i: int| 0 <= i < vars.len() ==> (#[trigger] vars[i]).name@ != name) && (
        value matches Err(cause) && cause@ == "environment variable not found"@),
    decreases vars.len(),
{
    if vars.len() > 0 {
        let rest = vars.drop_first();
        assert(env_text(vars).drop_first() =~= env_text(rest));
        if vars[0].name@ != name {
            law_first_variable_of_the_name_is_found(rest, name, value);
            assert forall|j: int| 0 < j < vars.len() implies #[trigger] vars[j] == rest[j - 1] by {}
            if exists|i: int| 0 <= i < rest.len() && (#[trigger] rest[i]).name@ == name {
                let i = choose|i: int|
                    0 <= i < rest.len() && (#[trigger] rest[i]).name@ == name && (forall|j: int|
                        0 <= j < i ==> (#[trigger] rest[j]).name@ != name);
                assert(vars[i + 1] == rest[i]);
            }
        }
    }
}

/// A variable takes part in what is put in with its whole name, and its whole value or the cause
/// for which that cannot be had.
pub proof fn law_variables_are_taken_whole(vars: Seq<EnvVar>, i: int)
    requires
        0 <= i < vars.len(),
    ensures
        env_text(vars).len() == vars.len(),
        env_text(vars)[i].0 == vars[i].name@,
        match (env_text(vars)[i].1, vars[i].value) {
            (Ok(text), Ok(value)) => text == value@,
            (Err(text), Err(cause)) => text == cause@,
            _ => false,
        },
{
}

/// An error says what failed, and then the cause in its own words, all of them.
pub proof fn law_errors_say_their_cause(cause: String)
    ensures
        ConfigError::Read(cause).message_spec() == "Failed to read config file: "@ + cause@,
        ConfigError::EnvExpansion(cause).message_spec()
            == "Failed to expand environment variables: "@ + cause@,
        ConfigError::Parse(cause).message_spec() == "Failed to parse config YAML: "@ + cause@,
{
}

/// Text that keeps what is plain is the same text where there is no dollar sign, and otherwise
/// agrees in every character before the first one.
pub proof fn law_plain_text_is_kept(raw: Seq<char>, text: Seq<char>, i: int)
    requires
        keeps_plain_text(raw, text),
        0 <= i < raw.len(),
        forall|j: int| 0 <= j <= i ==> #[trigger] raw[j] != '$',
    ensures
        i < text.len() && text[i] == raw[i],
        !raw.contains('$') ==> text == raw,
{
    let start = raw.take(i + 1);
    assert(!start.contains('$'));
    assert(text.take(i + 1)[i] == start[i]);
}

/// What is found for a name is the value of the first variable of which it is the whole name, or
/// the cause for which that one cannot be had; and that there is none, where it is the name of
/// none.
pub proof fn law_found_value_is_that_of_the_named_variable(
    vars: &Vec<EnvVar>,
    name: &str,
    value: Result<String, String>,
    i: int,
)
    requires
        call_ensures(lookup_var, (vars, name), value),
        0 <= i <= vars@.len(),
        forall|j: int| 0 <= j < i ==> (#[trigger] vars@[j]).name@ != name@,
        i < vars@.len() ==> vars@[i].name@ == name@,
    ensures
        if i < vars@.len() {
            match (value, vars@[i].value) {
                (Ok(text), Ok(set)) => text@ == set@,
                (Err(cause), Err(words)) => cause@ == words@,
                _ => false,
            }
        } else {
            value matches Err(cause) && cause@ == "environment variable not found"@
        },
{
    law_first_variable_of_the_name_is_found(vars@, name@, value);
    if i < vars@.len() {
        assert(vars@[i].name@ == name@);
    }
}

/// A file that could not be read makes for an error of reading, with the same cause, and nothing
/// else does. A file that was read makes for a text to be parsed or for an error of putting in
/// variables, and without a dollar sign for the text of the file itself.
pub proof fn law_loading_reports_what_failed(
    read: Result<String, String>,
    vars: &Vec<EnvVar>,
    outcome: Result<String, ConfigError>,
)
    requires
        call_ensures(load_config, (read, vars), outcome),
    ensures
        match outcome {
            Ok(text) => read matches Ok(raw) && (!raw@.contains('$') ==> text@ == raw@),
            Err(ConfigError::Read(cause)) => read == Err::<String, String>(cause),
            Err(ConfigError::EnvExpansion(_)) => read matches Ok(raw) && raw@.contains('$'),
            Err(ConfigError::Parse(_)) => false,
        },
        read is Err ==> outcome is Err,
{
}

/// Putting in variables, and parsing, hand on what they gave where they succeeded, and the cause
/// where they failed, told apart by the kind of the error.
pub proof fn law_stages_hand_on_their_outcome(
    expansion: Result<String, String>,
    expanded: Result<String, ConfigError>,
    parsed: Result<AppConfig, String>,
    config: Result<AppConfig, ConfigError>,
)
    requires
        call_ensures(expansion_outcome, (expansion,), expanded),
        call_ensures(parse_outcome, (parsed,), config),
    ensures
        match (expansion, expanded) {
            (Ok(text), Ok(same)) => same == text,
            (Err(cause), Err(ConfigError::EnvExpansion(same))) => same == cause,
            _ => false,
        },
        match (parsed, config) {
            (Ok(read), Ok(same)) => same == read,
            (Err(cause), Err(ConfigError::Parse(same))) => same == cause,
            _ => false,
        },
{
}

/// The message of an error ends with the cause, all of it; before it stands what failed.
pub proof fn law_message_ends_with_the_cause(e: &ConfigError, text: String)
    requires
        call_ensures(ConfigError::message, (e,), text),
    ensures
        match e {
            ConfigError::Read(cause) => text@ == "Failed to read config file: "@ + cause@,
            ConfigError::EnvExpansion(cause) => text@
                == "Failed to expand environment variables: "@ + cause@,
            ConfigError::Parse(cause) => text@ == "Failed to parse config YAML: "@ + cause@,
        },
{
}

} // verus!
