//! Layered configuration. A list of sources — default file, optional
//! environment-specific override, process environment — is merged in
//! increasing precedence into one validated [`Settings`] value. A source is
//! an ordered list of dotted-key/value pairs; within a source the last
//! binding of a key wins, and a higher-precedence source overrides a lower
//! one. Environment variables reach the merge through the fixed prefix and
//! the double-underscore nesting separator.

use vstd::prelude::*;
use crate::error::AppError;
use crate::secret::SecretValue;

verus! {

/// Where the service listens.
pub struct ServerSettings {
    pub host: String,
    pub port: u16,
}

/// Connection settings of the relational pool.
pub struct MySqlSettings {
    pub uri: SecretValue,
}

/// Connection settings of the document-store client.
pub struct MongoSettings {
    pub uri: SecretValue,
}

/// Connection settings of the cache client.
pub struct RedisSettings {
    pub uri: SecretValue,
}

/// Connection settings of the message-queue connection.
pub struct RabbitSettings {
    pub uri: SecretValue,
}

/// Settings of the stream producer; the broker list is not a secret.
pub struct KafkaSettings {
    pub brokers: String,
}

/// The validated, immutable settings value assembled once at startup.
pub struct Settings {
    pub server: ServerSettings,
    pub mysql: MySqlSettings,
    pub mongodb: MongoSettings,
    pub redis: RedisSettings,
    pub rabbitmq: RabbitSettings,
    pub kafka: KafkaSettings,
}

/// The mathematical content of a [`Settings`] value: every field as the
/// character sequence (or number) it holds, secrets included.
pub struct SettingsModel {
    pub host: Seq<char>,
    pub port: u16,
    pub mysql_uri: Seq<char>,
    pub mongodb_uri: Seq<char>,
    pub redis_uri: Seq<char>,
    pub rabbitmq_uri: Seq<char>,
    pub brokers: Seq<char>,
}

impl View for Settings {
    type V = SettingsModel;

    open spec fn view(&self) -> SettingsModel {
        SettingsModel {
            host: self.server.host@,
            port: self.server.port,
            mysql_uri: self.mysql.uri@,
            mongodb_uri: self.mongodb.uri@,
            redis_uri: self.redis.uri@,
            rabbitmq_uri: self.rabbitmq.uri@,
            brokers: self.kafka.brokers@,
        }
    }
}

/// One configuration source: an ordered list of dotted-key/value pairs, as
/// read from a file or derived from the environment.
pub struct ConfigSource {
    pub pairs: Vec<(String, String)>,
}

/// The value a key has within one source: the last binding wins.
pub open spec fn lookup_pairs(pairs: Seq<(String, String)>, key: Seq<char>) -> Option<Seq<char>>
    decreases pairs.len(),
{
    if pairs.len() == 0 {
        None
    } else if pairs.last().0@ == key {
        Some(pairs.last().1@)
    } else {
        lookup_pairs(pairs.drop_last(), key)
    }
}

/// The merged value of a key: the highest-precedence source (last in the
/// list) that binds the key wins.
pub open spec fn merged_lookup(sources: Seq<ConfigSource>, key: Seq<char>) -> Option<Seq<char>>
    decreases sources.len(),
{
    if sources.len() == 0 {
        None
    } else if lookup_pairs(sources.last().pairs@, key) is Some {
        lookup_pairs(sources.last().pairs@, key)
    } else {
        merged_lookup(sources.drop_last(), key)
    }
}

/// Looks a key up within one source; the last binding of the key wins.
pub fn lookup_in_source(source: &ConfigSource, key: &String) -> (r: Option<String>)
    ensures
        r is Some <==> lookup_pairs(source.pairs@, key@) is Some,
        r matches Some(v) ==> lookup_pairs(source.pairs@, key@) == Some(v@),
{
    let mut i: usize = source.pairs.len();
    proof {
        assert(source.pairs@.take(source.pairs@.len() as int) =~= source.pairs@);
    }
    while i > 0
        invariant
            i <= source.pairs@.len(),
            lookup_pairs(source.pairs@, key@) == lookup_pairs(source.pairs@.take(i as int), key@),
        decreases i,
    {
        let idx = i - 1;
        proof {
            assert(source.pairs@.take(i as int).last() == source.pairs@[idx as int]);
            assert(source.pairs@.take(i as int).drop_last() =~= source.pairs@.take(idx as int));
        }
        if source.pairs[idx].0 == *key {
            proof {
                assert(lookup_pairs(source.pairs@.take(i as int), key@) == Some(
                    source.pairs@[idx as int].1@,
                ));
            }
            return Some(source.pairs[idx].1.clone());
        }
        i = idx;
    }
    None
}

/// Looks a key up across the merged sources, highest precedence first.
pub fn merged_lookup_value(sources: &Vec<ConfigSource>, key: &String) -> (r: Option<String>)
    ensures
        r is Some <==> merged_lookup(sources@, key@) is Some,
        r matches Some(v) ==> merged_lookup(sources@, key@) == Some(v@),
{
    let mut i: usize = sources.len();
    proof {
        assert(sources@.take(sources@.len() as int) =~= sources@);
    }
    while i > 0
        invariant
            i <= sources@.len(),
            merged_lookup(sources@, key@) == merged_lookup(sources@.take(i as int), key@),
        decreases i,
    {
        let idx = i - 1;
        proof {
            assert(sources@.take(i as int).last() == sources@[idx as int]);
            assert(sources@.take(i as int).drop_last() =~= sources@.take(idx as int));
        }
        match lookup_in_source(&sources[idx], key) {
            Some(v) => {
                return Some(v);
            },
            None => {},
        }
        i = idx;
    }
    None
}

/// Whether the character is a decimal digit.
pub open spec fn is_dec_digit(c: char) -> bool {
    48 <= c as u32 && c as u32 <= 57
}

/// The number a string of decimal digits denotes.
pub open spec fn digits_value(s: Seq<char>) -> int
    decreases s.len(),
{
    if s.len() == 0 {
        0
    } else {
        digits_value(s.drop_last()) * 10 + (s.last() as u32 - 48)
    }
}

/// Whether the string denotes a 16-bit unsigned port number: non-empty,
/// digits only, value at most 65535.
pub open spec fn is_u16_string(s: Seq<char>) -> bool {
    &&& s.len() > 0
    &&& forall|i: int| 0 <= i < s.len() ==> is_dec_digit(#[trigger] s[i])
    &&& digits_value(s) <= 65535
}

proof fn lemma_digits_value_nonneg(s: Seq<char>)
    requires
        forall|i: int| 0 <= i < s.len() ==> is_dec_digit(#[trigger] s[i]),
    ensures
        digits_value(s) >= 0,
    decreases s.len(),
{
    if s.len() > 0 {
        assert(forall|i: int|
            0 <= i < s.drop_last().len() ==> is_dec_digit(#[trigger] s.drop_last()[i]));
        lemma_digits_value_nonneg(s.drop_last());
    }
}

proof fn lemma_digits_value_extend(s: Seq<char>, i: int)
    requires
        0 <= i <= s.len(),
        forall|j: int| 0 <= j < s.len() ==> is_dec_digit(#[trigger] s[j]),
    ensures
        digits_value(s.take(i)) <= digits_value(s),
    decreases s.len() - i,
{
    if i == s.len() {
        assert(s.take(i) =~= s);
    } else {
        assert(s.take(i + 1).drop_last() =~= s.take(i));
        assert(s.take(i + 1).last() == s[i]);
        assert(forall|j: int| 0 <= j < s.take(i).len() ==> is_dec_digit(#[trigger] s.take(i)[j]));
        lemma_digits_value_nonneg(s.take(i));
        assert(digits_value(s.take(i)) <= digits_value(s.take(i + 1)));
        lemma_digits_value_extend(s, i + 1);
    }
}

/// Parses a port number: accepts exactly the non-empty all-digit strings
/// whose value fits in sixteen bits, and returns that value.
pub fn parse_port(s: &str) -> (r: Option<u16>)
    ensures
        r is Some <==> is_u16_string(s@),
        r matches Some(p) ==> p as int == digits_value(s@),
{
    let n = s.unicode_len();
    if n == 0 {
        return None;
    }
    let mut i: usize = 0;
    let mut acc: u32 = 0;
    while i < n
        invariant
            n == s@.len(),
            i <= n,
            forall|j: int| 0 <= j < i ==> is_dec_digit(#[trigger] s@[j]),
            acc as int == digits_value(s@.take(i as int)),
            acc <= 65535,
        decreases n - i,
    {
        let c = s.get_char(i);
        let code = c as u32;
        if code < 48 || code > 57 {
            assert(!is_dec_digit(s@[i as int]));
            return None;
        }
        let d = code - 48;
        let acc2 = acc * 10 + d;
        proof {
            assert(s@.take(i as int + 1).drop_last() =~= s@.take(i as int));
            assert(s@.take(i as int + 1).last() == s@[i as int]);
        }
        if acc2 > 65535 {
            proof {
                if is_u16_string(s@) {
                    lemma_digits_value_extend(s@, i as int + 1);
                }
            }
            return None;
        }
        acc = acc2;
        i = i + 1;
    }
    proof {
        assert(s@.take(n as int) =~= s@);
    }
    Some(acc as u16)
}

/// The lower-case form of an upper-case ASCII letter; other characters are
/// kept as they are.
pub open spec fn lower_char(c: char) -> char {
    if 65 <= c as u32 && c as u32 <= 90 {
        ((c as u32 + 32) as u8) as char
    } else {
        c
    }
}

/// The dotted key an environment-variable name maps to, read from position
/// `i` on: each double underscore becomes a dot, every other character is
/// lower-cased.
pub open spec fn env_key_suffix(s: Seq<char>, i: int) -> Seq<char>
    decreases s.len() - i,
    when 0 <= i <= s.len()
{
    if i >= s.len() {
        Seq::empty()
    } else if i + 1 < s.len() && s[i] == '_' && s[i + 1] == '_' {
        seq!['.'] + env_key_suffix(s, i + 2)
    } else {
        seq![lower_char(s[i])] + env_key_suffix(s, i + 1)
    }
}

/// Whether an environment-variable name belongs to this service: the fixed
/// prefix, the separator, and at least one character after them.
pub open spec fn env_name_matches(name: Seq<char>) -> bool {
    &&& name.len() > 5
    &&& name[0] == 'A'
    &&& name[1] == 'P'
    &&& name[2] == 'P'
    &&& name[3] == '_'
    &&& name[4] == '_'
}

/// The dotted key of a matching environment-variable name.
pub open spec fn env_key_of(name: Seq<char>) -> Seq<char>
    recommends
        env_name_matches(name),
{
    env_key_suffix(name, 5)
}

/// Relies on std's `String::push`, which appends exactly the given
/// character.
#[verifier::external_body]
fn push_char(s: &mut String, c: char)
    ensures
        final(s)@ == old(s)@ + seq![c],
{
    s.push(c);
}

/// Maps one environment variable to its configuration pair: a name under
/// the fixed prefix becomes the dotted, lower-cased key; any other name is
/// not part of the configuration.
pub fn env_pair_to_config(name: &str, value: &String) -> (r: Option<(String, String)>)
    ensures
        r is Some <==> env_name_matches(name@),
        r matches Some(p) ==> p.0@ == env_key_of(name@) && p.1@ == value@,
{
    let n = name.unicode_len();
    if n <= 5 {
        return None;
    }
    if name.get_char(0) != 'A' || name.get_char(1) != 'P' || name.get_char(2) != 'P'
        || name.get_char(3) != '_' || name.get_char(4) != '_' {
        return None;
    }
    let mut out = String::new();
    let mut i: usize = 5;
    while i < n
        invariant
            n == name@.len(),
            5 <= i <= n,
            env_key_suffix(name@, 5) == out@ + env_key_suffix(name@, i as int),
        decreases n - i,
    {
        let c = name.get_char(i);
        if i + 1 < n && c == '_' && name.get_char(i + 1) == '_' {
            push_char(&mut out, '.');
            proof {
                assert(env_key_suffix(name@, i as int) =~= seq!['.'] + env_key_suffix(
                    name@,
                    i as int + 2,
                ));
                assert(env_key_suffix(name@, 5) =~= out@ + env_key_suffix(name@, i as int + 2));
            }
            i = i + 2;
        } else {
            let code = c as u32;
            let lc: char = if code >= 65 && code <= 90 {
                ((code + 32) as u8) as char
            } else {
                c
            };
            assert(lc == lower_char(name@[i as int]));
            push_char(&mut out, lc);
            proof {
                assert(env_key_suffix(name@, 5) =~= out@ + env_key_suffix(name@, i as int + 1));
            }
            i = i + 1;
        }
    }
    proof {
        assert(env_key_suffix(name@, 5) =~= out@);
    }
    Some((out, value.clone()))
}

/// The configuration pairs the raw environment contributes, in order: one
/// pair per matching variable, with its mapped key.
pub open spec fn env_pairs_model(pairs: Seq<(String, String)>) -> Seq<(Seq<char>, Seq<char>)>
    decreases pairs.len(),
{
    if pairs.len() == 0 {
        Seq::empty()
    } else {
        let rest = env_pairs_model(pairs.drop_last());
        let p = pairs.last();
        if env_name_matches(p.0@) {
            rest + seq![(env_key_of(p.0@), p.1@)]
        } else {
            rest
        }
    }
}

/// The pairs of a source, as character sequences.
pub open spec fn source_model(s: &ConfigSource) -> Seq<(Seq<char>, Seq<char>)> {
    s.pairs@.map_values(|p: (String, String)| (p.0@, p.1@))
}

/// Builds the environment source from the raw process environment: keeps
/// exactly the variables under the fixed prefix, with their mapped keys, in
/// their given order.
pub fn env_source(env_pairs: &Vec<(String, String)>) -> (r: ConfigSource)
    ensures
        source_model(&r) == env_pairs_model(env_pairs@),
{
    let mut out: Vec<(String, String)> = Vec::new();
    let mut i: usize = 0;
    while i < env_pairs.len()
        invariant
            i <= env_pairs@.len(),
            out@.map_values(|p: (String, String)| (p.0@, p.1@)) == env_pairs_model(
                env_pairs@.take(i as int),
            ),
        decreases env_pairs@.len() - i,
    {
        proof {
            assert(env_pairs@.take(i as int + 1).drop_last() =~= env_pairs@.take(i as int));
            assert(env_pairs@.take(i as int + 1).last() == env_pairs@[i as int]);
        }
        let p = &env_pairs[i];
        match env_pair_to_config(p.0.as_str(), &p.1) {
            Some(kv) => {
                out.push(kv);
            },
            None => {},
        }
        proof {
            assert(out@.map_values(|p: (String, String)| (p.0@, p.1@)) =~= env_pairs_model(
                env_pairs@.take(i as int + 1),
            ));
        }
        i = i + 1;
    }
    proof {
        assert(env_pairs@.take(env_pairs@.len() as int) =~= env_pairs@);
    }
    ConfigSource { pairs: out }
}

/// Decides whether the environment-specific override file applies: exactly
/// when the environment indicator names production.
pub fn production_override_applies(env_value: Option<&String>) -> (r: bool)
    ensures
        r == (env_value matches Some(v) && v@ == "production"@),
{
    match env_value {
        Some(v) => {
            let expected = String::from_str("production");
            *v == expected
        },
        None => false,
    }
}

/// Whether the merged sources satisfy the full settings schema: every
/// required field present, the port a valid 16-bit number, every URI
/// non-empty.
pub open spec fn config_is_valid(sources: Seq<ConfigSource>) -> bool {
    &&& merged_lookup(sources, "server.host"@) is Some
    &&& merged_lookup(sources, "server.port"@) matches Some(p) && is_u16_string(p)
    &&& merged_lookup(sources, "mysql.uri"@) matches Some(u) && u.len() > 0
    &&& merged_lookup(sources, "mongodb.uri"@) matches Some(u) && u.len() > 0
    &&& merged_lookup(sources, "redis.uri"@) matches Some(u) && u.len() > 0
    &&& merged_lookup(sources, "rabbitmq.uri"@) matches Some(u) && u.len() > 0
    &&& merged_lookup(sources, "kafka.brokers"@) is Some
}

/// The one settings value a valid list of sources merges to.
pub open spec fn spec_settings_of(sources: Seq<ConfigSource>) -> Option<SettingsModel> {
    if config_is_valid(sources) {
        Some(SettingsModel {
            host: merged_lookup(sources, "server.host"@)->0,
            port: digits_value(merged_lookup(sources, "server.port"@)->0) as u16,
            mysql_uri: merged_lookup(sources, "mysql.uri"@)->0,
            mongodb_uri: merged_lookup(sources, "mongodb.uri"@)->0,
            redis_uri: merged_lookup(sources, "redis.uri"@)->0,
            rabbitmq_uri: merged_lookup(sources, "rabbitmq.uri"@)->0,
            brokers: merged_lookup(sources, "kafka.brokers"@)->0,
        })
    } else {
        None
    }
}

impl Settings {
    /// Merges the sources, lowest precedence first, and validates the
    /// result against the settings schema. Succeeds exactly on the source
    /// lists whose merge satisfies the schema, and then returns the one
    /// settings value they denote; otherwise the configuration error says
    /// what is missing or malformed.
    pub fn load(sources: &Vec<ConfigSource>) -> (r: Result<Settings, AppError>)
        ensures
            r is Ok <==> config_is_valid(sources@),
            r matches Ok(s) ==> spec_settings_of(sources@) == Some(s@),
            r matches Err(e) ==> e is Configuration,
    {
        let host = match merged_lookup_value(sources, &String::from_str("server.host")) {
            Some(v) => v,
            None => {
                return Err(
                    AppError::Configuration(String::from_str("missing setting: server.host")),
                );
            },
        };
        let port_text = match merged_lookup_value(sources, &String::from_str("server.port")) {
            Some(v) => v,
            None => {
                return Err(
                    AppError::Configuration(String::from_str("missing setting: server.port")),
                );
            },
        };
        let port = match parse_port(port_text.as_str()) {
            Some(p) => p,
            None => {
                return Err(
                    AppError::Configuration(
                        String::from_str("malformed setting: server.port is not a 16-bit number"),
                    ),
                );
            },
        };
        let mysql_uri = match merged_lookup_value(sources, &String::from_str("mysql.uri")) {
            Some(v) => v,
            None => {
                return Err(AppError::Configuration(String::from_str("missing setting: mysql.uri")));
            },
        };
        if mysql_uri.as_str().is_empty() {
            return Err(AppError::Configuration(String::from_str("empty setting: mysql.uri")));
        }
        let mongodb_uri = match merged_lookup_value(sources, &String::from_str("mongodb.uri")) {
            Some(v) => v,
            None => {
                return Err(
                    AppError::Configuration(String::from_str("missing setting: mongodb.uri")),
                );
            },
        };
        if mongodb_uri.as_str().is_empty() {
            return Err(AppError::Configuration(String::from_str("empty setting: mongodb.uri")));
        }
        let redis_uri = match merged_lookup_value(sources, &String::from_str("redis.uri")) {
            Some(v) => v,
            None => {
                return Err(AppError::Configuration(String::from_str("missing setting: redis.uri")));
            },
        };
        if redis_uri.as_str().is_empty() {
            return Err(AppError::Configuration(String::from_str("empty setting: redis.uri")));
        }
        let rabbitmq_uri = match merged_lookup_value(sources, &String::from_str("rabbitmq.uri")) {
            Some(v) => v,
            None => {
                return Err(
                    AppError::Configuration(String::from_str("missing setting: rabbitmq.uri")),
                );
            },
        };
        if rabbitmq_uri.as_str().is_empty() {
            return Err(AppError::Configuration(String::from_str("empty setting: rabbitmq.uri")));
        }
        let brokers = match merged_lookup_value(sources, &String::from_str("kafka.brokers")) {
            Some(v) => v,
            None => {
                return Err(
                    AppError::Configuration(String::from_str("missing setting: kafka.brokers")),
                );
            },
        };
        Ok(
            Settings {
                server: ServerSettings { host, port },
                mysql: MySqlSettings { uri: SecretValue::new(mysql_uri) },
                mongodb: MongoSettings { uri: SecretValue::new(mongodb_uri) },
                redis: RedisSettings { uri: SecretValue::new(redis_uri) },
                rabbitmq: RabbitSettings { uri: SecretValue::new(rabbitmq_uri) },
                kafka: KafkaSettings { brokers },
            },
        )
    }

    /// The relational connection string, revealed for the driver.
    pub fn mysql_uri(&self) -> (r: &str)
        ensures
            r@ == self@.mysql_uri,
    {
        self.mysql.uri.expose()
    }

    /// The document-store connection string, revealed for the driver.
    pub fn mongodb_uri(&self) -> (r: &str)
        ensures
            r@ == self@.mongodb_uri,
    {
        self.mongodb.uri.expose()
    }

    /// The cache connection string, revealed for the driver.
    pub fn redis_uri(&self) -> (r: &str)
        ensures
            r@ == self@.redis_uri,
    {
        self.redis.uri.expose()
    }

    /// The message-queue connection string, revealed for the driver.
    pub fn rabbitmq_uri(&self) -> (r: &str)
        ensures
            r@ == self@.rabbitmq_uri,
    {
        self.rabbitmq.uri.expose()
    }
}

/// Law: configuration loading is deterministic. A list of sources merges to
/// at most one settings value, so two loads of identical inputs agree on
/// every field, secrets included.
pub proof fn lemma_load_deterministic(s1: &Settings, s2: &Settings, sources: Seq<ConfigSource>)
    requires
        spec_settings_of(sources) == Some(s1@),
        spec_settings_of(sources) == Some(s2@),
    ensures
        s1@ == s2@,
{
}

} // verus!
