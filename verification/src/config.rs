//! The agent's settings, computed from the values of its environment variables.

use vstd::prelude::*;
use crate::text::{
    is_whitespace, law_split_join, law_split_pieces_lack_separator, law_trim_settles,
    lemma_trimmed_end_shape, lemma_trimmed_start_shape, split, split_char, strings_view, trim,
    trimmed, trimmed_start,
};
use crate::number::{parse_usize, parsed_usize};

verus! {

/// The agent's settings.
#[derive(Debug, Clone)]
pub struct Config {
    pub nats_url: String,
    pub nats_stream_name: String,
    pub nats_subjects: Vec<String>,
    pub nats_consumer_name: String,
    pub batch_size: usize,
    pub otel_service_name: String,
    pub otel_endpoint: Option<String>,
}

/// The values of the variables that configure the agent, `None` for one that is unset.
/// `NATS_URL`, `NATS_STREAM_NAME`, `NATS_SUBJECTS`, `NATS_CONSUMER_NAME`,
/// `BATCH_SIZE`, `OTEL_SERVICE_NAME`, `OTEL_EXPORTER_OTLP_ENDPOINT`, in field order.
#[derive(Debug, Clone)]
pub struct ConfigVars {
    pub nats_url: Option<String>,
    pub nats_stream_name: Option<String>,
    pub nats_subjects: Option<String>,
    pub nats_consumer_name: Option<String>,
    pub batch_size: Option<String>,
    pub otel_service_name: Option<String>,
    pub otel_endpoint: Option<String>,
}

/// Why the settings could not be made.
#[derive(Debug, Clone, PartialEq, Eq, Structural)]
pub enum ConfigError {
    /// `BATCH_SIZE` is not a count that fits in a `usize`.
    InvalidBatchSize,
}

impl ConfigError {
    /// The text that describes the error.
    pub fn message(&self) -> (s: String)
        ensures
            s@ == "BATCH_SIZE must be a valid integer"@,
    {
        "BATCH_SIZE must be a valid integer".to_owned()
    }
}

/// The view of an optional string.
pub open spec fn opt_view(v: Option<String>) -> Option<Seq<char>> {
    match v {
        Some(s) => Some(s@),
        None => None,
    }
}

/// The value of a variable, or `default` when it is unset.
pub open spec fn value_or(v: Option<String>, default: Seq<char>) -> Seq<char> {
    match v {
        Some(s) => s@,
        None => default,
    }
}

/// The subjects that a comma-separated list names, each trimmed.
pub open spec fn subject_list(s: Seq<char>) -> Seq<Seq<char>> {
    split_char(s, ',').map_values(|p: Seq<char>| trimmed(p))
}

/// The text of `BATCH_SIZE`, or its default.
pub open spec fn batch_text(vars: ConfigVars) -> Seq<char> {
    value_or(vars.batch_size, "10"@)
}

/// What the settings are for the given variables, provided `BATCH_SIZE` reads as a count.
pub open spec fn config_matches(c: Config, vars: ConfigVars) -> bool {
    &&& c.nats_url@ == value_or(vars.nats_url, "nats://localhost:4222"@)
    &&& c.nats_stream_name@ == value_or(vars.nats_stream_name, "events"@)
    &&& strings_view(c.nats_subjects@) == subject_list(value_or(vars.nats_subjects, "events.>"@))
    &&& c.nats_consumer_name@ == value_or(vars.nats_consumer_name, "all-events2"@)
    &&& parsed_usize(batch_text(vars)) == Some(c.batch_size)
    &&& c.otel_service_name@ == value_or(vars.otel_service_name, "nats-agent"@)
    &&& opt_view(c.otel_endpoint) == opt_view(vars.otel_endpoint)
}

fn string_or(v: &Option<String>, default: &str) -> (s: String)
    ensures
        s@ == value_or(*v, default@),
{
    match v {
        Some(x) => x.clone(),
        None => default.to_owned(),
    }
}

fn trim_each(pieces: Vec<String>) -> (v: Vec<String>)
    ensures
        strings_view(v@) == strings_view(pieces@).map_values(|p: Seq<char>| trimmed(p)),
{
    let mut v: Vec<String> = Vec::new();
    let mut i: usize = 0;
    while i < pieces.len()
        invariant
            i <= pieces.len(),
            strings_view(v@) == strings_view(pieces@).map_values(|p: Seq<char>| trimmed(p)).take(
                i as int,
            ),
        decreases pieces.len() - i,
    {
        let t = trim(pieces[i].as_str());
        let ghost old_v = v@;
        v.push(t);
        assert(strings_view(v@) =~= strings_view(old_v).push(t@));
        assert(strings_view(v@) =~= strings_view(pieces@).map_values(|p: Seq<char>| trimmed(p)).take(
            i + 1 as int,
        ));
        i = i + 1;
    }
    assert(strings_view(pieces@).map_values(|p: Seq<char>| trimmed(p)).take(pieces.len() as int)
        =~= strings_view(pieces@).map_values(|p: Seq<char>| trimmed(p)));
    v
}

/// The subjects that a comma-separated list names, each trimmed.
pub fn parse_subjects(s: &str) -> (v: Vec<String>)
    ensures
        strings_view(v@) == subject_list(s@),
{
    let pieces = split(s, ',');
    trim_each(pieces)
}

impl Config {
    /// The settings for the given variables: each unset one takes its default,
    /// `NATS_SUBJECTS` is split at commas and each subject trimmed, and
    /// `BATCH_SIZE` must read as a count, else `InvalidBatchSize`.
    pub fn from_vars(vars: &ConfigVars) -> (r: Result<Config, ConfigError>)
        ensures
            r is Ok <==> parsed_usize(batch_text(*vars)) is Some,
            r matches Ok(c) ==> config_matches(c, *vars),
            r matches Err(e) ==> e == ConfigError::InvalidBatchSize,
    {
        let nats_url = string_or(&vars.nats_url, "nats://localhost:4222");
        let nats_stream_name = string_or(&vars.nats_stream_name, "events");
        let subjects_text = string_or(&vars.nats_subjects, "events.>");
        let nats_subjects = parse_subjects(subjects_text.as_str());
        let nats_consumer_name = string_or(&vars.nats_consumer_name, "all-events2");
        let batch = string_or(&vars.batch_size, "10");
        let batch_size = match parse_usize(batch.as_str()) {
            Some(n) => n,
            None => {
                return Err(ConfigError::InvalidBatchSize);
            },
        };
        let otel_service_name = string_or(&vars.otel_service_name, "nats-agent");
        let otel_endpoint = match &vars.otel_endpoint {
            Some(e) => Some(e.clone()),
            None => None,
        };
        Ok(
            Config {
                nats_url,
                nats_stream_name,
                nats_subjects,
                nats_consumer_name,
                batch_size,
                otel_service_name,
                otel_endpoint,
            },
        )
    }
}

/// Every subject list names at least one subject, and no subject holds a comma
/// or begins or ends with whitespace.
pub proof fn law_subjects_are_clean(s: Seq<char>)
    ensures
        subject_list(s).len() >= 1,
        forall|i: int|
            0 <= i < subject_list(s).len() ==> {
                let t = #[trigger] subject_list(s)[i];
                &&& !t.contains(',')
                &&& t.len() > 0 ==> !is_whitespace(t[0]) && !is_whitespace(t.last())
            },
{
    law_split_join(s, ',');
    law_split_pieces_lack_separator(s, ',');
    let pieces = split_char(s, ',');
    assert forall|i: int| 0 <= i < subject_list(s).len() implies {
        let t = #[trigger] subject_list(s)[i];
        &&& !t.contains(',')
        &&& t.len() > 0 ==> !is_whitespace(t[0]) && !is_whitespace(t.last())
    } by {
        let p = pieces[i];
        assert(!p.contains(','));
        law_trim_settles(p);
        lemma_trimmed_start_shape(p);
        lemma_trimmed_end_shape(trimmed_start(p));
        let a = trimmed_start(p);
        let t = trimmed(p);
        assert(subject_list(s)[i] == t);
        if t.contains(',') {
            let k = choose|k: int| 0 <= k < t.len() && t[k] == ',';
            assert(t[k] == a[k]);
            assert(a[k] == p[k + (p.len() - a.len())]);
        }
    }
}

} // verus!
