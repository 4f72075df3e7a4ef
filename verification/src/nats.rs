//! What the agent asks of the NATS server: the stream and the durable pull
//! consumer it sets up, and the texts of the errors when that fails.

use vstd::prelude::*;
use crate::number::{decimal, format_u64};
use crate::text::{push_str, strings_view};

verus! {

/// The stream to get or create.
#[derive(Debug, Clone)]
pub struct StreamSettings {
    pub name: String,
    pub subjects: Vec<String>,
}

/// The durable pull consumer to get or create.
#[derive(Debug, Clone)]
pub struct ConsumerSettings {
    pub durable_name: Option<String>,
    pub name: Option<String>,
    pub description: Option<String>,
}

/// The stream named `name` that captures `subjects`.
pub fn stream_settings(name: &str, subjects: &Vec<String>) -> (s: StreamSettings)
    ensures
        s.name@ == name@,
        strings_view(s.subjects@) == strings_view(subjects@),
{
    let mut copied: Vec<String> = Vec::new();
    let mut i: usize = 0;
    while i < subjects.len()
        invariant
            i <= subjects.len(),
            strings_view(copied@) == strings_view(subjects@).take(i as int),
        decreases subjects.len() - i,
    {
        let ghost before = copied@;
        copied.push(subjects[i].clone());
        assert(strings_view(copied@) =~= strings_view(before).push(subjects@[i as int]@));
        assert(strings_view(copied@) =~= strings_view(subjects@).take(i + 1 as int));
        i = i + 1;
    }
    assert(strings_view(subjects@).take(subjects.len() as int) =~= strings_view(subjects@));
    StreamSettings { name: name.to_owned(), subjects: copied }
}

/// The consumer named `name`, durable under the same name.
pub fn consumer_settings(name: &str) -> (c: ConsumerSettings)
    ensures
        c.durable_name matches Some(d) && d@ == name@,
        c.name matches Some(n) && n@ == name@,
        c.description matches Some(t) && t@ == "consumer of all workflow events"@,
{
    ConsumerSettings {
        durable_name: Some(name.to_owned()),
        name: Some(name.to_owned()),
        description: Some("consumer of all workflow events".to_owned()),
    }
}

/// The error text when the server at `url` cannot be reached.
pub fn connect_error_text(url: &str) -> (s: String)
    ensures
        s@ == "Unable to connect to nats server: "@ + url@,
{
    let mut s = String::new();
    push_str(&mut s, "Unable to connect to nats server: ");
    push_str(&mut s, url);
    s
}

/// The error text when the consumer `name` cannot be set up.
pub fn consumer_error_text(name: &str) -> (s: String)
    ensures
        s@ == "error creating durable consumer: "@ + name@,
{
    let mut s = String::new();
    push_str(&mut s, "error creating durable consumer: ");
    push_str(&mut s, name);
    s
}

/// The error text when a batch of `batch_size` messages cannot be requested.
pub fn batch_error_text(batch_size: u64) -> (s: String)
    ensures
        s@ == "Failed to read messages with batch size "@ + decimal(batch_size as nat)
            + " from stream"@,
{
    let mut s = String::new();
    push_str(&mut s, "Failed to read messages with batch size ");
    let n = format_u64(batch_size);
    push_str(&mut s, n.as_str());
    push_str(&mut s, " from stream");
    s
}

} // verus!
