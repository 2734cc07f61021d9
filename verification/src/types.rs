//! The data model: a per-queue summary row and the optional detailed
//! attributes of one queue.

use vstd::prelude::*;
use crate::parse::{
    parse_i32, parse_i64, queue_name_from_url, spec_parse_i32, spec_parse_i64, spec_queue_name,
};

verus! {

/// The counter value a reported attribute stands for: its decimal value,
/// or zero when the attribute is absent or not a well-formed integer.
pub open spec fn spec_count_attr(v: Option<String>) -> i64 {
    match v {
        Some(s) => match spec_parse_i64(s@) {
            Some(n) => n,
            None => 0,
        },
        None => 0,
    }
}

/// An optional reported attribute read as an `i64`, absent when missing or
/// malformed.
pub open spec fn spec_opt_i64_attr(v: Option<String>) -> Option<i64> {
    match v {
        Some(s) => spec_parse_i64(s@),
        None => None,
    }
}

/// An optional reported attribute read as an `i32`, absent when missing or
/// malformed.
pub open spec fn spec_opt_i32_attr(v: Option<String>) -> Option<i32> {
    match v {
        Some(s) => spec_parse_i32(s@),
        None => None,
    }
}

/// One queue as shown in the list: identifier, display name, the three
/// approximate message counters reported by the service, and the unix
/// timestamp (seconds) at which the row was built.
#[derive(Debug)]
pub struct QueueInfo {
    pub url: String,
    pub name: String,
    pub approximate_messages: i64,
    pub approximate_messages_not_visible: i64,
    pub approximate_messages_delayed: i64,
    pub last_updated: i64,
}

impl Clone for QueueInfo {
    fn clone(&self) -> (res: Self)
        ensures
            res == *self,
    {
        QueueInfo {
            url: self.url.clone(),
            name: self.name.clone(),
            approximate_messages: self.approximate_messages,
            approximate_messages_not_visible: self.approximate_messages_not_visible,
            approximate_messages_delayed: self.approximate_messages_delayed,
            last_updated: self.last_updated,
        }
    }
}

/// Full attributes of one queue; the service may omit any of them, and an
/// absent field is not an error.
#[derive(Debug)]
pub struct QueueDetails {
    pub arn: Option<String>,
    pub created_timestamp: Option<i64>,
    pub last_modified_timestamp: Option<i64>,
    pub message_retention_period: Option<i32>,
    pub visibility_timeout: Option<i32>,
    pub maximum_message_size: Option<i32>,
    pub delay_seconds: Option<i32>,
}

impl QueueInfo {
    /// Builds one queue row from a queue URL and the raw counter attributes
    /// the service reported at time `now`: the name is the tail of the URL,
    /// and a missing or malformed counter counts as zero.
    pub fn from_attributes(
        url: String,
        visible: Option<String>,
        not_visible: Option<String>,
        delayed: Option<String>,
        now: i64,
    ) -> (q: QueueInfo)
        ensures
            q.url == url,
            q.name@ == spec_queue_name(url@),
            q.approximate_messages == spec_count_attr(visible),
            q.approximate_messages_not_visible == spec_count_attr(not_visible),
            q.approximate_messages_delayed == spec_count_attr(delayed),
            q.last_updated == now,
    {
        let name = queue_name_from_url(url.as_str());
        QueueInfo {
            name,
            url,
            approximate_messages: count_attr(visible),
            approximate_messages_not_visible: count_attr(not_visible),
            approximate_messages_delayed: count_attr(delayed),
            last_updated: now,
        }
    }
}

/// Reads a counter attribute, taking a missing or malformed value as zero.
fn count_attr(v: Option<String>) -> (r: i64)
    ensures
        r == spec_count_attr(v),
{
    match v {
        Some(s) => match parse_i64(s.as_str()) {
            Some(n) => n,
            None => 0,
        },
        None => 0,
    }
}

/// Reads an optional `i64` attribute.
fn opt_i64_attr(v: Option<String>) -> (r: Option<i64>)
    ensures
        r == spec_opt_i64_attr(v),
{
    match v {
        Some(s) => parse_i64(s.as_str()),
        None => None,
    }
}

/// Reads an optional `i32` attribute.
fn opt_i32_attr(v: Option<String>) -> (r: Option<i32>)
    ensures
        r == spec_opt_i32_attr(v),
{
    match v {
        Some(s) => parse_i32(s.as_str()),
        None => None,
    }
}

impl QueueDetails {
    /// Builds the detail pane's data from the raw attribute values the
    /// service reported: the ARN passes through as text, every numeric
    /// field is read as a decimal integer and stays absent when missing or
    /// malformed.
    pub fn from_attributes(
        arn: Option<String>,
        created: Option<String>,
        last_modified: Option<String>,
        retention: Option<String>,
        visibility: Option<String>,
        max_size: Option<String>,
        delay: Option<String>,
    ) -> (d: QueueDetails)
        ensures
            d.arn == arn,
            d.created_timestamp == spec_opt_i64_attr(created),
            d.last_modified_timestamp == spec_opt_i64_attr(last_modified),
            d.message_retention_period == spec_opt_i32_attr(retention),
            d.visibility_timeout == spec_opt_i32_attr(visibility),
            d.maximum_message_size == spec_opt_i32_attr(max_size),
            d.delay_seconds == spec_opt_i32_attr(delay),
    {
        QueueDetails {
            arn,
            created_timestamp: opt_i64_attr(created),
            last_modified_timestamp: opt_i64_attr(last_modified),
            message_retention_period: opt_i32_attr(retention),
            visibility_timeout: opt_i32_attr(visibility),
            maximum_message_size: opt_i32_attr(max_size),
            delay_seconds: opt_i32_attr(delay),
        }
    }
}

impl Clone for QueueDetails {
    fn clone(&self) -> (res: Self)
        ensures
            res == *self,
    {
        QueueDetails {
            arn: match &self.arn {
                Some(s) => Some(s.clone()),
                None => None,
            },
            created_timestamp: self.created_timestamp,
            last_modified_timestamp: self.last_modified_timestamp,
            message_retention_period: self.message_retention_period,
            visibility_timeout: self.visibility_timeout,
            maximum_message_size: self.maximum_message_size,
            delay_seconds: self.delay_seconds,
        }
    }
}

impl Default for QueueDetails {
    /// All fields absent.
    fn default() -> (res: Self)
        ensures
            res.arn is None,
            res.created_timestamp is None,
            res.last_modified_timestamp is None,
            res.message_retention_period is None,
            res.visibility_timeout is None,
            res.maximum_message_size is None,
            res.delay_seconds is None,
    {
        QueueDetails {
            arn: None,
            created_timestamp: None,
            last_modified_timestamp: None,
            message_retention_period: None,
            visibility_timeout: None,
            maximum_message_size: None,
            delay_seconds: None,
        }
    }
}

} // verus!
