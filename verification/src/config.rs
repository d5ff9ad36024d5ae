//! The configuration values the decision core consumes: the retention
//! policy, and the API key type the callers authenticate with.

use vstd::prelude::*;

verus! {

/// Represents an API key for one of the media servers. Held as an opaque
/// value; callers expose it only when building request headers.
#[derive(Debug)]
pub struct APIKey(String);

impl View for APIKey {
    type V = Seq<char>;

    closed spec fn view(&self) -> Seq<char> {
        self.0@
    }
}

impl Clone for APIKey {
    fn clone(&self) -> (r: Self)
        ensures
            r@ == self@,
    {
        APIKey(self.0.clone())
    }
}

impl APIKey {
    /// Wraps a key read from configuration.
    pub fn new(key: String) -> (r: APIKey)
        ensures
            r@ == key@,
    {
        APIKey(key)
    }

    /// The key text, for building an authentication header.
    pub fn expose(&self) -> (r: &str)
        ensures
            r@ == self@,
    {
        self.0.as_str()
    }
}

/// Settings that govern how long any item is kept.
#[derive(Debug)]
pub struct RetentionSettings {
    /// The tag name indicating that an item should be kept even if it
    /// fulfills all criteria. If unset, all items are subject to the
    /// retention policy.
    pub retain_tag: Option<String>,
    /// The amount of time, in seconds, an item should be kept even after
    /// fulfilling all other criteria. Zero if unset.
    pub retain_duration_secs: u64,
}

impl Clone for RetentionSettings {
    fn clone(&self) -> (r: Self)
        ensures
            r == *self,
    {
        let tag = match &self.retain_tag {
            Some(t) => Some(t.clone()),
            None => None,
        };
        RetentionSettings { retain_tag: tag, retain_duration_secs: self.retain_duration_secs }
    }
}

impl RetentionSettings {
    /// The settings with the retention duration replaced when an override
    /// is given; the exemption tag is kept either way.
    pub fn override_duration(&self, retain_for_secs: Option<u64>) -> (r: RetentionSettings)
        ensures
            r.retain_tag == self.retain_tag,
            r.retain_duration_secs == (match retain_for_secs {
                Some(d) => d,
                None => self.retain_duration_secs,
            }),
    {
        let mut r = self.clone();
        if let Some(d) = retain_for_secs {
            r.retain_duration_secs = d;
        }
        r
    }
}

} // verus!
