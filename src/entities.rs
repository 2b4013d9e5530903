//! Canonical entities, independent of the backend that sent them.
use vstd::prelude::*;

pub mod account;

verus! {

/// A point in time, as seconds and nanoseconds since the Unix epoch in UTC.
/// The nanoseconds may reach past one second during a leap second.
#[derive(Debug, Clone, Copy, PartialEq, Eq, Structural)]
pub struct Timestamp {
    pub secs: i64,
    pub nanos: u32,
}

/// A custom emoji of an instance.
#[derive(Debug, Clone)]
pub struct Emoji {
    pub shortcode: String,
    pub static_url: String,
    pub url: String,
    pub visible_in_picker: bool,
}

/// A name and value pair shown on a profile.
#[derive(Debug, Clone)]
pub struct Field {
    pub name: String,
    pub value: String,
    pub verified_at: Option<Timestamp>,
}

/// The editable source of a profile, seen by its owner.
#[derive(Debug, Clone)]
pub struct Source {
    pub privacy: Option<String>,
    pub sensitive: Option<bool>,
    pub language: Option<String>,
    pub note: String,
    pub fields: Option<Vec<Field>>,
}

} // verus!
