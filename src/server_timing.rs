//! A layer that reports how long the wrapped service took in a
//! `Server-Timing` response header, merged with any value already there.

use vstd::prelude::*;
use vstd::string::*;
use crate::text::{
    ascii_chars, check_header_value, decimal, header_text, is_header_text, is_header_value,
    push_decimal,
};

verus! {

/// Why a `Server-Timing` value could not be written.
#[derive(Debug, Clone, Copy, PartialEq, Eq, Structural)]
pub enum HeaderEncodingError {
    /// The value already on the response is not text.
    ExistingNotText,
    /// The merged value holds a character that a header cannot carry.
    InvalidValue,
}

/// The entry one service contributes: `app;dur=ms`, or
/// `app;desc="description";dur=ms`.
pub open spec fn timing_entry(app: Seq<char>, description: Option<Seq<char>>, ms: nat) -> Seq<char> {
    match description {
        Some(d) => app + ";desc=\""@ + d + "\";dur="@ + decimal(ms),
        None => app + ";dur="@ + decimal(ms),
    }
}

/// The header value after a new entry is merged in: the entry first, then
/// each value that was there, joined by commas.
pub open spec fn merged_value(entry: Seq<char>, existing: Seq<Seq<char>>) -> Seq<char>
    decreases existing.len(),
{
    if existing.len() == 0 {
        entry
    } else {
        merged_value(entry, existing.drop_last()) + ", "@ + existing.last()
    }
}

/// The raw values of a header, as byte sequences.
pub open spec fn values_view(existing: Seq<Vec<u8>>) -> Seq<Seq<u8>> {
    existing.map_values(|v: Vec<u8>| v@)
}

/// The outcome of merging `entry` into a header that held the values
/// `existing` (raw bytes each).
pub open spec fn merge_outcome(entry: Seq<char>, existing: Seq<Seq<u8>>) -> Result<Seq<char>, HeaderEncodingError> {
    if exists|i: int| 0 <= i < existing.len() && !is_header_text(#[trigger] existing[i]) {
        Err(HeaderEncodingError::ExistingNotText)
    } else {
        let v = merged_value(entry, existing.map_values(|b: Seq<u8>| ascii_chars(b)));
        if is_header_value(v) { Ok(v) } else { Err(HeaderEncodingError::InvalidValue) }
    }
}

/// Merges `entry` into the `Server-Timing` values `existing` (raw bytes
/// each; empty where the response carries none).
pub fn merge_timing(entry: &str, existing: &[Vec<u8>]) -> (r: Result<String, HeaderEncodingError>)
    ensures
        match (r, merge_outcome(entry@, values_view(existing@))) {
            (Ok(s), Ok(v)) => s@ == v,
            (Err(e), Err(f)) => e == f,
            _ => false,
        },
{
    let ghost olds = values_view(existing@);
    let ghost texts = olds.map_values(|b: Seq<u8>| ascii_chars(b));
    let mut v = String::from_str(entry);
    let mut i: usize = 0;
    while i < existing.len()
        invariant
            i <= existing@.len(),
            olds == values_view(existing@),
            texts == olds.map_values(|b: Seq<u8>| ascii_chars(b)),
            forall|j: int| 0 <= j < i ==> is_header_text(#[trigger] olds[j]),
            v@ == merged_value(entry@, texts.take(i as int)),
        decreases existing@.len() - i,
    {
        match header_text(existing[i].as_slice()) {
            Some(old) => {
                v.append(", ");
                v.append(old.as_str());
                proof {
                    reveal_strlit(", ");
                    assert(texts.take(i + 1).drop_last() =~= texts.take(i as int));
                }
            },
            None => {
                assert(!is_header_text(olds[i as int]));
                return Err(HeaderEncodingError::ExistingNotText);
            },
        }
        i = i + 1;
    }
    assert(texts.take(i as int) =~= texts);
    if check_header_value(v.as_str()) {
        Ok(v)
    } else {
        Err(HeaderEncodingError::InvalidValue)
    }
}

/// Builds the entry for `app`, with `description` if there is one.
pub fn format_entry(app: &str, description: Option<&str>, elapsed_ms: u64) -> (r: String)
    ensures
        r@ == timing_entry(app@, match description { Some(d) => Some(d@), None => None }, elapsed_ms as nat),
{
    let mut s = String::from_str(app);
    match description {
        Some(d) => {
            s.append(";desc=\"");
            s.append(d);
            s.append("\";dur=");
        },
        None => {
            s.append(";dur=");
        },
    }
    proof {
        reveal_strlit(";desc=\"");
        reveal_strlit("\";dur=");
        reveal_strlit(";dur=");
    }
    push_decimal(&mut s, elapsed_ms);
    s
}

/// The configuration of the timing layer: the name under which the
/// service reports, and an optional description.
#[derive(Debug, Clone)]
pub struct ServerTimingLayer {
    pub app: String,
    pub description: Option<String>,
}

/// A service wrapped by [`ServerTimingLayer`].
#[derive(Clone)]
pub struct ServerTimingService<S> {
    pub service: S,
    pub app: String,
    pub description: Option<String>,
}

pub open spec fn opt_view(o: Option<String>) -> Option<Seq<char>> {
    match o {
        Some(s) => Some(s@),
        None => None,
    }
}

fn copy_opt(o: &Option<String>) -> (r: Option<String>)
    ensures
        opt_view(r) == opt_view(*o),
{
    match o {
        Some(s) => Some(String::from_str(s.as_str())),
        None => None,
    }
}

impl ServerTimingLayer {
    /// A layer that reports under `app`, with no description.
    pub fn new(app: &str) -> (r: Self)
        ensures
            r.app@ == app@,
            r.description is None,
    {
        ServerTimingLayer { app: String::from_str(app), description: None }
    }

    /// A copy of this layer that also reports `description`; `self` is
    /// left as it was.
    pub fn with_description(&mut self, description: &str) -> (r: Self)
        ensures
            *final(self) == *old(self),
            r.app@ == old(self).app@,
            opt_view(r.description) == Some(description@),
    {
        ServerTimingLayer {
            app: String::from_str(self.app.as_str()),
            description: Some(String::from_str(description)),
        }
    }

    /// Wraps `service`, handing it this layer's name and description.
    pub fn layer<S>(&self, service: S) -> (r: ServerTimingService<S>)
        ensures
            r.service == service,
            r.app@ == self.app@,
            opt_view(r.description) == opt_view(self.description),
    {
        ServerTimingService {
            service,
            app: String::from_str(self.app.as_str()),
            description: copy_opt(&self.description),
        }
    }
}

impl<S> ServerTimingService<S> {
    /// The `Server-Timing` value for a response that took `elapsed_ms`
    /// milliseconds and carried the values `existing` (raw bytes each).
    pub fn timing_value(&self, elapsed_ms: u64, existing: &[Vec<u8>]) -> (r: Result<String, HeaderEncodingError>)
        ensures
            match (r, merge_outcome(
                timing_entry(self.app@, opt_view(self.description), elapsed_ms as nat),
                values_view(existing@),
            )) {
                (Ok(s), Ok(v)) => s@ == v,
                (Err(e), Err(f)) => e == f,
                _ => false,
            },
    {
        let entry = match &self.description {
            Some(d) => format_entry(self.app.as_str(), Some(d.as_str()), elapsed_ms),
            None => format_entry(self.app.as_str(), None, elapsed_ms),
        };
        merge_timing(entry.as_str(), existing)
    }
}

} // verus!
