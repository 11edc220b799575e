//! Typed values of geoprocessing task parameters.

use vstd::prelude::*;

verus! {

/// A text parameter.
#[derive(Debug, Clone)]
pub struct GPString(pub String);

impl From<String> for GPString {
    fn from(s: String) -> (r: GPString) {
        GPString(s)
    }
}

impl vstd::std_specs::convert::FromSpecImpl<String> for GPString {
    open spec fn obeys_from_spec() -> bool {
        true
    }

    open spec fn from_spec(s: String) -> GPString {
        GPString(s)
    }
}

/// An integer parameter.
#[derive(Debug, Clone, Copy, PartialEq, Eq, Hash, Structural)]
pub struct GPLong(pub i64);

impl From<i64> for GPLong {
    fn from(i: i64) -> (r: GPLong) {
        GPLong(i)
    }
}

impl vstd::std_specs::convert::FromSpecImpl<i64> for GPLong {
    open spec fn obeys_from_spec() -> bool {
        true
    }

    open spec fn from_spec(i: i64) -> GPLong {
        GPLong(i)
    }
}

impl From<i32> for GPLong {
    fn from(i: i32) -> (r: GPLong) {
        GPLong(i as i64)
    }
}

impl vstd::std_specs::convert::FromSpecImpl<i32> for GPLong {
    open spec fn obeys_from_spec() -> bool {
        true
    }

    open spec fn from_spec(i: i32) -> GPLong {
        GPLong(i as i64)
    }
}

/// A boolean parameter.
#[derive(Debug, Clone, Copy, PartialEq, Eq, Hash, Structural)]
pub struct GPBoolean(pub bool);

impl From<bool> for GPBoolean {
    fn from(b: bool) -> (r: GPBoolean) {
        GPBoolean(b)
    }
}

impl vstd::std_specs::convert::FromSpecImpl<bool> for GPBoolean {
    open spec fn obeys_from_spec() -> bool {
        true
    }

    open spec fn from_spec(b: bool) -> GPBoolean {
        GPBoolean(b)
    }
}

/// A date parameter, in milliseconds since the Unix epoch.
#[derive(Debug, Clone, Copy, PartialEq, Eq, Hash, Structural)]
pub struct GPDate(pub i64);

impl GPDate {
    /// A date from milliseconds since the Unix epoch.
    pub fn from_millis(millis: i64) -> (r: GPDate)
        ensures
            r.0 == millis,
    {
        GPDate(millis)
    }
}

/// A raster given by URL, with an optional format.
#[derive(Debug, Clone)]
pub struct GPRasterDataLayer {
    pub url: String,
    pub format: Option<String>,
}

impl GPRasterDataLayer {
    /// A raster layer at `url`, with no format.
    pub fn new(url: String) -> (r: GPRasterDataLayer)
        ensures
            r.url@ == url@,
            r.format is None,
    {
        GPRasterDataLayer { url, format: None }
    }

    /// The same layer with the given format.
    pub fn with_format(self, format: String) -> (r: GPRasterDataLayer)
        ensures
            r.url@ == self.url@,
            r.format.deep_view() == Some(format@),
    {
        GPRasterDataLayer { url: self.url, format: Some(format) }
    }
}

/// A file given by URL.
#[derive(Debug, Clone)]
pub struct GPDataFile {
    pub url: String,
}

impl GPDataFile {
    /// A data file at `url`.
    pub fn new(url: String) -> (r: GPDataFile)
        ensures
            r.url@ == url@,
    {
        GPDataFile { url }
    }
}

} // verus!
