use vstd::prelude::*;
use crate::container::{ContextTags, Measurements, Properties};

verus! {

/// The text of an optional string.
pub open spec fn opt_text(o: Option<String>) -> Option<Seq<char>> {
    match o {
        Some(s) => Some(s@),
        None => None,
    }
}

/// The contents of an optional container of string values.
pub open spec fn opt_strings(o: Option<Properties>) -> Option<Map<Seq<char>, Seq<char>>> {
    match o {
        Some(m) => Some(m@),
        None => None,
    }
}

/// The contents of an optional container of measurements.
pub open spec fn opt_measurements(o: Option<Measurements>) -> Option<Map<Seq<char>, u64>> {
    match o {
        Some(m) => Some(m@),
        None => None,
    }
}

/// The page view record of an envelope's payload.
#[derive(Debug, PartialEq)]
pub struct PageViewData {
    /// Schema version.
    pub ver: i32,
    /// Page name.
    pub name: String,
    /// Page URL.
    pub url: Option<String>,
    /// How long the page took to load, in the wire's duration format.
    pub duration: Option<String>,
    /// The page that linked here.
    pub referrer_uri: Option<String>,
    /// Correlation identifier; empty where none was set.
    pub id: String,
    /// Custom properties.
    pub properties: Option<Properties>,
    /// Custom measurements.
    pub measurements: Option<Measurements>,
}

/// The typed records that a payload can hold, one per kind of telemetry.
#[derive(Debug, PartialEq)]
pub enum Data {
    PageViewData(PageViewData),
}

/// An envelope's payload.
#[derive(Debug, PartialEq)]
pub enum Base {
    Data(Data),
}

/// The record sent to the telemetry backend: one typed payload with the time, the
/// instrumentation key and the tags.
#[derive(Debug, PartialEq)]
pub struct Envelope {
    /// The wire type of the payload.
    pub name: String,
    /// The time the telemetry was measured, as RFC 3339 text.
    pub time: String,
    /// Instrumentation key of the destination.
    pub i_key: Option<String>,
    /// Context tags.
    pub tags: Option<ContextTags>,
    /// The payload.
    pub data: Option<Base>,
}

/// A page view record, as values.
pub struct PageViewDataView {
    pub ver: int,
    pub name: Seq<char>,
    pub url: Option<Seq<char>>,
    pub duration: Option<Seq<char>>,
    pub referrer_uri: Option<Seq<char>>,
    pub id: Seq<char>,
    pub properties: Option<Map<Seq<char>, Seq<char>>>,
    pub measurements: Option<Map<Seq<char>, u64>>,
}

/// A payload, as values.
pub enum PayloadView {
    PageView(PageViewDataView),
}

/// An envelope, as values.
pub struct EnvelopeView {
    pub name: Seq<char>,
    pub time: Seq<char>,
    pub i_key: Option<Seq<char>>,
    pub tags: Option<Map<Seq<char>, Seq<char>>>,
    pub data: Option<PayloadView>,
}

impl View for PageViewData {
    type V = PageViewDataView;

    open spec fn view(&self) -> PageViewDataView {
        PageViewDataView {
            ver: self.ver as int,
            name: self.name@,
            url: opt_text(self.url),
            duration: opt_text(self.duration),
            referrer_uri: opt_text(self.referrer_uri),
            id: self.id@,
            properties: opt_strings(self.properties),
            measurements: opt_measurements(self.measurements),
        }
    }
}

impl View for Base {
    type V = PayloadView;

    open spec fn view(&self) -> PayloadView {
        match self {
            Base::Data(Data::PageViewData(d)) => PayloadView::PageView(d@),
        }
    }
}

impl View for Envelope {
    type V = EnvelopeView;

    open spec fn view(&self) -> EnvelopeView {
        EnvelopeView {
            name: self.name@,
            time: self.time@,
            i_key: opt_text(self.i_key),
            tags: opt_strings(self.tags),
            data: match self.data {
                Some(b) => Some(b@),
                None => None,
            },
        }
    }
}

} // verus!
