use vstd::prelude::*;
use crate::container::{ContextTags, Properties};

verus! {

/// What a telemetry context holds, as values.
pub struct ContextView {
    pub i_key: Seq<char>,
    pub tags: Map<Seq<char>, Seq<char>>,
    pub properties: Map<Seq<char>, Seq<char>>,
}

/// Client-wide defaults merged into every telemetry item: the instrumentation key, and
/// the tags and properties that items inherit unless they set their own.
#[derive(Debug)]
pub struct TelemetryContext {
    i_key: String,
    tags: ContextTags,
    properties: Properties,
}

impl View for TelemetryContext {
    type V = ContextView;

    closed spec fn view(&self) -> ContextView {
        ContextView { i_key: self.i_key@, tags: self.tags@, properties: self.properties@ }
    }
}

impl TelemetryContext {
    /// Creates a context from an instrumentation key, default tags and default properties.
    pub fn new(i_key: String, tags: ContextTags, properties: Properties) -> (r: Self)
        ensures
            r@ == (ContextView { i_key: i_key@, tags: tags@, properties: properties@ }),
    {
        TelemetryContext { i_key, tags, properties }
    }

    /// The instrumentation key.
    pub fn i_key(&self) -> (r: &String)
        ensures
            r@ == self@.i_key,
    {
        &self.i_key
    }

    /// The default tags.
    pub fn tags(&self) -> (r: &ContextTags)
        ensures
            r@ == self@.tags,
    {
        &self.tags
    }

    /// The default tags, to change.
    pub fn tags_mut(&mut self) -> (r: &mut ContextTags)
        ensures
            r@ == old(self)@.tags,
            final(self)@ == (ContextView { tags: final(r)@, ..old(self)@ }),
    {
        &mut self.tags
    }

    /// The default properties.
    pub fn properties(&self) -> (r: &Properties)
        ensures
            r@ == self@.properties,
    {
        &self.properties
    }

    /// The default properties, to change.
    pub fn properties_mut(&mut self) -> (r: &mut Properties)
        ensures
            r@ == old(self)@.properties,
            final(self)@ == (ContextView { properties: final(r)@, ..old(self)@ }),
    {
        &mut self.properties
    }

    /// Takes the context apart into its instrumentation key, tags and properties.
    pub fn into_parts(self) -> (r: (String, ContextTags, Properties))
        ensures
            r.0@ == self@.i_key,
            r.1@ == self@.tags,
            r.2@ == self@.properties,
    {
        (self.i_key, self.tags, self.properties)
    }
}

} // verus!
