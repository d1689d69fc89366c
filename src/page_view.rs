use vstd::prelude::*;
use crate::container::{combined, ContextTags, KeyMap, Measurements, Properties};
use crate::context::{ContextView, TelemetryContext};
use crate::contracts::{Base, Data, Envelope, EnvelopeView, PageViewData, PageViewDataView, PayloadView};
use crate::time::{rfc3339_millis_of, Timestamp};
use crate::uri::Uri;
use crate::uuid::{hyphenated_text, Uuid};

verus! {

/// What a page view holds, as values.
pub struct PageViewView {
    pub id: Option<Seq<u8>>,
    pub name: Seq<char>,
    pub uri: Seq<char>,
    pub timestamp: (int, int),
    pub properties: Map<Seq<char>, Seq<char>>,
    pub tags: Map<Seq<char>, Seq<char>>,
    pub measurements: Map<Seq<char>, u64>,
}

/// A view of a page: its name, its URL, when it was measured, and the properties, tags and
/// measurements that go with it.
#[derive(Debug)]
pub struct PageViewTelemetry {
    id: Option<Uuid>,
    name: String,
    uri: Uri,
    timestamp: Timestamp,
    properties: Properties,
    tags: ContextTags,
    measurements: Measurements,
}

impl View for PageViewTelemetry {
    type V = PageViewView;

    closed spec fn view(&self) -> PageViewView {
        PageViewView {
            id: match self.id {
                Some(u) => Some(u@),
                None => None,
            },
            name: self.name@,
            uri: self.uri@,
            timestamp: self.timestamp@,
            properties: self.properties@,
            tags: self.tags@,
            measurements: self.measurements@,
        }
    }
}

/// The envelope of a page view: the context gives the instrumentation key and the default
/// tags and properties, which the page view's own tags and properties override.
pub open spec fn page_view_envelope(c: ContextView, t: PageViewView) -> EnvelopeView {
    page_view_envelope_with_time(c, t, rfc3339_millis_of(t.timestamp.0, t.timestamp.1))
}

/// The envelope of a page view, given the text of its time.
pub open spec fn page_view_envelope_with_time(c: ContextView, t: PageViewView, time: Seq<char>) -> EnvelopeView {
    EnvelopeView {
        name: "Microsoft.ApplicationInsights.PageView"@,
        time: time,
        i_key: if c.i_key.len() == 0 {
            None
        } else {
            Some(c.i_key)
        },
        tags: Some(combined(c.tags, t.tags)),
        data: Some(
            PayloadView::PageView(
                PageViewDataView {
                    ver: 2,
                    name: t.name,
                    url: Some(t.uri),
                    duration: None,
                    referrer_uri: None,
                    id: match t.id {
                        Some(b) => hyphenated_text(b),
                        None => Seq::empty(),
                    },
                    properties: Some(combined(c.properties, t.properties)),
                    measurements: Some(t.measurements),
                },
            ),
        ),
    }
}

impl PageViewTelemetry {
    /// Creates a page view measured now, with no identifier, properties, tags or measurements.
    pub fn new(name: String, uri: Uri) -> (r: Self)
        ensures
            r@.id is None,
            r@.name == name@,
            r@.uri == uri@,
            r@.properties == Map::<Seq<char>, Seq<char>>::empty(),
            r@.tags == Map::<Seq<char>, Seq<char>>::empty(),
            r@.measurements == Map::<Seq<char>, u64>::empty(),
    {
        Self::new_at(name, uri, Timestamp::now())
    }

    /// Creates a page view measured at `timestamp`, with no identifier, properties, tags or
    /// measurements.
    pub fn new_at(name: String, uri: Uri, timestamp: Timestamp) -> (r: Self)
        ensures
            r@ == (PageViewView {
                id: None,
                name: name@,
                uri: uri@,
                timestamp: timestamp@,
                properties: Map::empty(),
                tags: Map::empty(),
                measurements: Map::empty(),
            }),
    {
        PageViewTelemetry {
            id: None,
            name,
            uri,
            timestamp,
            properties: KeyMap::new(),
            tags: KeyMap::new(),
            measurements: KeyMap::new(),
        }
    }

    /// The identifier that correlates this page view with the telemetry of the service.
    pub fn id(&self) -> (r: Option<Uuid>)
        ensures
            r matches Some(u) ==> self@.id == Some(u@),
            r is None ==> self@.id is None,
    {
        self.id
    }

    /// Sets or clears the correlation identifier.
    pub fn set_id(&mut self, id: Option<Uuid>)
        ensures
            final(self)@ == (PageViewView {
                id: match id {
                    Some(u) => Some(u@),
                    None => None,
                },
                ..old(self)@
            }),
    {
        self.id = id;
    }

    /// The time when this page view was measured.
    pub fn timestamp(&self) -> (r: Timestamp)
        ensures
            r@ == self@.timestamp,
    {
        self.timestamp
    }

    /// The page name.
    pub fn name(&self) -> (r: &String)
        ensures
            r@ == self@.name,
    {
        &self.name
    }

    /// The page URL.
    pub fn uri(&self) -> (r: &Uri)
        ensures
            r@ == self@.uri,
    {
        &self.uri
    }

    /// Custom properties.
    pub fn properties(&self) -> (r: &Properties)
        ensures
            r@ == self@.properties,
    {
        &self.properties
    }

    /// Custom properties, to change.
    pub fn properties_mut(&mut self) -> (r: &mut Properties)
        ensures
            r@ == old(self)@.properties,
            final(self)@ == (PageViewView { properties: final(r)@, ..old(self)@ }),
    {
        &mut self.properties
    }

    /// Tags that override those of the telemetry context.
    pub fn tags(&self) -> (r: &ContextTags)
        ensures
            r@ == self@.tags,
    {
        &self.tags
    }

    /// Tags, to change.
    pub fn tags_mut(&mut self) -> (r: &mut ContextTags)
        ensures
            r@ == old(self)@.tags,
            final(self)@ == (PageViewView { tags: final(r)@, ..old(self)@ }),
    {
        &mut self.tags
    }

    /// Custom measurements.
    pub fn measurements(&self) -> (r: &Measurements)
        ensures
            r@ == self@.measurements,
    {
        &self.measurements
    }

    /// Custom measurements, to change.
    pub fn measurements_mut(&mut self) -> (r: &mut Measurements)
        ensures
            r@ == old(self)@.measurements,
            final(self)@ == (PageViewView { measurements: final(r)@, ..old(self)@ }),
    {
        &mut self.measurements
    }
}

impl Envelope {
    /// Builds the envelope of a page view under a telemetry context, with its time written
    /// in RFC 3339 to the millisecond.
    pub fn from_page_view(context: TelemetryContext, telemetry: PageViewTelemetry) -> (r: Envelope)
        ensures
            r@ == page_view_envelope(context@, telemetry@),
    {
        let time = telemetry.timestamp().to_rfc3339_millis();
        Self::from_page_view_with_time(context, telemetry, time)
    }

    /// Builds the envelope of a page view under a telemetry context, with `time` as the
    /// text of its time.
    pub fn from_page_view_with_time(context: TelemetryContext, telemetry: PageViewTelemetry, time: String) -> (r: Envelope)
        ensures
            r@ == page_view_envelope_with_time(context@, telemetry@, time@),
    {
        let (i_key, context_tags, context_properties) = context.into_parts();
        let PageViewTelemetry { id, name, uri, timestamp: _, properties, tags, measurements } = telemetry;
        let i_key = if i_key.as_str().is_empty() {
            None
        } else {
            Some(i_key)
        };
        let data = PageViewData {
            ver: 2,
            name,
            url: Some(uri.to_text()),
            duration: None,
            referrer_uri: None,
            id: match id {
                Some(u) => u.to_hyphenated(),
                None => String::new(),
            },
            properties: Some(KeyMap::combine(context_properties, properties)),
            measurements: Some(measurements),
        };
        let r = Envelope {
            name: String::from_str("Microsoft.ApplicationInsights.PageView"),
            time,
            i_key,
            tags: Some(KeyMap::combine(context_tags, tags)),
            data: Some(Base::Data(Data::PageViewData(data))),
        };
        r
    }
}

/// Converting equal contexts and page views gives equal envelopes: nothing else goes in.
pub proof fn lemma_conversion_deterministic(
    c1: TelemetryContext,
    t1: PageViewTelemetry,
    c2: TelemetryContext,
    t2: PageViewTelemetry,
)
    requires
        c1@ == c2@,
        t1@ == t2@,
    ensures
        page_view_envelope(c1@, t1@) == page_view_envelope(c2@, t2@),
{
}

/// The envelope of a page view holds exactly one payload, the page view record.
pub proof fn lemma_single_payload(c: TelemetryContext, t: PageViewTelemetry)
    ensures
        page_view_envelope(c@, t@).data matches Some(PayloadView::PageView(_)),
{
}

/// A page view with no correlation identifier gets the empty string as its identifier,
/// not an absent one.
pub proof fn lemma_default_id(c: TelemetryContext, t: PageViewTelemetry)
    requires
        t@.id is None,
    ensures
        page_view_envelope(c@, t@).data matches Some(PayloadView::PageView(d)) && d.id == Seq::<char>::empty(),
{
}

} // verus!
