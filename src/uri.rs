use vstd::prelude::*;

verus! {

/// The text that `http::Uri` writes for what it parsed from `s`, or `None` where it
/// refuses `s`.
pub uninterp spec fn uri_text_of(s: Seq<char>) -> Option<Seq<char>>;

/// Relies on `http::Uri`'s `FromStr` to accept or refuse the text, and on its `Display`
/// for the text of what was accepted.
#[verifier::external_body]
fn parse_uri_text(s: &str) -> (r: Option<String>)
    ensures
        match r {
            Some(t) => uri_text_of(s@) == Some(t@),
            None => uri_text_of(s@) is None,
        },
{
    match s.parse::<http::Uri>() {
        Ok(u) => Some(u.to_string()),
        Err(_) => None,
    }
}

/// A URI that was accepted by `http::Uri`, held as the text it writes.
#[derive(Debug, PartialEq, Eq)]
pub struct Uri {
    text: String,
}

impl View for Uri {
    type V = Seq<char>;

    closed spec fn view(&self) -> Seq<char> {
        self.text@
    }
}

impl Uri {
    #[verifier::type_invariant]
    spec fn inv(&self) -> bool {
        exists|s: Seq<char>| uri_text_of(s) == Some(self.text@)
    }

    /// Parses a URI; `None` where `http::Uri` refuses the text.
    pub fn parse(s: &str) -> (r: Option<Uri>)
        ensures
            match r {
                Some(u) => uri_text_of(s@) == Some(u@),
                None => uri_text_of(s@) is None,
            },
    {
        match parse_uri_text(s) {
            Some(text) => Some(Uri { text }),
            None => None,
        }
    }

    /// The text of the URI.
    pub fn as_str(&self) -> (r: &str)
        ensures
            r@ == self@,
    {
        self.text.as_str()
    }

    /// A copy of the text of the URI.
    pub fn to_text(&self) -> (r: String)
        ensures
            r@ == self@,
    {
        self.text.clone()
    }
}

} // verus!
