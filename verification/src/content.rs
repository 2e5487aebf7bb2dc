//! A reference to an asset: a URL carried as a plain string.
use vstd::prelude::*;

verus! {

/// An asset reference; its view is the URL's character sequence.
#[derive(Debug, Clone, Default, PartialEq, Eq, Hash)]
pub struct Content {
    url: String,
}

impl View for Content {
    type V = Seq<char>;

    closed spec fn view(&self) -> Seq<char> {
        self.url@
    }
}

impl Content {
    /// An empty reference.
    pub fn new() -> (r: Self)
        ensures
            r@ == Seq::<char>::empty(),
    {
        Content { url: String::new() }
    }

    /// The URL, surrendered as a plain string.
    pub fn into_string(self) -> (r: String)
        ensures
            r@ == self@,
    {
        self.url
    }

    /// A reference to the given URL.
    pub fn from_url(url: &str) -> (r: Self)
        ensures
            r@ == url@,
    {
        Content { url: url.to_owned() }
    }
}

} // verus!
