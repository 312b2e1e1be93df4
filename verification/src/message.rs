//! The plain data that crosses the relay: header lines and response heads.

use vstd::prelude::*;

verus! {

/// One header line: its name and the bytes of its value.
#[derive(Debug, Clone, PartialEq, Eq)]
pub struct HeaderField {
    pub name: String,
    pub value: Vec<u8>,
}

/// What a [`HeaderField`] stands for in contracts.
pub struct HeaderModel {
    pub name: Seq<char>,
    pub value: Seq<u8>,
}

impl View for HeaderField {
    type V = HeaderModel;

    open spec fn view(&self) -> HeaderModel {
        HeaderModel { name: self.name@, value: self.value@ }
    }
}

/// The header lines of `headers`, in order, each by its view.
pub open spec fn headers_model(headers: Seq<HeaderField>) -> Seq<HeaderModel> {
    headers.map_values(|h: HeaderField| h@)
}

/// Status code and header lines of a response, known before any body byte.
///
/// The same value serves for the head that the upstream sent and for the head
/// that the client receives: the relay hands it on without touching it.
#[derive(Debug, Clone, PartialEq, Eq)]
pub struct ResponseHead {
    pub status: u16,
    pub headers: Vec<HeaderField>,
}

/// What a [`ResponseHead`] stands for in contracts.
pub struct HeadModel {
    pub status: u16,
    pub headers: Seq<HeaderModel>,
}

impl View for ResponseHead {
    type V = HeadModel;

    open spec fn view(&self) -> HeadModel {
        HeadModel { status: self.status, headers: headers_model(self.headers@) }
    }
}

impl HeaderField {
    /// A header line with the given name and value.
    pub fn new(name: &str, value: &[u8]) -> (field: HeaderField)
        ensures
            field@ == (HeaderModel { name: name@, value: value@ }),
    {
        HeaderField { name: name.to_owned(), value: vstd::slice::slice_to_vec(value) }
    }
}

} // verus!
