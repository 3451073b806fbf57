use vstd::prelude::*;

verus! {

/// The outcome of handling one HTTP request: a status code and a JSON body.
pub struct Response {
    pub status: u16,
    pub body: String,
}

/// Mathematical model of a `Response`: the status code and the characters of
/// the body.
pub struct ResponseSpec {
    pub status: u16,
    pub body: Seq<char>,
}

impl View for Response {
    type V = ResponseSpec;

    open spec fn view(&self) -> ResponseSpec {
        ResponseSpec { status: self.status, body: self.body@ }
    }
}

} // verus!
