//! A decoded request and the ways decoding can fail.

use vstd::prelude::*;

verus! {

/// The most headers a request may carry.
pub const MAX_HEADERS: usize = 16;

/// Why a buffer did not decode to a request.
#[derive(Debug, Clone, Copy, PartialEq, Eq, Structural)]
pub enum ParseError {
    /// The buffer ends before the blank line that closes the header block.
    Incomplete,
    /// The start line or a header breaks the grammar, or there are more
    /// headers than [`MAX_HEADERS`].
    Malformed,
    /// The head is whole, yet it names no method or no path.
    MissingField,
}

/// The mathematical value of a [`Request`].
pub struct RequestView {
    pub method: Seq<char>,
    pub path: Seq<char>,
    /// Name and value of each header, in the order of the wire. A name may
    /// occur more than once.
    pub headers: Seq<(Seq<char>, Seq<char>)>,
    /// Every byte of the buffer behind the header block.
    pub body: Seq<u8>,
}

impl RequestView {
    /// What holds of every request: it names a method and a path, and carries
    /// no more than [`MAX_HEADERS`] headers.
    pub open spec fn valid(self) -> bool {
        &&& self.method.len() > 0
        &&& self.path.len() > 0
        &&& self.headers.len() <= MAX_HEADERS
    }
}

/// The texts of a list of header pairs.
pub open spec fn pairs_view(pairs: Seq<(String, String)>) -> Seq<(Seq<char>, Seq<char>)> {
    Seq::new(pairs.len(), |i: int| (pairs[i].0@, pairs[i].1@))
}

/// One decoded request: method, path, headers in wire order, and body.
#[derive(Debug, PartialEq, Eq)]
pub struct Request {
    method: String,
    path: String,
    headers: Vec<(String, String)>,
    body: Vec<u8>,
}

impl View for Request {
    type V = RequestView;

    closed spec fn view(&self) -> RequestView {
        RequestView {
            method: self.method@,
            path: self.path@,
            headers: pairs_view(self.headers@),
            body: self.body@,
        }
    }
}

impl Request {
    #[verifier::type_invariant]
    spec fn well_formed(&self) -> bool {
        self@.valid()
    }

    /// Puts a request together from its parts.
    pub fn new(method: String, path: String, headers: Vec<(String, String)>, body: Vec<u8>) -> (request: Self)
        requires
            method@.len() > 0,
            path@.len() > 0,
            headers@.len() <= MAX_HEADERS,
        ensures
            request@ == (RequestView {
                method: method@,
                path: path@,
                headers: pairs_view(headers@),
                body: body@,
            }),
    {
        assert(pairs_view(headers@).len() == headers@.len());
        Request { method, path, headers, body }
    }

    /// The request method, such as `GET`.
    pub fn method(&self) -> (method: &str)
        ensures
            method@ == self@.method,
            method@.len() > 0,
    {
        proof {
            use_type_invariant(self);
        }
        self.method.as_str()
    }

    /// The request target, as it stood on the start line.
    pub fn path(&self) -> (path: &str)
        ensures
            path@ == self@.path,
            path@.len() > 0,
    {
        proof {
            use_type_invariant(self);
        }
        self.path.as_str()
    }

    /// The headers, in wire order.
    pub fn headers(&self) -> (headers: &Vec<(String, String)>)
        ensures
            pairs_view(headers@) == self@.headers,
            headers@.len() <= MAX_HEADERS,
    {
        proof {
            use_type_invariant(self);
        }
        &self.headers
    }

    /// How many headers the request carries.
    pub fn header_count(&self) -> (count: usize)
        ensures
            count == self@.headers.len(),
            count <= MAX_HEADERS,
    {
        proof {
            use_type_invariant(self);
        }
        self.headers.len()
    }

    /// The bytes behind the header block.
    pub fn body(&self) -> (body: &[u8])
        ensures
            body@ == self@.body,
    {
        self.body.as_slice()
    }
}

} // verus!
