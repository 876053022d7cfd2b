//! The listener's configuration and its entry points.

use vstd::prelude::*;
use vstd::string::StringExecFns;
use crate::decode::{assemble, decoded, outcome_view, values_read};
use crate::request::{ParseError, Request, MAX_HEADERS};
use crate::response::{failure_text, response_for, response_text};
use crate::scan::{follows_blank_line, has_blank_line, head_scan, scan_head};
use crate::text::{decimal, render_decimal};

verus! {

/// The port a listener made by [`Application::new`] binds.
pub const DEFAULT_PORT: u16 = 8000;

/// A listener bound to the loopback address on one port.
pub struct Application {
    port: u16,
}

impl Application {
    /// The port this listener binds, as a specification value.
    pub closed spec fn spec_port(&self) -> u16 {
        self.port
    }

    /// A listener on the default port.
    pub fn new() -> (app: Self)
        ensures
            app.spec_port() == DEFAULT_PORT,
    {
        Self { port: DEFAULT_PORT }
    }

    /// The port this listener binds.
    #[verifier::when_used_as_spec(spec_port)]
    pub fn port(&self) -> (port: u16)
        ensures
            port == self.spec_port(),
    {
        self.port
    }

    /// The address this listener binds, as a specification value: the
    /// loopback address, a colon and the port as a decimal numeral.
    pub open spec fn spec_address(&self) -> Seq<char> {
        "127.0.0.1:"@ + decimal(self.spec_port() as nat)
    }

    /// The address this listener binds.
    pub fn address(&self) -> (address: String)
        ensures
            address@ == self.spec_address(),
    {
        let port = render_decimal(self.port as usize);
        let mut address = String::from_str("127.0.0.1:");
        address.append(port.as_str());
        address
    }

    /// Decodes one request from the bytes of a single read.
    ///
    /// The head is scanned with a table of [`MAX_HEADERS`] slots and the
    /// outcome is [`decoded`] of that scan. A request comes back only where
    /// the buffer holds a blank line, and its body is all that follows one.
    /// A header value that is not valid UTF-8 never makes decoding fail: it
    /// is read with the replacement marker in it. An empty buffer, as a read
    /// of zero bytes leaves it, decodes to no request.
    pub fn parse_request(buffer: &[u8]) -> (outcome: Result<Request, ParseError>)
        ensures
            outcome_view(outcome) == decoded(head_scan(buffer@, MAX_HEADERS as nat), buffer@),
            outcome matches Ok(request) ==> {
                &&& request@.valid()
                &&& follows_blank_line(buffer@, request@.body)
                &&& values_read(
                    head_scan(buffer@, MAX_HEADERS as nat)->table,
                    request@.headers,
                )
            },
            !has_blank_line(buffer@) ==> outcome is Err,
            buffer@.len() == 0 ==> outcome is Err,
    {
        let scan = scan_head(buffer, MAX_HEADERS);
        assemble(scan, buffer)
    }

    /// The response to the bytes of a single read: the success response to
    /// the request they decode to, or the failure response.
    pub fn respond(buffer: &[u8]) -> (response: String)
        ensures
            response@ == response_text(decoded(head_scan(buffer@, MAX_HEADERS as nat), buffer@)),
            !has_blank_line(buffer@) ==> response@ == failure_text(),
            buffer@.len() == 0 ==> response@ == failure_text(),
    {
        let outcome = Self::parse_request(buffer);
        response_for(&outcome)
    }
}

impl Default for Application {
    /// The zero value: a listener on port 0, which leaves the choice of port
    /// to the operating system.
    fn default() -> (app: Self)
        ensures
            app.spec_port() == 0,
    {
        Self { port: 0 }
    }
}

} // verus!
