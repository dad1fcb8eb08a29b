//! Telemetry library for a 3D printer that publishes its status over a
//! message bus: a listener registry for fanning out raw messages, decoders for
//! structured reports and free-text diagnostics, and a bed-levelling grid.
use vstd::prelude::*;

pub mod error;
pub mod hub;
pub mod json;
pub mod level;
pub mod number;
pub mod text;
pub mod types;

use crate::json::same_text;
use crate::text::{chars_of, nat_text, push_nat, string_of};

verus! {

/// Port of the printer's message bus, unless configured otherwise.
pub const DEFAULT_PORT: u16 = 8883;

/// Options for a printer connection.
#[derive(Clone, PartialEq, Debug)]
pub struct ConnectOpts {
    /// Hostname or IP address
    pub hostname: String,
    /// Message bus port
    pub port: u16,
    /// Access code (see the printer's local connection page)
    pub access_code: String,
}

impl Default for ConnectOpts {
    fn default() -> (r: Self)
        ensures
            r.hostname@ == Seq::<char>::empty(),
            r.port == DEFAULT_PORT,
            r.access_code@ == Seq::<char>::empty(),
    {
        ConnectOpts { hostname: String::new(), port: DEFAULT_PORT, access_code: String::new() }
    }
}

/// The address of the printer's secure message bus endpoint.
pub open spec fn server_uri_text(hostname: Seq<char>, port: u16) -> Seq<char> {
    "mqtts://"@ + hostname + seq![':'] + nat_text(port as nat)
}

impl ConnectOpts {
    /// `mqtts://<hostname>:<port>`
    pub fn server_uri(&self) -> (r: String)
        ensures
            r@ == server_uri_text(self.hostname@, self.port),
    {
        let mut t = chars_of("mqtts://");
        let mut h = chars_of(self.hostname.as_str());
        t.append(&mut h);
        t.push(':');
        push_nat(&mut t, self.port as u64);
        string_of(&t)
    }

    /// Two connections reach the same printer when host and port agree; the
    /// access code plays no part.
    pub fn same_printer(&self, other: &ConnectOpts) -> (r: bool)
        ensures
            r == (self.hostname@ == other.hostname@ && self.port == other.port),
    {
        self.port == other.port && same_text(&self.hostname, other.hostname.as_str())
    }

    /// The fixed account name the printer expects; the access code is the
    /// password.
    pub fn user_name(&self) -> (r: String)
        ensures
            r@ == "bblp"@,
    {
        "bblp".to_owned()
    }
}

} // verus!
