//! What the server computes before it starts to listen.

use crate::address::{
    advertised_url, advertised_url_text, announcement, announcement_text, bind_address,
    bind_address_text,
};
use crate::config::{Config, Effective};
use crate::qr::{connect_code, pictures, EncodeError};
use vstd::prelude::*;

verus! {

/// The texts of a startup, in the order in which they are used: the
/// announcement and the QR code are printed, then the socket is bound.
pub struct Startup {
    /// The socket address to bind.
    pub bind_addr: String,
    /// The URL that the QR code carries.
    pub url: String,
    /// The line that announces the URL.
    pub announcement: String,
    /// The picture of the QR code, or why the URL has none.
    pub connect_code: Result<String, EncodeError>,
}

impl Startup {
    /// Whether these are the texts for the settings `config` on a host whose
    /// address on the local network is `host`: the socket and the URL have
    /// the same port, the URL ends in the mount path, and the announcement
    /// and the QR code carry that URL.
    pub open spec fn is_for(self, config: Effective, host: Seq<char>) -> bool {
        &&& self.bind_addr@ == bind_address_text(config.port)
        &&& self.url@ == advertised_url_text(host, config.port, config.mount_path)
        &&& self.announcement@ == announcement_text(self.url@)
        &&& pictures(self.url@, self.connect_code)
    }

    /// The texts for starting a server with the settings `config` on a host
    /// whose address on the local network is `host`.
    pub fn prepare(config: &Config, host: &str) -> (s: Startup)
        ensures
            s.is_for(config@, host@),
    {
        let port = config.get_port_or_default();
        let bind_addr = bind_address(port);
        let url = advertised_url(host, port, config.get_mount_path_or_default());
        let announcement = announcement(url.as_str());
        let connect_code = connect_code(url.as_str());
        Startup { bind_addr, url, announcement, connect_code }
    }
}

} // verus!
