//! Connection configuration: where the three sockets bind, and the key.
use crate::display::{concat, decimal, decimal_text};
use vstd::prelude::*;

verus! {

/// Connection configuration of a kernel.
#[derive(Debug, Clone)]
pub struct ConnectionConfig {
    pub transport: String,
    pub ip: String,
    pub shell_port: u16,
    pub iopub_port: u16,
    pub stdin_port: u16,
    pub control_port: u16,
    pub hb_port: u16,
    pub signature_scheme: String,
    pub key: String,
    pub kernel_name: Option<String>,
}

/// The endpoint `"{transport}://{ip}:{port}"`.
pub open spec fn endpoint(transport: Seq<char>, ip: Seq<char>, port: u16) -> Seq<char> {
    transport + "://"@ + ip + ":"@ + decimal_text(port as int)
}

fn endpoint_url(transport: &String, ip: &String, port: u16) -> (r: String)
    ensures
        r@ == endpoint(transport@, ip@, port),
{
    let a = concat(transport.as_str(), "://");
    let b = concat(a.as_str(), ip.as_str());
    let c = concat(b.as_str(), ":");
    let p = decimal(port as i64);
    let r = concat(c.as_str(), p.as_str());
    r
}

/// Socket endpoints derived from a connection configuration.
pub trait ConnectionConfigExt {
    spec fn spec_transport(&self) -> Seq<char>;

    spec fn spec_ip(&self) -> Seq<char>;

    spec fn spec_ports(&self) -> (u16, u16, u16);

    /// Endpoint of the request/reply socket.
    fn shell_url(&self) -> (r: String)
        ensures
            r@ == endpoint(self.spec_transport(), self.spec_ip(), self.spec_ports().0),
    ;

    /// Endpoint of the broadcast socket.
    fn iopub_url(&self) -> (r: String)
        ensures
            r@ == endpoint(self.spec_transport(), self.spec_ip(), self.spec_ports().1),
    ;

    /// Endpoint of the heartbeat socket.
    fn hb_url(&self) -> (r: String)
        ensures
            r@ == endpoint(self.spec_transport(), self.spec_ip(), self.spec_ports().2),
    ;
}

impl ConnectionConfigExt for ConnectionConfig {
    open spec fn spec_transport(&self) -> Seq<char> {
        self.transport@
    }

    open spec fn spec_ip(&self) -> Seq<char> {
        self.ip@
    }

    open spec fn spec_ports(&self) -> (u16, u16, u16) {
        (self.shell_port, self.iopub_port, self.hb_port)
    }

    fn shell_url(&self) -> (r: String) {
        endpoint_url(&self.transport, &self.ip, self.shell_port)
    }

    fn iopub_url(&self) -> (r: String) {
        endpoint_url(&self.transport, &self.ip, self.iopub_port)
    }

    fn hb_url(&self) -> (r: String) {
        endpoint_url(&self.transport, &self.ip, self.hb_port)
    }
}

} // verus!
