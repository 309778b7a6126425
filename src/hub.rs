//! The `hub.get` and `hub.set` requests.
use vstd::prelude::*;

verus! {

/// Request for the hub configuration.
pub struct HubGet {
    pub req: &'static str,
}

impl Default for HubGet {
    fn default() -> (r: HubGet)
        ensures
            r.req@ == "hub.get"@,
    {
        HubGet { req: "hub.get" }
    }
}

/// How the device connects to the hub.
#[derive(Debug, Clone, Copy, PartialEq, Eq, Structural)]
pub enum HubMode {
    Periodic,
    Continuous,
    Minimum,
    Off,
    DFU,
}

/// Request that sets the hub configuration; absent fields are not sent.
pub struct HubSet<'a> {
    pub req: &'static str,
    pub product: Option<&'a str>,
    pub host: Option<&'a str>,
    pub mode: Option<HubMode>,
    pub sn: Option<&'a str>,
    pub outbound: Option<u32>,
    pub duration: Option<u32>,
    pub voutbound: Option<&'a str>,
    pub inbound: Option<u32>,
    pub vinbound: Option<&'a str>,
    pub align: Option<bool>,
    pub sync: Option<bool>,
}

impl<'a> Default for HubSet<'a> {
    fn default() -> (r: HubSet<'a>)
        ensures
            r.req@ == "hub.set"@,
            r.product is None,
            r.host is None,
            r.mode is None,
            r.sn is None,
            r.outbound is None,
            r.duration is None,
            r.voutbound is None,
            r.inbound is None,
            r.vinbound is None,
            r.align is None,
            r.sync is None,
    {
        HubSet {
            req: "hub.set",
            product: None,
            host: None,
            mode: None,
            sn: None,
            outbound: None,
            duration: None,
            voutbound: None,
            inbound: None,
            vinbound: None,
            align: None,
            sync: None,
        }
    }
}

/// A result with no fields.
#[derive(Debug, Clone, Copy, PartialEq, Eq, Structural)]
pub struct Empty {}

} // verus!
