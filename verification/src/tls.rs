//! What is known of a secured connection.
use crate::text::{copy_str, opt_view};
use vstd::prelude::*;

verus! {

/// What is known of a secured connection: the version of the protocol,
/// where the two sides have agreed on one.
#[derive(Debug)]
pub struct TlsInfo {
    pub protocol: Option<String>,
}

pub struct TlsInfoView {
    pub protocol: Option<Seq<char>>,
}

impl View for TlsInfo {
    type V = TlsInfoView;

    open spec fn view(&self) -> TlsInfoView {
        TlsInfoView { protocol: opt_view(self.protocol) }
    }
}

impl Clone for TlsInfo {
    fn clone(&self) -> (r: TlsInfo)
        ensures
            r@ == self@,
    {
        TlsInfo {
            protocol: match &self.protocol {
                Some(p) => Some(copy_str(p.as_str())),
                None => None,
            },
        }
    }
}

/// The version of the protocol that a connection has agreed on.
#[derive(Debug)]
pub enum TlsVersion {
    V1_2,
    V1_3,
    /// Another version, by the name under which it is known.
    Other(String),
}

/// The name under which a version of the protocol is shown.
pub open spec fn version_name(version: TlsVersion) -> Seq<char> {
    match version {
        TlsVersion::V1_2 => "TLSv1.2"@,
        TlsVersion::V1_3 => "TLSv1.3"@,
        TlsVersion::Other(name) => name@,
    }
}

impl TlsInfo {
    /// What is known of a connection that has agreed on a version, or on
    /// none yet.
    pub fn of_version(version: Option<TlsVersion>) -> (r: TlsInfo)
        ensures
            r@.protocol == (match version {
                Some(v) => Some(version_name(v)),
                None => None,
            }),
    {
        TlsInfo {
            protocol: match version {
                Some(TlsVersion::V1_2) => Some(copy_str("TLSv1.2")),
                Some(TlsVersion::V1_3) => Some(copy_str("TLSv1.3")),
                Some(TlsVersion::Other(name)) => Some(name),
                None => None,
            },
        }
    }
}

} // verus!
