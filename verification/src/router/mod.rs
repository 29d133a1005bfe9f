//! What the exporter serves, and where.

pub mod exposition;
pub mod metrics;

use crate::ceph::count::{count_of, parse_count};
use vstd::prelude::*;
use vstd::slice::slice_subrange;

verus! {

/// The port at which the exporter listens unless it is told another one.
pub const DEFAULT_PORT: u16 = 3000;

/// The port that a setting names, if it names one: the setting is an
/// optional plus sign and, behind it, one or more ASCII digits that denote a
/// number up to 65535. Nothing else may stand in it, no blank either.
pub open spec fn port_of(setting: Seq<u8>) -> Option<u16> {
    let digits = if setting.len() > 0 && setting[0] == 0x2b {
        setting.skip(1)
    } else {
        setting
    };
    match count_of(digits) {
        Some(n) => if n <= u16::MAX {
            Some(n as u16)
        } else {
            None
        },
        None => None,
    }
}

/// The port at which to listen, given the setting if there is one: the port
/// that the setting names, or `DEFAULT_PORT` where there is no setting or it
/// names no port.
pub open spec fn listen_port_spec(setting: Option<Seq<u8>>) -> u16 {
    match setting {
        Some(text) => match port_of(text) {
            Some(port) => port,
            None => DEFAULT_PORT,
        },
        None => DEFAULT_PORT,
    }
}

/// Reads a port from a setting.
pub fn named_port(setting: &[u8]) -> (port: Option<u16>)
    ensures
        port == port_of(setting@),
{
    let digits = if setting.len() > 0 && setting[0] == 0x2b {
        proof {
            assert(setting@.skip(1) =~= setting@.subrange(1, setting@.len() as int));
        }
        slice_subrange(setting, 1, setting.len())
    } else {
        setting
    };
    match parse_count(digits) {
        Some(n) => if n <= 65535 {
            Some(n as u16)
        } else {
            None
        },
        None => None,
    }
}

/// The port at which to listen, given the setting if there is one.
pub fn listen_port(setting: Option<&[u8]>) -> (port: u16)
    ensures
        port == listen_port_spec(
            match setting {
                Some(text) => Some(text@),
                None => None,
            },
        ),
{
    match setting {
        Some(text) => match named_port(text) {
            Some(port) => port,
            None => DEFAULT_PORT,
        },
        None => DEFAULT_PORT,
    }
}

} // verus!
