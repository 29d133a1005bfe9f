//! Metrics for the block images of a Ceph cluster.
//!
//! The library holds the decisions of an exporter that polls the REST API of
//! the Ceph manager and serves what it finds as gauges: the bearer-token life
//! cycle, the recovery from a rejected token, the bounded retry of transient
//! failures, the two-phase image listing and the rendering of one scrape.
//! Everything that waits on the network is left to the caller, which feeds the
//! outcome of each request back into the state machines defined here.

pub mod ceph;
pub mod router;
