//! Pen sources: datagrams, an evdev tablet, and the one that never yields.

pub mod evdev;
pub mod net;

use crate::config;
use crate::pen::RawPen;
use crate::source::evdev::{EvdevSource, TabletPoint};
use crate::source::net::NetSource;
use vstd::prelude::*;

verus! {

/// The source that exists when none is wanted: it never yields a sample.
#[derive(Clone, Copy, Debug, PartialEq, Eq, Structural)]
pub struct DummySource;

impl DummySource {
    /// No sample.
    pub fn get(&mut self) -> (r: Option<RawPen>)
        ensures
            r is None,
            *final(self) == *old(self),
    {
        None
    }
}

/// A pen source of any kind.
#[derive(Clone, Copy, Debug, PartialEq, Eq, Structural)]
pub enum Source {
    /// The source that never yields.
    Dummy(DummySource),
    /// Datagrams over UDP.
    Net(NetSource),
    /// An evdev tablet.
    Evdev(EvdevSource),
}

/// The source that stands for a configured kind, before anything was read
/// from it. Wintab stands in as a source that never yields.
pub open spec fn source_of(kind: config::Source) -> Source {
    match kind {
        config::Source::Disabled => Source::Dummy(DummySource),
        config::Source::Net => Source::Net(NetSource),
        config::Source::Wintab => Source::Dummy(DummySource),
        config::Source::Evdev => Source::Evdev(
            EvdevSource { current: TabletPoint { x: None, y: None, pressure: 0 } },
        ),
    }
}

/// The source that `config` asks for, before anything was read from it.
pub fn create_source(config: &config::Config) -> (r: Source)
    ensures
        r == source_of(config.source),
{
    match config.source {
        config::Source::Disabled => Source::Dummy(DummySource),
        config::Source::Net => Source::Net(NetSource),
        config::Source::Wintab => Source::Dummy(DummySource),
        config::Source::Evdev => Source::Evdev(EvdevSource::new()),
    }
}

} // verus!
