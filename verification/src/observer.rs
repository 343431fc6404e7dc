//! The concolic observer: it watches the shared memory region that the
//! symbolic runtime writes its trace into.

use vstd::prelude::*;
use vstd::string::StringExecFns;

use crate::trace::{ConcolicMetadata, decode_length_prefixed, length_prefix_valid, trace_of};

verus! {

/// Observes the concolic constraints written into a memory buffer.
pub struct ConcolicObserver<'map> {
    map: &'map [u8],
    name: String,
}

impl<'map> ConcolicObserver<'map> {
    /// The bytes of the observed region.
    pub closed spec fn map_view(&self) -> Seq<u8> {
        self.map@
    }

    /// The observer's name.
    pub closed spec fn name_view(&self) -> Seq<char> {
        self.name@
    }

    /// Creates an observer with the given name over the memory buffer `map`.
    pub fn new(name: &'static str, map: &'map [u8]) -> (observer: Self)
        ensures
            observer.map_view() == map@,
            observer.name_view() == name@,
    {
        ConcolicObserver { map, name: String::from_str(name) }
    }

    /// The observer's name.
    pub fn name(&self) -> (name: &str)
        ensures
            name@ == self.name_view(),
    {
        self.name.as_str()
    }

    /// The observed memory buffer.
    pub fn map(&self) -> (map: &'map [u8])
        ensures
            map@ == self.map_view(),
    {
        self.map
    }

    /// Creates the concolic metadata of this run from the trace currently in
    /// the observed buffer: the bytes that follow the length header. A zero
    /// length gives empty metadata.
    pub fn create_metadata_from_current_map(&self) -> (metadata: ConcolicMetadata)
        requires
            length_prefix_valid(self.map_view()),
        ensures
            metadata@ == trace_of(self.map_view()),
    {
        match decode_length_prefixed(self.map) {
            Some(trace) => {
                if trace.len() == 0 {
                    ConcolicMetadata::default()
                } else {
                    ConcolicMetadata::from_buffer(trace)
                }
            },
            None => {
                assert(false);
                ConcolicMetadata::default()
            },
        }
    }
}

} // verus!
