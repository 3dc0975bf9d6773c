//! Commands that only mark an entry as something else than a command.

use vstd::prelude::*;
use crate::config::Cli;
use vstd::string::*;
use vstd::utf8::*;
use crate::codec::utf8_strict;
use crate::command::ConstructError;
use crate::message::{FlopMessagable, ReplyView};

verus! {

/// Marks an entry as a subregistry. It is not meant to be run.
#[derive(Debug)]
pub struct SubregistyMarkerCommand {
    registry: String,
}

impl SubregistyMarkerCommand {
    /// The registry that the marker names.
    pub closed spec fn registry(&self) -> Seq<char> {
        self.registry@
    }

    /// Builds the marker from the stored name of the registry.
    pub fn construct(_cli: &Cli, data: &[u8]) -> (r: Result<SubregistyMarkerCommand, ConstructError>)
        ensures
            match r {
                Ok(m) => valid_utf8(data@) && m.registry() == decode_utf8(data@),
                Err(e) => !valid_utf8(data@) && e == ConstructError::InvalidText,
            },
    {
        match utf8_strict(data) {
            Some(registry) => Ok(SubregistyMarkerCommand { registry }),
            None => Err(ConstructError::InvalidText),
        }
    }

    /// A marker that is run all the same answers nothing.
    pub fn execute(&mut self) -> (r: FlopMessagable)
        ensures
            r@ == ReplyView::Nothing,
            final(self).registry() == old(self).registry(),
    {
        FlopMessagable::_None
    }

    /// The name of the registry, as bytes.
    pub fn save(&self) -> (r: Option<Vec<u8>>)
        ensures
            r is Some,
            r->Some_0@ == encode_utf8(self.registry()),
    {
        Some(self.registry.as_str().as_bytes_vec())
    }
}

} // verus!
