use vstd::prelude::*;

verus! {

/// The value that flows between the two sides of the engine.
#[derive(Clone, Debug, PartialEq, Eq)]
pub enum VolumeCommand {
    /// No change known yet.
    NoChange,
    /// A volume in `0..=100` and the endpoint that produced it (empty when the
    /// audio server produced it).
    SetTo { volume: u8, source: String },
}

impl VolumeCommand {
    /// Whether this is a `SetTo` whose volume lies in `0..=100`.
    pub open spec fn well_formed(&self) -> bool {
        match self {
            VolumeCommand::NoChange => true,
            VolumeCommand::SetTo { volume, .. } => *volume <= 100,
        }
    }
}

} // verus!
