use vstd::prelude::*;
use crate::command::VolumeCommand;

verus! {

/// Whether `published` already announces the volume `volume`.
pub open spec fn announces(published: VolumeCommand, volume: int) -> bool {
    published matches VolumeCommand::SetTo { volume: v, .. } && v == volume
}

/// What a listener does with a volume read from its endpoint.
#[derive(Debug, PartialEq, Eq)]
pub enum ListenOutcome {
    /// The volume equals the baseline.
    Unchanged,
    /// The volume lies outside `0..=100`: warn and ignore it.
    OutOfRange,
    /// The change is the tail of an update that came from the engine.
    Acknowledged,
    /// A change made at the endpoint: queue this action.
    Enqueue(VolumeCommand),
}

/// The last volume a listener saw at its endpoint.
pub struct MixerBaseline {
    pub volume: i8,
}

impl MixerBaseline {
    /// The baseline read right after connecting.
    pub fn new(volume: i8) -> (r: Self)
        ensures
            r.volume == volume,
    {
        MixerBaseline { volume }
    }

    /// Decides on a volume just read from the endpoint at `address`, given the
    /// value the broadcast channel holds now.
    pub fn observe(&mut self, address: &String, volume: i8, published: &VolumeCommand) -> (r:
        ListenOutcome)
        ensures
            volume == old(self).volume ==> r == ListenOutcome::Unchanged && final(self).volume
                == old(self).volume,
            volume != old(self).volume && !(0 <= volume <= 100) ==> r == ListenOutcome::OutOfRange
                && final(self).volume == old(self).volume,
            volume != old(self).volume && 0 <= volume <= 100 && announces(*published, volume as int)
                ==> r == ListenOutcome::Acknowledged && final(self).volume == volume,
            volume != old(self).volume && 0 <= volume <= 100 && !announces(
                *published,
                volume as int,
            ) ==> final(self).volume == volume && (r matches ListenOutcome::Enqueue(
                VolumeCommand::SetTo { volume: v, source },
            ) && v == volume && source@ == address@),
            r matches ListenOutcome::Enqueue(c) ==> c.well_formed(),
    {
        if volume == self.volume {
            return ListenOutcome::Unchanged;
        }
        if volume < 0 || volume > 100 {
            return ListenOutcome::OutOfRange;
        }
        self.volume = volume;
        let level = volume as u8;
        match published {
            VolumeCommand::SetTo { volume: v, .. } if *v == level => ListenOutcome::Acknowledged,
            _ => ListenOutcome::Enqueue(VolumeCommand::SetTo { volume: level, source: address.clone() }),
        }
    }
}

/// What a reflector does with a value from the broadcast channel.
#[derive(Debug, PartialEq, Eq)]
pub enum ReflectOutcome {
    /// Nothing is known yet.
    Skip,
    /// The change came from this endpoint: sending it back would echo it.
    OwnEcho,
    /// The volume lies outside `0..=100`: warn and keep the session.
    OutOfRange,
    /// Set the endpoint's volume to this value.
    Apply(i8),
}

/// The outcome that `reflect` gives for `command` at `address`.
pub open spec fn reflect_outcome(address: Seq<char>, command: VolumeCommand) -> ReflectOutcome {
    match command {
        VolumeCommand::NoChange => ReflectOutcome::Skip,
        VolumeCommand::SetTo { volume, source } => {
            if source@ == address {
                ReflectOutcome::OwnEcho
            } else if volume <= 100 {
                ReflectOutcome::Apply(volume as i8)
            } else {
                ReflectOutcome::OutOfRange
            }
        },
    }
}

/// Decides what the reflector of the endpoint at `address` does with `command`.
pub fn reflect(address: &String, command: &VolumeCommand) -> (r: ReflectOutcome)
    ensures
        r == reflect_outcome(address@, *command),
{
    match command {
        VolumeCommand::NoChange => ReflectOutcome::Skip,
        VolumeCommand::SetTo { volume, source } => {
            if *source == *address {
                ReflectOutcome::OwnEcho
            } else if *volume <= 100 {
                ReflectOutcome::Apply(*volume as i8)
            } else {
                ReflectOutcome::OutOfRange
            }
        },
    }
}

/// A change that the endpoint at `origin` produced comes back to it as its
/// own echo and is not sent again, while every other endpoint applies it.
pub proof fn lemma_echo_suppressed(command: VolumeCommand, origin: Seq<char>, other: Seq<char>)
    requires
        command matches VolumeCommand::SetTo { volume, source } && source@ == origin && volume
            <= 100,
        other != origin,
    ensures
        reflect_outcome(origin, command) == ReflectOutcome::OwnEcho,
        reflect_outcome(other, command) == ReflectOutcome::Apply(command->volume as i8),
{
}

} // verus!
