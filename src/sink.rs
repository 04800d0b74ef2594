use vstd::prelude::*;
use crate::command::VolumeCommand;
use crate::playback::{reflect_outcome, ReflectOutcome};
use crate::scale::{native_of, native_to_percentage, percentage_of, percentage_to_native};

verus! {

/// Whether two byte strings are equal.
pub fn same_bytes(a: &[u8], b: &[u8]) -> (r: bool)
    ensures
        r == (a@ == b@),
{
    if a.len() != b.len() {
        return false;
    }
    let mut i: usize = 0;
    while i < a.len()
        invariant
            a@.len() == b@.len(),
            0 <= i <= a@.len(),
            a@.subrange(0, i as int) == b@.subrange(0, i as int),
        decreases a@.len() - i,
    {
        if a[i] != b[i] {
            assert(a@[i as int] != b@[i as int]);
            return false;
        }
        assert(a@.subrange(0, i + 1) == a@.subrange(0, i as int).push(a@[i as int]));
        assert(b@.subrange(0, i + 1) == b@.subrange(0, i as int).push(b@[i as int]));
        i = i + 1;
    }
    assert(a@ == a@.subrange(0, a@.len() as int));
    assert(b@ == b@.subrange(0, b@.len() as int));
    true
}

/// The value a sink-info reply publishes: the first channel's volume as a
/// percentage, from the audio server, when the reply is about the sink named
/// `target` and has a channel.
pub open spec fn published_for(target: Seq<u8>, reply_name: Seq<u8>, channels: Seq<u32>) -> Option<
    (u8, Seq<char>),
> {
    if reply_name == target && channels.len() > 0 {
        Some((percentage_of(channels[0] as int) as u8, Seq::<char>::empty()))
    } else {
        None
    }
}

/// Turns a sink-info reply (its sink name and channel volumes in native units)
/// into the command to publish on the broadcast channel, if any.
pub fn reply_command(target: &[u8], reply_name: &[u8], channels: &[u32]) -> (r: Option<
    VolumeCommand,
>)
    ensures
        published_for(target@, reply_name@, channels@) is None <==> r is None,
        published_for(target@, reply_name@, channels@) matches Some((v, s)) ==> (r matches Some(
            VolumeCommand::SetTo { volume, source },
        ) && volume == v && source@ == s),
        r matches Some(c) ==> c.well_formed(),
{
    if !same_bytes(target, reply_name) || channels.len() == 0 {
        return None;
    }
    let volume = native_to_percentage(channels[0]);
    Some(VolumeCommand::SetTo { volume, source: String::new() })
}

/// The native volume an actuator asks the sink for, given an action and the
/// configured ceiling; `None` when the action asks for nothing.
pub open spec fn requested_native(command: VolumeCommand, max_volume: int) -> Option<int> {
    match command {
        VolumeCommand::NoChange => None,
        VolumeCommand::SetTo { volume, .. } => Some(
            native_of(if volume > max_volume { max_volume } else { volume as int }),
        ),
    }
}

/// Decides the sink set-volume request for an action: its volume is capped at
/// `max_volume` and converted to the native scale.
pub fn sink_request(command: &VolumeCommand, max_volume: u8) -> (r: Option<u32>)
    ensures
        r matches Some(n) ==> requested_native(*command, max_volume as int) == Some(n as int),
        r is None <==> requested_native(*command, max_volume as int) is None,
        r matches Some(n) ==> n <= native_of(max_volume as int),
{
    match command {
        VolumeCommand::NoChange => None,
        VolumeCommand::SetTo { volume, .. } => {
            let capped: u8 = if *volume > max_volume {
                max_volume
            } else {
                *volume
            };
            proof {
                crate::scale::lemma_native_monotonic(capped as int, max_volume as int);
            }
            Some(percentage_to_native(capped))
        },
    }
}

/// The tag of the next request on an audio-server session. Tags increase by
/// one per request and never wrap.
pub struct RequestSeq {
    pub next: u32,
}

impl RequestSeq {
    /// The handshake spends tags 0 (authenticate) and 1 (client name).
    pub fn after_handshake() -> (r: Self)
        ensures
            r.next == 2,
    {
        RequestSeq { next: 2 }
    }

    /// Resumes after the subscription acknowledgement tagged `ack`; `None`
    /// when no tag is left after it.
    pub fn after_ack(ack: u32) -> (r: Option<Self>)
        ensures
            r is Some <==> ack < u32::MAX,
            r matches Some(s) ==> s.next == ack + 1,
    {
        if ack < u32::MAX {
            Some(RequestSeq { next: ack + 1 })
        } else {
            None
        }
    }

    /// Hands out the tag for one request; `None` once the tags are spent,
    /// which ends the session.
    pub fn take(&mut self) -> (r: Option<u32>)
        ensures
            old(self).next < u32::MAX ==> r == Some(old(self).next) && final(self).next == old(
                self,
            ).next + 1,
            old(self).next == u32::MAX ==> r is None && final(self).next == old(self).next,
    {
        if self.next < u32::MAX {
            let tag = self.next;
            self.next = self.next + 1;
            Some(tag)
        } else {
            None
        }
    }
}

/// A volume that the audio-server side publishes for the watched sink is
/// applied, unchanged, by the reflector of every endpoint: no endpoint address
/// is empty, so none takes it for its own echo.
pub proof fn lemma_sink_change_reaches_every_endpoint(
    target: Seq<u8>,
    reply_name: Seq<u8>,
    channels: Seq<u32>,
    command: VolumeCommand,
    address: Seq<char>,
)
    requires
        published_for(target, reply_name, channels) matches Some((v, s)) && command matches VolumeCommand::SetTo {
            volume,
            source,
        } && volume == v && source@ == s,
        address.len() > 0,
    ensures
        reflect_outcome(address, command) == ReflectOutcome::Apply(
            percentage_of(channels[0] as int) as i8,
        ),
        0 <= percentage_of(channels[0] as int) <= 100,
{
    vstd::arithmetic::div_mod::lemma_div_pos_is_pos(
        2 * (channels[0] * 100) + 0x10000,
        2 * 0x10000int,
    );
    assert(command->source@.len() == 0);
}

} // verus!
