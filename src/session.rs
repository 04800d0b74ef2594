use vstd::prelude::*;
use crate::reconnect::Reconnect;

verus! {

/// Where the audio-server listener stands in its session.
#[derive(Clone, Copy, Debug, PartialEq, Eq)]
pub enum ListenPhase {
    /// No session: connect and authenticate.
    Connecting,
    /// Connected: query the watched sink by name and publish its volume.
    QueryingInitial,
    /// Subscribe to sink changes.
    Subscribing,
    /// Read the acknowledgement of the subscription.
    AwaitingAck,
    /// Wait for server events.
    Listening,
}

/// What the loop reports back after doing the last action.
#[derive(Clone, Copy, Debug, PartialEq, Eq)]
pub enum ListenEvent {
    /// Connecting or authenticating failed.
    ConnectFailed,
    /// The handshake succeeded.
    Connected,
    /// The last query, subscription or acknowledgement went through.
    Done,
    /// A sink-change event arrived, with the sink index it names, if any.
    SinkChanged(Option<u32>),
    /// A server message of another kind arrived.
    OtherMessage,
    /// A transport or protocol error ended the session.
    Failed,
}

/// What the loop does next.
#[derive(Clone, Copy, Debug, PartialEq, Eq)]
pub enum ListenAction {
    /// Sleep for the retry delay, then connect again; report the failure
    /// when `report` holds.
    RetryConnect { report: bool },
    /// Query the watched sink by name and publish its volume.
    QueryByName,
    /// Send the subscription request.
    Subscribe,
    /// Read the subscription's acknowledgement.
    ReadAck,
    /// Read the next server message.
    ReadEvent,
    /// Query the sink with this index, keep the reply only if it names the
    /// watched sink, and publish its volume.
    QueryByIndex(u32),
    /// Drop the session, sleep for the retry delay and connect again.
    Restart,
}

/// The listener's next phase and action after `event` in `phase`, where
/// `failing` tells whether the last connection attempt failed.
pub open spec fn listen_next(phase: ListenPhase, failing: bool, event: ListenEvent) -> (
    ListenPhase,
    ListenAction,
) {
    match (phase, event) {
        (ListenPhase::Connecting, ListenEvent::ConnectFailed) => (
            ListenPhase::Connecting,
            ListenAction::RetryConnect { report: !failing },
        ),
        (ListenPhase::Connecting, ListenEvent::Connected) => (
            ListenPhase::QueryingInitial,
            ListenAction::QueryByName,
        ),
        (ListenPhase::QueryingInitial, ListenEvent::Done) => (
            ListenPhase::Subscribing,
            ListenAction::Subscribe,
        ),
        (ListenPhase::Subscribing, ListenEvent::Done) => (
            ListenPhase::AwaitingAck,
            ListenAction::ReadAck,
        ),
        (ListenPhase::AwaitingAck, ListenEvent::Done) => (
            ListenPhase::Listening,
            ListenAction::ReadEvent,
        ),
        (ListenPhase::Listening, ListenEvent::SinkChanged(Some(index))) => (
            ListenPhase::Listening,
            ListenAction::QueryByIndex(index),
        ),
        (ListenPhase::Listening, ListenEvent::SinkChanged(None)) => (
            ListenPhase::Listening,
            ListenAction::ReadEvent,
        ),
        (ListenPhase::Listening, ListenEvent::OtherMessage) => (
            ListenPhase::Listening,
            ListenAction::ReadEvent,
        ),
        (ListenPhase::Listening, ListenEvent::Done) => (
            ListenPhase::Listening,
            ListenAction::ReadEvent,
        ),
        _ => (ListenPhase::Connecting, ListenAction::Restart),
    }
}

/// The decisions of the audio-server listener: one session at a time, each
/// error ending it and starting a new one after the retry delay.
pub struct SinkListener {
    pub phase: ListenPhase,
    pub retry: Reconnect,
}

impl SinkListener {
    /// A listener about to make its first connection attempt.
    pub fn new() -> (r: Self)
        ensures
            r.phase == ListenPhase::Connecting,
            !r.retry.failing,
    {
        SinkListener { phase: ListenPhase::Connecting, retry: Reconnect::new() }
    }

    /// Takes the event that the last action ended with and returns the next
    /// action.
    pub fn step(&mut self, event: ListenEvent) -> (r: ListenAction)
        ensures
            (final(self).phase, r) == listen_next(old(self).phase, old(self).retry.failing, event),
            event == ListenEvent::ConnectFailed && old(self).phase == ListenPhase::Connecting
                ==> final(self).retry.failing,
            event == ListenEvent::Connected && old(self).phase == ListenPhase::Connecting
                ==> !final(self).retry.failing,
            !(old(self).phase == ListenPhase::Connecting && (event == ListenEvent::ConnectFailed
                || event == ListenEvent::Connected)) ==> final(self).retry == old(self).retry,
    {
        let (phase, action) = match (self.phase, event) {
            (ListenPhase::Connecting, ListenEvent::ConnectFailed) => {
                let report = self.retry.connect_failed();
                (ListenPhase::Connecting, ListenAction::RetryConnect { report })
            },
            (ListenPhase::Connecting, ListenEvent::Connected) => {
                self.retry.connected();
                (ListenPhase::QueryingInitial, ListenAction::QueryByName)
            },
            (ListenPhase::QueryingInitial, ListenEvent::Done) => (
                ListenPhase::Subscribing,
                ListenAction::Subscribe,
            ),
            (ListenPhase::Subscribing, ListenEvent::Done) => (
                ListenPhase::AwaitingAck,
                ListenAction::ReadAck,
            ),
            (ListenPhase::AwaitingAck, ListenEvent::Done) => (
                ListenPhase::Listening,
                ListenAction::ReadEvent,
            ),
            (ListenPhase::Listening, ListenEvent::SinkChanged(Some(index))) => (
                ListenPhase::Listening,
                ListenAction::QueryByIndex(index),
            ),
            (ListenPhase::Listening, ListenEvent::SinkChanged(None)) => (
                ListenPhase::Listening,
                ListenAction::ReadEvent,
            ),
            (ListenPhase::Listening, ListenEvent::OtherMessage) => (
                ListenPhase::Listening,
                ListenAction::ReadEvent,
            ),
            (ListenPhase::Listening, ListenEvent::Done) => (
                ListenPhase::Listening,
                ListenAction::ReadEvent,
            ),
            _ => (ListenPhase::Connecting, ListenAction::Restart),
        };
        self.phase = phase;
        action
    }
}

} // verus!
