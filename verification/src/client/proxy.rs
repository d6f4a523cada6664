//! The decisions of the client's relay loops.
use vstd::prelude::*;

use crate::relay::ReadEvent;
use crate::relay::RelayAction;

verus! {

/// What the client's copy loops (tunnel to application, application to
/// tunnel, tunnel to UDP relay, UDP relay to tunnel) do after a read.
pub open spec fn client_copy_action(ev: ReadEvent) -> RelayAction {
    match ev {
        ReadEvent::Read(n) => if n == 0 {
            RelayAction::Stop(false)
        } else {
            RelayAction::Forward(n)
        },
        ReadEvent::WouldBlock => RelayAction::Stop(true),
        ReadEvent::IoError => RelayAction::Retry,
        ReadEvent::OtherError => RelayAction::Fail,
    }
}

/// Decides what a client copy loop does after a read: a closed end stops
/// it with `false`, bytes read are forwarded, "would block" stops it with
/// `true`, another I/O error makes it read again, and any other error ends
/// it with that error.
pub fn client_copy_decision(ev: ReadEvent) -> (a: RelayAction)
    ensures
        a == client_copy_action(ev),
        ev is Read && ev->Read_0 > 0 ==> a == RelayAction::Forward(ev->Read_0),
        a is Forward ==> ev == ReadEvent::Read(a->Forward_0) && a->Forward_0 > 0,
{
    match ev {
        ReadEvent::Read(n) => {
            if n == 0 {
                RelayAction::Stop(false)
            } else {
                RelayAction::Forward(n)
            }
        },
        ReadEvent::WouldBlock => RelayAction::Stop(true),
        ReadEvent::IoError => RelayAction::Retry,
        ReadEvent::OtherError => RelayAction::Fail,
    }
}

/// What the client does with the application's TCP control connection
/// while a UDP association lasts, after a read.
pub open spec fn client_ctl_action(ev: ReadEvent) -> RelayAction {
    match ev {
        ReadEvent::Read(n) => if n == 0 {
            RelayAction::Stop(false)
        } else {
            RelayAction::Discard
        },
        ReadEvent::WouldBlock => RelayAction::Stop(true),
        ReadEvent::IoError => RelayAction::Retry,
        ReadEvent::OtherError => RelayAction::Fail,
    }
}

/// Decides what the client does with the control connection of a UDP
/// association after a read: a closed connection ends the association
/// (`false`), bytes sent on it are dropped, "would block" ends the round
/// with `true`, another I/O error makes it read again, and any other error
/// ends it with that error.
pub fn client_ctl_decision(ev: ReadEvent) -> (a: RelayAction)
    ensures
        a == client_ctl_action(ev),
{
    match ev {
        ReadEvent::Read(n) => {
            if n == 0 {
                RelayAction::Stop(false)
            } else {
                RelayAction::Discard
            }
        },
        ReadEvent::WouldBlock => RelayAction::Stop(true),
        ReadEvent::IoError => RelayAction::Retry,
        ReadEvent::OtherError => RelayAction::Fail,
    }
}

/// The end of a client session that a relay round served, with the
/// round's answer where it gives one.
#[derive(Clone, Copy, Debug, PartialEq, Eq, Structural)]
pub enum ClientRound {
    /// Tunnel to application or UDP relay; `false` when the tunnel closed.
    Tunnel(bool),
    /// Application to tunnel; `false` when the application closed.
    Application(bool),
    /// The control connection of a UDP association; `false` when it closed.
    Control(bool),
    /// UDP relay to tunnel; such a round gives no answer.
    UdpRelay,
}

/// Whether a client session goes on after a round.
pub open spec fn client_session_goes_on(r: ClientRound) -> bool {
    match r {
        ClientRound::Tunnel(open) => open,
        ClientRound::Application(open) => open,
        ClientRound::Control(open) => open,
        ClientRound::UdpRelay => true,
    }
}

/// Decides whether a client session (a CONNECT relay or a UDP
/// association) goes on after a round: it ends when the tunnel, the
/// application or the control connection closed; a round of the UDP relay
/// never ends it.
pub fn client_session_continues(r: ClientRound) -> (b: bool)
    ensures
        b == client_session_goes_on(r),
{
    match r {
        ClientRound::Tunnel(open) => open,
        ClientRound::Application(open) => open,
        ClientRound::Control(open) => open,
        ClientRound::UdpRelay => true,
    }
}

/// A copy loop loses no byte that it read: any read of some bytes is
/// forwarded whole, and only reads of some bytes are forwarded, by the
/// number of bytes read. It reports a closed end exactly on a read of no
/// bytes, and an open end with nothing to read exactly on "would block".
pub proof fn lemma_client_copy_forwards_every_byte(ev: ReadEvent)
    ensures
        ev is Read && ev->Read_0 > 0 ==> client_copy_action(ev) == RelayAction::Forward(ev->Read_0),
        client_copy_action(ev) is Forward ==> ev == ReadEvent::Read(client_copy_action(ev)->Forward_0) && client_copy_action(ev)->Forward_0 > 0,        client_copy_action(ev) == RelayAction::Stop(false) <==> ev == ReadEvent::Read(0),
        client_copy_action(ev) == RelayAction::Stop(true) <==> ev == ReadEvent::WouldBlock,
{
}

/// The control connection of a UDP association is never relayed: no read
/// on it is forwarded, the association ends exactly when a read returns no
/// bytes, and bytes read on it are dropped.
pub proof fn lemma_client_ctl_never_forwards(ev: ReadEvent)
    ensures
        !(client_ctl_action(ev) is Forward),
        client_ctl_action(ev) == RelayAction::Stop(false) <==> ev == ReadEvent::Read(0),
        ev is Read && ev->Read_0 > 0 ==> client_ctl_action(ev) == RelayAction::Discard,
{
}

} // verus!
