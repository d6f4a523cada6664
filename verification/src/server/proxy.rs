//! The decisions of the server's relay loops.
use vstd::prelude::*;

use crate::relay::ReadEvent;
use crate::relay::RelayAction;

verus! {

/// What the server's copy loops (remote peer to tunnel, tunnel to remote
/// peer, over TCP or UDP) do after a read.
pub open spec fn server_copy_action(ev: ReadEvent) -> RelayAction {
    match ev {
        ReadEvent::Read(n) => if n == 0 {
            RelayAction::Stop(false)
        } else {
            RelayAction::Forward(n)
        },
        ReadEvent::WouldBlock => RelayAction::Stop(true),
        ReadEvent::IoError => RelayAction::Fail,
        ReadEvent::OtherError => RelayAction::Fail,
    }
}

/// Decides what a server copy loop does after a read: a closed end stops
/// it with `false`, bytes read are forwarded, "would block" stops it with
/// `true`, and every other error ends it with that error.
pub fn server_copy_decision(ev: ReadEvent) -> (a: RelayAction)
    ensures
        a == server_copy_action(ev),
        ev is Read && ev->Read_0 > 0 ==> a == RelayAction::Forward(ev->Read_0),
        a is Forward ==> ev == ReadEvent::Read(a->Forward_0) && a->Forward_0 > 0,
{
    match ev {
        ReadEvent::Read(n) => {
            if n == 0 {
                RelayAction::Stop(false)
            } else {
                RelayAction::Forward(n)
            }
        },
        ReadEvent::WouldBlock => RelayAction::Stop(true),
        _ => RelayAction::Fail,
    }
}

/// The end of a server session that a relay round served, with the
/// round's answer where it gives one.
#[derive(Clone, Copy, Debug, PartialEq, Eq, Structural)]
pub enum ServerRound {
    /// Tunnel to remote peer; `false` when the tunnel closed.
    Tunnel(bool),
    /// Remote TCP peer to tunnel; `false` when the peer closed.
    RemoteTcp(bool),
    /// Remote UDP peers to tunnel; such a round gives no answer.
    RemoteUdp,
}

/// Whether a server session goes on after a round.
pub open spec fn server_session_goes_on(r: ServerRound) -> bool {
    match r {
        ServerRound::Tunnel(open) => open,
        ServerRound::RemoteTcp(open) => open,
        ServerRound::RemoteUdp => true,
    }
}

/// Decides whether a server session goes on after a round: it ends when
/// the tunnel or the remote TCP peer closed; a round of remote UDP traffic
/// never ends it.
pub fn server_session_continues(r: ServerRound) -> (b: bool)
    ensures
        b == server_session_goes_on(r),
{
    match r {
        ServerRound::Tunnel(open) => open,
        ServerRound::RemoteTcp(open) => open,
        ServerRound::RemoteUdp => true,
    }
}

/// A copy loop loses no byte that it read: any read of some bytes is
/// forwarded whole, and only reads of some bytes are forwarded, by the
/// number of bytes read. It reports a closed end exactly on a read of no
/// bytes, and an open end with nothing to read exactly on "would block".
pub proof fn lemma_server_copy_forwards_every_byte(ev: ReadEvent)
    ensures
        ev is Read && ev->Read_0 > 0 ==> server_copy_action(ev) == RelayAction::Forward(ev->Read_0),
        server_copy_action(ev) is Forward ==> ev == ReadEvent::Read(server_copy_action(ev)->Forward_0) && server_copy_action(ev)->Forward_0 > 0,        server_copy_action(ev) == RelayAction::Stop(false) <==> ev == ReadEvent::Read(0),
        server_copy_action(ev) == RelayAction::Stop(true) <==> ev == ReadEvent::WouldBlock,
{
}

} // verus!
