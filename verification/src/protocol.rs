//! The per-connection dispatch loop's decisions. The transport hands
//! the loop one event per turn — a decoded client message, a control
//! frame, a frame that would not decode, a transport fault, or the
//! end of the connection — and the loop answers with what to do next:
//! reply, carry on, or stop. The
//! surrounding application performs the replies and supplies the
//! events; every decision in between is made here.

use vstd::prelude::*;
use crate::store::{search_results, Song, Store};

verus! {

/// A message from the client: a search term, arbitrary text.
pub enum ClientMsg {
    Search(String),
}

/// A message to the client: every record matching the search, in store
/// order.
pub enum ServerMsg {
    SearchResults(Vec<Song>),
}

/// One turn of a connection, as the transport reports it: a decoded
/// client message, a control frame, an inbound frame that would not
/// decode, a transport-level fault, or a closed connection.
pub enum SocketEvent {
    Inbound(ClientMsg),
    Control,
    Malformed,
    Fault,
    Closed,
}

/// The dispatch loop's answer to one event: send a reply and carry on,
/// carry on silently, or end the loop.
pub enum SocketStep {
    Reply(ServerMsg),
    Continue,
    Stop,
}

/// The state every connection task shares: a handle to the one store.
pub struct AppState {
    pub store: Store,
}

/// The term a client message carries.
pub open spec fn term_of(msg: ClientMsg) -> Seq<char> {
    match msg {
        ClientMsg::Search(term) => term@,
    }
}

/// Decides one turn of the dispatch loop. A search term is answered
/// with exactly the matching records; control frames and undecodable
/// frames are silently ignored and the loop carries on; a
/// transport-level fault or a closed connection ends the loop. Each
/// turn depends only on the shared store and the event itself, so
/// connections never influence one another.
pub fn dispatch(state: &AppState, event: SocketEvent) -> (step: SocketStep)
    ensures
        match event {
            SocketEvent::Inbound(msg) => step matches SocketStep::Reply(reply)
                && reply matches ServerMsg::SearchResults(results)
                && results@ == search_results(state.store@, term_of(msg)),
            SocketEvent::Control => step == SocketStep::Continue,
            SocketEvent::Malformed => step == SocketStep::Continue,
            SocketEvent::Fault => step == SocketStep::Stop,
            SocketEvent::Closed => step == SocketStep::Stop,
        },
{
    match event {
        SocketEvent::Inbound(ClientMsg::Search(term)) => {
            let results = state.store.search(term.as_str());
            SocketStep::Reply(ServerMsg::SearchResults(results))
        },
        SocketEvent::Control => SocketStep::Continue,
        SocketEvent::Malformed => SocketStep::Continue,
        SocketEvent::Fault => SocketStep::Stop,
        SocketEvent::Closed => SocketStep::Stop,
    }
}

} // verus!
