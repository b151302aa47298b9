//! What holds of the handlers' replies for every input.
use vstd::prelude::*;

use crate::command::{DiscoveredNodes, NodeKind, UnreadMessages};
use crate::queue::Fetched;
use crate::reply::{dispatch_answer, flood_answer, messages_answer, servers_of, Body, Reply};

verus! {

/// Taking the servers keeps their order: the servers of two runs of nodes
/// one after the other are those of the first run, then those of the second.
pub proof fn lemma_servers_keep_order(a: Seq<(u8, NodeKind)>, b: Seq<(u8, NodeKind)>)
    ensures
        servers_of(a + b) == servers_of(a) + servers_of(b),
    decreases b.len(),
{
    if b.len() == 0 {
        assert(a + b =~= a);
        assert(servers_of(a) + servers_of(b) =~= servers_of(a));
    } else {
        assert((a + b).drop_last() =~= a + b.drop_last());
        assert((a + b).last() == b.last());
        lemma_servers_keep_order(a, b.drop_last());
        if b.last().1 == NodeKind::Server {
            assert(servers_of(a) + servers_of(b) =~= (servers_of(a) + servers_of(b.drop_last())).push(
                b.last().0,
            ));
        }
    }
}

/// An identifier is among the servers of `nodes` exactly when some entry
/// of `nodes` has that identifier and the kind `Server`.
pub proof fn lemma_servers_exactly(nodes: Seq<(u8, NodeKind)>, id: u8)
    ensures
        servers_of(nodes).contains(id) <==> exists|i: int|
            0 <= i < nodes.len() && #[trigger] nodes[i] == (id, NodeKind::Server),
    decreases nodes.len(),
{
    if nodes.len() > 0 {
        let prev = nodes.drop_last();
        lemma_servers_exactly(prev, id);
        if servers_of(nodes).contains(id) {
            if servers_of(prev).contains(id) {
                let i = choose|i: int| 0 <= i < prev.len() && #[trigger] prev[i] == (id, NodeKind::Server);
                assert(nodes[i] == prev[i]);
            } else {
                assert(nodes.last().1 == NodeKind::Server);
                assert(nodes[nodes.len() - 1] == (id, NodeKind::Server));
            }
        }
        if exists|i: int| 0 <= i < nodes.len() && #[trigger] nodes[i] == (id, NodeKind::Server) {
            let i = choose|i: int| 0 <= i < nodes.len() && #[trigger] nodes[i] == (id, NodeKind::Server);
            if i < nodes.len() - 1 {
                assert(prev[i] == nodes[i]);
                assert(servers_of(prev).contains(id));
                let k = choose|k: int| 0 <= k < servers_of(prev).len() && servers_of(prev)[k] == id;
                if nodes.last().1 == NodeKind::Server {
                    assert(servers_of(nodes)[k] == id);
                }
            } else {
                assert(servers_of(nodes)[servers_of(nodes).len() - 1] == id);
            }
        }
    }
}

/// Discovery answers with success and exactly the server identifiers of the
/// worker's result, in its order.
pub proof fn lemma_flood_gives_servers(r: Reply, d: DiscoveredNodes)
    requires
        flood_answer(r, Some(d)),
    ensures
        r.status.spec_code() == 200,
        r.body matches Body::NodeIds(ids) && forall|id: u8|
            ids@.contains(id) <==> exists|i: int|
                0 <= i < d.nodes@.len() && #[trigger] d.nodes@[i] == (id, NodeKind::Server),
{
    if let Body::NodeIds(ids) = r.body {
        assert forall|id: u8|
            ids@.contains(id) <==> exists|i: int|
                0 <= i < d.nodes@.len() && #[trigger] d.nodes@[i] == (id, NodeKind::Server) by {
            lemma_servers_exactly(d.nodes@, id);
        }
    }
}

/// Once the worker's end of the command queue is gone, a forwarded command
/// is answered with a server error.
pub proof fn lemma_closed_queue_is_server_error(r: Reply)
    requires
        dispatch_answer(r, false),
    ensures
        r.status.spec_code() == 500,
{
}

/// An empty collection of unread messages and a wait that ran out give the
/// same reply, with status 204.
pub proof fn lemma_empty_is_timeout(r1: Reply, r2: Reply, u: UnreadMessages)
    requires
        u.messages@.len() == 0,
        messages_answer(r1, Fetched::Arrived(u)),
        messages_answer(r2, Fetched::TimedOut),
    ensures
        r1 == r2,
        r1.status.spec_code() == 204,
{
}

/// Unread messages that arrive in time are answered with status 200 and
/// exactly those messages, in order.
pub proof fn lemma_messages_delivered(r: Reply, u: UnreadMessages)
    requires
        u.messages@.len() > 0,
        messages_answer(r, Fetched::Arrived(u)),
    ensures
        r.status.spec_code() == 200,
        r.body matches Body::Messages(m) && m@ == u.messages@ && m@.len() > 0,
{
}

} // verus!
