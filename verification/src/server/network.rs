//! The server's bookkeeping of connected clients and the decisions of its
//! accept and broadcast loops.
use vstd::prelude::*;
use crate::protocol::Message;

verus! {

/// The items of `items` whose entry in `delivered` is `true`, in their order.
pub open spec fn kept<C>(items: Seq<C>, delivered: Seq<bool>) -> Seq<C>
    decreases items.len(),
{
    if items.len() == 0 {
        Seq::empty()
    } else {
        let prev = kept(items.drop_last(), delivered.take(items.len() - 1));
        if delivered[items.len() - 1] {
            prev.push(items.last())
        } else {
            prev
        }
    }
}

/// Dropping unreachable clients never adds any.
pub proof fn lemma_kept_len<C>(items: Seq<C>, delivered: Seq<bool>)
    ensures
        kept(items, delivered).len() <= items.len(),
    decreases items.len(),
{
    if items.len() > 0 {
        lemma_kept_len(items.drop_last(), delivered.take(items.len() - 1));
    }
}

/// When every delivery succeeded, every client stays, in order.
pub proof fn lemma_kept_all<C>(items: Seq<C>, delivered: Seq<bool>)
    requires
        delivered.len() == items.len(),
        forall|i: int| 0 <= i < delivered.len() ==> #[trigger] delivered[i],
    ensures
        kept(items, delivered) == items,
    decreases items.len(),
{
    if items.len() > 0 {
        lemma_kept_all(items.drop_last(), delivered.take(items.len() - 1));
        assert(items.drop_last().push(items.last()) =~= items);
    }
}

/// When every delivery failed, no client stays.
pub proof fn lemma_kept_none<C>(items: Seq<C>, delivered: Seq<bool>)
    requires
        delivered.len() == items.len(),
        forall|i: int| 0 <= i < delivered.len() ==> !#[trigger] delivered[i],
    ensures
        kept(items, delivered).len() == 0,
    decreases items.len(),
{
    if items.len() > 0 {
        lemma_kept_none(items.drop_last(), delivered.take(items.len() - 1));
    }
}

/// The server's state: the port it listens on and the clients that receive
/// the stream, in the order they connected.
pub struct ServerSession<C> {
    pub port: u16,
    pub clients: Vec<C>,
}

/// Starts a server session on `port`, with no client connected yet.
pub fn run_server<C>(port: u16) -> (session: ServerSession<C>)
    ensures
        session.port == port,
        session.clients@.len() == 0,
{
    ServerSession { port, clients: Vec::new() }
}

impl<C> ServerSession<C> {
    /// Number of connected clients.
    pub fn client_count(&self) -> (n: usize)
        ensures
            n == self.clients@.len(),
    {
        self.clients.len()
    }

    /// A newly accepted client joins the stream only once the configuration
    /// was delivered to it; otherwise it is dropped.
    pub fn add_client(&mut self, client: C, config_delivered: bool)
        ensures
            final(self).port == old(self).port,
            config_delivered ==> final(self).clients@ == old(self).clients@.push(client),
            !config_delivered ==> final(self).clients@ == old(self).clients@,
    {
        if config_delivered {
            self.clients.push(client);
        }
    }

    /// After a message was written to every client in turn (`delivered[i]`
    /// tells whether the write to client `i` succeeded), the clients whose
    /// write failed are disconnected; the others stay, in order.
    pub fn drop_unreachable(&mut self, delivered: &Vec<bool>)
        requires
            delivered@.len() == old(self).clients@.len(),
        ensures
            final(self).port == old(self).port,
            final(self).clients@ == kept(old(self).clients@, delivered@),
    {
        let ghost original = self.clients@;
        let ghost port = self.port;
        let n = delivered.len();
        let mut i: usize = 0;
        let mut j: usize = 0;
        while j < n
            invariant
                n == delivered@.len(),
                n == original.len(),
                j <= n,
                i <= j,
                self.port == port,
                self.clients@ == kept(original.take(j as int), delivered@.take(j as int)) + original.skip(j as int),
                i == kept(original.take(j as int), delivered@.take(j as int)).len(),
            decreases n - j,
        {
            let ghost prefix = kept(original.take(j as int), delivered@.take(j as int));
            proof {
                lemma_kept_len(original.take(j as int), delivered@.take(j as int));
                assert(original.take(j + 1).drop_last() =~= original.take(j as int));
                assert(delivered@.take(j + 1).take(j as int) =~= delivered@.take(j as int));
                assert(self.clients@[i as int] == original[j as int]);
            }
            if delivered[j] {
                i = i + 1;
                proof {
                    assert(self.clients@ =~= prefix.push(original[j as int]) + original.skip(j + 1));
                }
            } else {
                self.clients.remove(i);
                proof {
                    assert(self.clients@ =~= prefix + original.skip(j + 1));
                }
            }
            j = j + 1;
        }
        proof {
            assert(original.take(n as int) =~= original);
            assert(delivered@.take(n as int) =~= delivered@);
            assert(self.clients@ =~= kept(original, delivered@));
        }
    }
}

/// The message that tells clients the server is going away.
pub fn shutdown_notice() -> (message: Message)
    ensures
        message matches Message::Error(text) && text@ == "Server is shutting down"@,
{
    Message::Error("Server is shutting down".to_owned())
}

/// The empty audio message that probes whether a client is still reachable.
pub fn health_ping() -> (message: Message)
    ensures
        message matches Message::AudioData(bytes) && bytes@.len() == 0,
{
    Message::AudioData(Vec::new())
}

} // verus!

verus! {

/// The clients of `items` whose own write succeeded: the indices `k` with
/// `delivered[k]`, in increasing order, each mapped to `items[k]`.
pub open spec fn delivered_clients<C>(items: Seq<C>, delivered: Seq<bool>, m: nat) -> Seq<C> {
    Seq::new(m, |k: int| k).filter(|k: int| delivered[k]).map_values(|k: int| items[k])
}

proof fn lemma_kept_prefix<C>(items: Seq<C>, delivered: Seq<bool>, m: nat)
    requires
        items.len() == delivered.len(),
        m <= items.len(),
    ensures
        kept(items.take(m as int), delivered.take(m as int)) == delivered_clients(items, delivered, m),
    decreases m,
{
    reveal(Seq::filter);
    let pred = |k: int| delivered[k];
    let f = |k: int| items[k];
    if m == 0 {
        assert(Seq::new(0, |k: int| k).filter(pred) =~= Seq::<int>::empty());
        assert(kept(items.take(0), delivered.take(0)) =~= Seq::<C>::empty());
        assert(delivered_clients(items, delivered, 0) =~= Seq::<C>::empty());
    } else {
        let m1 = (m - 1) as nat;
        lemma_kept_prefix(items, delivered, m1);
        assert(items.take(m as int).drop_last() =~= items.take(m1 as int));
        assert(delivered.take(m as int).take(m1 as int) =~= delivered.take(m1 as int));
        let idx = Seq::new(m, |k: int| k);
        assert(idx.drop_last() =~= Seq::new(m1, |k: int| k));
        let sub = Seq::new(m1, |k: int| k).filter(pred);
        assert(idx.last() == m1);
        if delivered[m1 as int] {
            assert(idx.filter(pred) == sub.push(m1 as int));
            assert(sub.push(m1 as int).map_values(f) =~= sub.map_values(f).push(items[m1 as int]));
        } else {
            assert(idx.filter(pred) == sub);
        }
    }
}

/// A client stays exactly when its own write succeeded, whatever happened to
/// the others, and the clients that stay keep their order: what
/// `drop_unreachable` keeps is the list of `items[k]` over the indices `k`
/// with `delivered[k]`, in increasing order.
pub proof fn lemma_kept_is_delivered<C>(items: Seq<C>, delivered: Seq<bool>)
    requires
        items.len() == delivered.len(),
    ensures
        kept(items, delivered) == Seq::new(items.len(), |k: int| k).filter(|k: int| delivered[k]).map_values(
            |k: int| items[k],
        ),
{
    lemma_kept_prefix(items, delivered, items.len());
    assert(items.take(items.len() as int) =~= items);
    assert(delivered.take(delivered.len() as int) =~= delivered);
}

/// Per client: the client at index `k` is among those kept exactly when the
/// write to it succeeded; for two clients where only the second write
/// succeeded, only the second client stays.
pub proof fn lemma_kept_two<C>(a: C, b: C, first: bool, second: bool)
    ensures
        kept(seq![a, b], seq![first, second]) == if first && second {
            seq![a, b]
        } else if first {
            seq![a]
        } else if second {
            seq![b]
        } else {
            Seq::<C>::empty()
        },
{
    let items = seq![a, b];
    let d = seq![first, second];
    assert(items.drop_last() =~= seq![a]);
    assert(d.take(1) =~= seq![first]);
    assert(seq![a].drop_last() =~= Seq::<C>::empty());
    assert(seq![first].take(0) =~= Seq::<bool>::empty());
    reveal_with_fuel(kept, 3);
    assert(Seq::<C>::empty().push(a) =~= seq![a]);
    assert(seq![a].push(b) =~= seq![a, b]);
    assert(Seq::<C>::empty().push(b) =~= seq![b]);
}

} // verus!
