//! The registry of the nodes that a server has accepted.
//!
//! Everything that the registry keeps about a node is one value under the
//! node's address. A node joins with its `Connected` message and leaves,
//! with all that was kept about it, with its `Disconnected` message.

use crate::accept::NodeMsg;
use crate::addr::PeerAddr;
use crate::frame::heartbeat_bytes;
use crate::frame::is_heartbeat;
use crate::manager::in_order;
use crate::manager::lemma_reports_in_order;
use crate::manager::shim_run;
use crate::manager::shim_trace;
use crate::manager::ShimEvent;
use crate::manager::ShimStage;
use crate::manager::ShimView;
use crate::trusted::bytes_of;
use bytes::BytesMut;
use vstd::prelude::*;

verus! {

/// What the registry holds to reach a node.
#[derive(Debug)]
pub struct NodeLink {
    /// The handle for messages to the node.
    pub outbound: tokio::sync::mpsc::Sender<BytesMut>,
    /// The handle that asks the node's supervisor to close the connection,
    /// until it is taken.
    pub close: Option<tokio::sync::oneshot::Sender<()>>,
    /// How many messages have been sent to the node.
    pub sent_count: u64,
}

/// One node: its address and, once the supervisor has handed them over, the
/// means to reach it.
#[derive(Debug)]
struct NodeEntry {
    address: PeerAddr,
    link: Option<NodeLink>,
}

/// What the registry tells the application about a message it applied.
#[derive(Debug)]
pub enum Notice {
    /// A node joined.
    Joined(PeerAddr),
    /// The handles of a node were stored.
    Linked(PeerAddr),
    /// A node sent this payload.
    Data(PeerAddr, BytesMut),
    /// A node left, and all that was kept about it is gone.
    Left(PeerAddr),
    /// The message changed nothing: it repeated an earlier one, was about a
    /// node that is not active, or carried a heartbeat.
    Ignored,
}

/// The active nodes, each with its link if it has one.
pub type Nodes = Map<PeerAddr, Option<NodeLink>>;

/// The nodes after `msg`.
///
/// `Connected` adds a node that is not active. `Sender` gives an active node
/// that has no link its link, with nothing sent yet. `Disconnected` removes
/// the node. Every other message leaves the nodes as they are.
pub open spec fn registry_next(nodes: Nodes, msg: NodeMsg) -> Nodes {
    match msg {
        NodeMsg::Connected(a) => if nodes.contains_key(a) {
            nodes
        } else {
            nodes.insert(a, None)
        },
        NodeMsg::Sender(a, outbound, close) => if nodes.contains_key(a) && nodes[a] is None {
            nodes.insert(a, Some(NodeLink { outbound, close, sent_count: 0 }))
        } else {
            nodes
        },
        NodeMsg::Event(_, _) => nodes,
        NodeMsg::Disconnected(a) => nodes.remove(a),
    }
}

/// What the application is told about `msg`.
pub open spec fn registry_notice(nodes: Nodes, msg: NodeMsg) -> Notice {
    match msg {
        NodeMsg::Connected(a) => if nodes.contains_key(a) {
            Notice::Ignored
        } else {
            Notice::Joined(a)
        },
        NodeMsg::Sender(a, _, _) => if nodes.contains_key(a) && nodes[a] is None {
            Notice::Linked(a)
        } else {
            Notice::Ignored
        },
        NodeMsg::Event(a, payload) => if nodes.contains_key(a) && bytes_of(payload)
            != heartbeat_bytes() {
            Notice::Data(a, payload)
        } else {
            Notice::Ignored
        },
        NodeMsg::Disconnected(a) => if nodes.contains_key(a) {
            Notice::Left(a)
        } else {
            Notice::Ignored
        },
    }
}

/// The nodes after the close handle of `address` has been taken.
pub open spec fn without_close(nodes: Nodes, address: PeerAddr) -> Nodes {
    if nodes.contains_key(address) && nodes[address] is Some {
        nodes.insert(address, Some(NodeLink { close: None, ..nodes[address]->0 }))
    } else {
        nodes
    }
}

/// The close handle of `address`, if the node is active, has a link and the
/// handle has not been taken.
pub open spec fn close_of(nodes: Nodes, address: PeerAddr) -> Option<
    tokio::sync::oneshot::Sender<()>,
> {
    if nodes.contains_key(address) && nodes[address] is Some {
        nodes[address]->0.close
    } else {
        None
    }
}

/// The handle for messages to `address`, if the node is active and has a
/// link.
pub open spec fn outbound_of(nodes: Nodes, address: PeerAddr) -> Option<
    tokio::sync::mpsc::Sender<BytesMut>,
> {
    if nodes.contains_key(address) && nodes[address] is Some {
        Some(nodes[address]->0.outbound)
    } else {
        None
    }
}

/// How many messages have been sent to `address`, if the node is active and
/// has a link.
pub open spec fn sent_of(nodes: Nodes, address: PeerAddr) -> Option<u64> {
    if nodes.contains_key(address) && nodes[address] is Some {
        Some(nodes[address]->0.sent_count)
    } else {
        None
    }
}

/// Whether a node is due to be closed: it is active, has a link, and more
/// than `limit` messages have been sent to it.
pub open spec fn close_due(nodes: Nodes, address: PeerAddr, limit: u64) -> bool {
    sent_of(nodes, address) matches Some(count) && count > limit
}

/// The count that a message sent to a node moves the node's count to. It
/// stops at the largest value that it can hold.
pub open spec fn count_after_send(count: u64) -> u64 {
    if count < u64::MAX {
        (count + 1) as u64
    } else {
        count
    }
}

/// The nodes after one more message has been sent to `address`.
pub open spec fn with_sent(nodes: Nodes, address: PeerAddr) -> Nodes {
    if nodes.contains_key(address) && nodes[address] is Some {
        nodes.insert(
            address,
            Some(
                NodeLink {
                    sent_count: count_after_send(nodes[address]->0.sent_count),
                    ..nodes[address]->0
                },
            ),
        )
    } else {
        nodes
    }
}

/// The map that a list of entries with distinct addresses stands for.
spec fn nodes_of(entries: Seq<NodeEntry>) -> Nodes {
    Map::new(
        |a: PeerAddr| exists|i: int| 0 <= i < entries.len() && #[trigger] entries[i].address == a,
        |a: PeerAddr|
            entries[choose|i: int| 0 <= i < entries.len() && #[trigger] entries[i].address
                == a].link,
    )
}

/// No two entries have the same address.
spec fn distinct(entries: Seq<NodeEntry>) -> bool {
    forall|i: int, j: int|
        0 <= i < j < entries.len() ==> (#[trigger] entries[i]).address != (
        #[trigger] entries[j]).address
}

/// Each entry is found under its address.
proof fn lemma_lookup(entries: Seq<NodeEntry>, i: int)
    requires
        distinct(entries),
        0 <= i < entries.len(),
    ensures
        nodes_of(entries).contains_key(entries[i].address),
        nodes_of(entries)[entries[i].address] == entries[i].link,
{
}

/// An address that no entry has is no key of the map.
proof fn lemma_absent(entries: Seq<NodeEntry>, a: PeerAddr)
    requires
        forall|i: int| 0 <= i < entries.len() ==> (#[trigger] entries[i]).address != a,
    ensures
        !nodes_of(entries).contains_key(a),
{
}

/// Appending an entry with a new address adds its key to the map.
proof fn lemma_push(entries: Seq<NodeEntry>, e: NodeEntry)
    requires
        distinct(entries),
        forall|i: int| 0 <= i < entries.len() ==> (#[trigger] entries[i]).address != e.address,
    ensures
        distinct(entries.push(e)),
        nodes_of(entries.push(e)) == nodes_of(entries).insert(e.address, e.link),
{
    let after = entries.push(e);
    assert(distinct(after));
    assert forall|a: PeerAddr|
        nodes_of(after).contains_key(a) <==> #[trigger] nodes_of(entries).insert(
            e.address,
            e.link,
        ).contains_key(a) by {
        if nodes_of(entries).contains_key(a) {
            let k = choose|k: int| 0 <= k < entries.len() && #[trigger] entries[k].address == a;
            assert(after[k].address == a);
        }
        if a == e.address {
            assert(after[entries.len() as int].address == a);
        }
    }
    assert forall|a: PeerAddr| #[trigger] nodes_of(after).contains_key(a) implies nodes_of(after)[a]
        == nodes_of(entries).insert(e.address, e.link)[a] by {
        let k = choose|k: int| 0 <= k < after.len() && #[trigger] after[k].address == a;
        lemma_lookup(after, k);
        if k < entries.len() {
            lemma_lookup(entries, k);
        }
    }
}

/// Removing an entry removes its key from the map.
proof fn lemma_remove(entries: Seq<NodeEntry>, i: int)
    requires
        distinct(entries),
        0 <= i < entries.len(),
    ensures
        distinct(entries.remove(i)),
        nodes_of(entries.remove(i)) == nodes_of(entries).remove(entries[i].address),
{
    let after = entries.remove(i);
    let gone = entries[i].address;
    assert forall|k: int| 0 <= k < after.len() implies #[trigger] after[k] == entries[if k < i {
        k
    } else {
        k + 1
    }] by {}
    assert(distinct(after));
    assert forall|a: PeerAddr|
        nodes_of(after).contains_key(a) <==> #[trigger] nodes_of(entries).remove(
            gone,
        ).contains_key(a) by {
        if nodes_of(entries).contains_key(a) && a != gone {
            let k = choose|k: int| 0 <= k < entries.len() && #[trigger] entries[k].address == a;
            let kk = if k < i {
                k
            } else {
                k - 1
            };
            assert(after[kk].address == a);
        }
    }
    assert forall|a: PeerAddr| #[trigger] nodes_of(after).contains_key(a) implies nodes_of(after)[a]
        == nodes_of(entries).remove(gone)[a] by {
        let k = choose|k: int| 0 <= k < after.len() && #[trigger] after[k].address == a;
        lemma_lookup(after, k);
        lemma_lookup(entries, if k < i {
            k
        } else {
            k + 1
        });
    }
}

/// Replacing an entry by one with the same address replaces its value in
/// the map.
proof fn lemma_update(entries: Seq<NodeEntry>, i: int, e: NodeEntry)
    requires
        distinct(entries),
        0 <= i < entries.len(),
        e.address == entries[i].address,
    ensures
        distinct(entries.update(i, e)),
        nodes_of(entries.update(i, e)) == nodes_of(entries).insert(e.address, e.link),
{
    let after = entries.update(i, e);
    assert(distinct(after));
    assert forall|a: PeerAddr|
        nodes_of(after).contains_key(a) <==> #[trigger] nodes_of(entries).insert(
            e.address,
            e.link,
        ).contains_key(a) by {
        if nodes_of(entries).contains_key(a) {
            let k = choose|k: int| 0 <= k < entries.len() && #[trigger] entries[k].address == a;
            assert(after[k].address == a);
        }
    }
    assert forall|a: PeerAddr| #[trigger] nodes_of(after).contains_key(a) implies nodes_of(after)[a]
        == nodes_of(entries).insert(e.address, e.link)[a] by {
        let k = choose|k: int| 0 <= k < after.len() && #[trigger] after[k].address == a;
        lemma_lookup(after, k);
        if k != i {
            lemma_lookup(entries, k);
        }
    }
}

/// The addresses of the entries, taken in order, are the keys of the map,
/// each once.
proof fn lemma_addresses(entries: Seq<NodeEntry>, list: Seq<PeerAddr>)
    requires
        distinct(entries),
        list.len() == entries.len(),
        forall|k: int| 0 <= k < list.len() ==> #[trigger] list[k] == entries[k].address,
    ensures
        list.no_duplicates(),
        forall|a: PeerAddr| list.contains(a) <==> nodes_of(entries).contains_key(a),
        nodes_of(entries).dom().finite(),
        nodes_of(entries).len() == entries.len(),
{
    assert(list.no_duplicates());
    assert forall|a: PeerAddr| list.contains(a) <==> nodes_of(entries).contains_key(a) by {
        if nodes_of(entries).contains_key(a) {
            let k = choose|k: int| 0 <= k < entries.len() && #[trigger] entries[k].address == a;
            assert(list[k] == a);
        }
    }
    assert(list.to_set() =~= nodes_of(entries).dom());
    vstd::seq_lib::seq_to_set_is_finite(list);
    list.unique_seq_to_set();
}

/// The registry of active nodes.
#[derive(Debug)]
pub struct Registry {
    entries: Vec<NodeEntry>,
}

impl View for Registry {
    type V = Nodes;

    closed spec fn view(&self) -> Nodes {
        nodes_of(self.entries@)
    }
}

impl Registry {
    #[verifier::type_invariant]
    spec fn well_formed(self) -> bool {
        distinct(self.entries@)
    }

    /// A registry without nodes.
    pub fn new() -> (r: Registry)
        ensures
            r@ == Map::<PeerAddr, Option<NodeLink>>::empty(),
    {
        Registry { entries: Vec::new() }
    }

    /// Moves the entries out and leaves a registry without nodes behind,
    /// so that the caller can change them and put them back.
    fn take_entries(&mut self) -> (entries: Vec<NodeEntry>)
        ensures
            entries@ == old(self).entries@,
            final(self).entries@ == Seq::<NodeEntry>::empty(),
    {
        let mut entries: Vec<NodeEntry> = Vec::new();
        core::mem::swap(&mut self.entries, &mut entries);
        entries
    }

    /// Where the entry of an address stands, if the address has one.
    fn find(&self, address: PeerAddr) -> (r: Option<usize>)
        ensures
            match r {
                Some(i) => i < self.entries@.len() && self.entries@[i as int].address == address,
                None => forall|i: int|
                    0 <= i < self.entries@.len() ==> (#[trigger] self.entries@[i]).address
                        != address,
            },
    {
        let mut i: usize = 0;
        while i < self.entries.len()
            invariant
                i <= self.entries@.len(),
                forall|k: int| 0 <= k < i ==> (#[trigger] self.entries@[k]).address != address,
            decreases self.entries@.len() - i,
        {
            if self.entries[i].address == address {
                return Some(i);
            }
            i = i + 1;
        }
        None
    }

    /// Whether a node with this address is active.
    pub fn contains(&self, address: PeerAddr) -> (b: bool)
        ensures
            b == self@.contains_key(address),
    {
        proof {
            use_type_invariant(self);
        }
        match self.find(address) {
            Some(i) => {
                proof {
                    lemma_lookup(self.entries@, i as int);
                }
                true
            },
            None => {
                proof {
                    lemma_absent(self.entries@, address);
                }
                false
            },
        }
    }

    /// Applies one message of a node's supervisor and says what it meant.
    pub fn apply(&mut self, msg: NodeMsg) -> (notice: Notice)
        ensures
            final(self)@ == registry_next(old(self)@, msg),
            notice == registry_notice(old(self)@, msg),
    {
        proof {
            use_type_invariant(&*self);
        }
        match msg {
            NodeMsg::Connected(a) => match self.find(a) {
                Some(i) => {
                    proof {
                        lemma_lookup(self.entries@, i as int);
                    }
                    Notice::Ignored
                },
                None => {
                    let entry = NodeEntry { address: a, link: None };
                    proof {
                        lemma_absent(self.entries@, a);
                        lemma_push(self.entries@, entry);
                    }
                    let mut entries = self.take_entries();
                    entries.push(entry);
                    self.entries = entries;
                    Notice::Joined(a)
                },
            },
            NodeMsg::Sender(a, outbound, close) => match self.find(a) {
                Some(i) => {
                    proof {
                        lemma_lookup(self.entries@, i as int);
                    }
                    if self.entries[i].link.is_none() {
                        let entry = NodeEntry {
                            address: a,
                            link: Some(NodeLink { outbound, close, sent_count: 0 }),
                        };
                        proof {
                            lemma_update(self.entries@, i as int, entry);
                        }
                        let mut entries = self.take_entries();
                        entries.set(i, entry);
                        self.entries = entries;
                        Notice::Linked(a)
                    } else {
                        Notice::Ignored
                    }
                },
                None => {
                    proof {
                        lemma_absent(self.entries@, a);
                    }
                    Notice::Ignored
                },
            },
            NodeMsg::Event(a, payload) => {
                let known = self.contains(a);
                if known && !is_heartbeat(&payload) {
                    Notice::Data(a, payload)
                } else {
                    Notice::Ignored
                }
            },
            NodeMsg::Disconnected(a) => match self.find(a) {
                Some(i) => {
                    proof {
                        lemma_lookup(self.entries@, i as int);
                        lemma_remove(self.entries@, i as int);
                    }
                    let mut entries = self.take_entries();
                    let _ = entries.remove(i);
                    self.entries = entries;
                    Notice::Left(a)
                },
                None => {
                    proof {
                        lemma_absent(self.entries@, a);
                    }
                    Notice::Ignored
                },
            },
        }
    }

    /// The handle for messages to a node, if the node is active and has its
    /// link.
    pub fn outbound(&self, address: PeerAddr) -> (h: Option<&tokio::sync::mpsc::Sender<BytesMut>>)
        ensures
            match h {
                Some(handle) => outbound_of(self@, address) == Some(*handle),
                None => outbound_of(self@, address) is None,
            },
    {
        proof {
            use_type_invariant(self);
        }
        match self.find(address) {
            Some(i) => {
                proof {
                    lemma_lookup(self.entries@, i as int);
                }
                match &self.entries[i].link {
                    Some(link) => Some(&link.outbound),
                    None => None,
                }
            },
            None => {
                proof {
                    lemma_absent(self.entries@, address);
                }
                None
            },
        }
    }

    /// How many messages have been sent to a node, if the node is active and
    /// has its link.
    pub fn sent_count(&self, address: PeerAddr) -> (n: Option<u64>)
        ensures
            n == sent_of(self@, address),
    {
        proof {
            use_type_invariant(self);
        }
        match self.find(address) {
            Some(i) => {
                proof {
                    lemma_lookup(self.entries@, i as int);
                }
                match &self.entries[i].link {
                    Some(link) => Some(link.sent_count),
                    None => None,
                }
            },
            None => {
                proof {
                    lemma_absent(self.entries@, address);
                }
                None
            },
        }
    }

    /// Counts one more message as sent to a node and returns the new count,
    /// or `None`, with nothing changed, if the node is not active or has no
    /// link.
    pub fn record_sent(&mut self, address: PeerAddr) -> (n: Option<u64>)
        ensures
            final(self)@ == with_sent(old(self)@, address),
            n == sent_of(with_sent(old(self)@, address), address),
    {
        proof {
            use_type_invariant(&*self);
        }
        match self.find(address) {
            Some(i) => {
                proof {
                    lemma_lookup(self.entries@, i as int);
                }
                let ghost before = self.entries@;
                let mut entries = self.take_entries();
                let entry = entries.remove(i);
                let NodeEntry { address: a, link } = entry;
                let (link, n) = match link {
                    Some(l) => {
                        let NodeLink { outbound, close, sent_count } = l;
                        let count: u64 = if sent_count < u64::MAX {
                            sent_count + 1
                        } else {
                            sent_count
                        };
                        (Some(NodeLink { outbound, close, sent_count: count }), Some(count))
                    },
                    None => (None, None),
                };
                let changed = NodeEntry { address: a, link };
                entries.insert(i, changed);
                proof {
                    assert(entries@ =~= before.update(i as int, changed));
                    lemma_update(before, i as int, changed);
                    assert(nodes_of(before).insert(a, changed.link) =~= with_sent(
                        nodes_of(before),
                        address,
                    ));
                }
                self.entries = entries;
                n
            },
            None => {
                proof {
                    lemma_absent(self.entries@, address);
                }
                None
            },
        }
    }

    /// Takes the handle that asks a node's supervisor to close the
    /// connection. The node stays active until its `Disconnected` message
    /// comes, so that it is removed once, whichever of the two ends the
    /// connection first. The handle can be taken once: later calls, and
    /// calls for a node that has left, return `None` and change nothing.
    pub fn take_close(&mut self, address: PeerAddr) -> (h: Option<tokio::sync::oneshot::Sender<()>>)
        ensures
            h == close_of(old(self)@, address),
            final(self)@ == without_close(old(self)@, address),
    {
        proof {
            use_type_invariant(&*self);
        }
        match self.find(address) {
            Some(i) => {
                proof {
                    lemma_lookup(self.entries@, i as int);
                }
                let ghost before = self.entries@;
                let mut entries = self.take_entries();
                let entry = entries.remove(i);
                let NodeEntry { address: a, link } = entry;
                let (link, h) = match link {
                    Some(l) => {
                        let NodeLink { outbound, close, sent_count } = l;
                        (Some(NodeLink { outbound, close: None, sent_count }), close)
                    },
                    None => (None, None),
                };
                let changed = NodeEntry { address: a, link };
                entries.insert(i, changed);
                proof {
                    assert(entries@ =~= before.update(i as int, changed));
                    lemma_update(before, i as int, changed);
                    assert(nodes_of(before).insert(a, changed.link) =~= without_close(
                        nodes_of(before),
                        address,
                    ));
                }
                self.entries = entries;
                h
            },
            None => {
                proof {
                    lemma_absent(self.entries@, address);
                }
                None
            },
        }
    }

    /// How many nodes are active.
    pub fn len(&self) -> (n: usize)
        ensures
            self@.dom().finite(),
            n == self@.len(),
    {
        proof {
            use_type_invariant(self);
            lemma_addresses(self.entries@, self.entries@.map_values(|e: NodeEntry| e.address));
        }
        self.entries.len()
    }

    /// Decides whether a node is to be closed now: it is when more than
    /// `limit` messages have been sent to it. Then the close handle is
    /// taken, as by [`Registry::take_close`], for the caller to signal it;
    /// it comes once, and `None` afterwards. A node that is not due, and
    /// the registry with it, stays as it is.
    pub fn close_if_due(&mut self, address: PeerAddr, limit: u64) -> (h: Option<
        tokio::sync::oneshot::Sender<()>,
    >)
        ensures
            close_due(old(self)@, address, limit) ==> h == close_of(old(self)@, address)
                && final(self)@ == without_close(old(self)@, address),
            !close_due(old(self)@, address, limit) ==> h is None && final(self)@ == old(self)@,
    {
        match self.sent_count(address) {
            Some(count) => if count > limit {
                self.take_close(address)
            } else {
                None
            },
            None => None,
        }
    }

    /// The addresses of the active nodes, each once.
    pub fn addresses(&self) -> (list: Vec<PeerAddr>)
        ensures
            list@.no_duplicates(),
            list@.to_set() == self@.dom(),
    {
        proof {
            use_type_invariant(self);
        }
        let mut list: Vec<PeerAddr> = Vec::new();
        let mut i: usize = 0;
        while i < self.entries.len()
            invariant
                i <= self.entries@.len(),
                list@.len() == i,
                forall|k: int| 0 <= k < i ==> #[trigger] list@[k] == self.entries@[k].address,
            decreases self.entries@.len() - i,
        {
            list.push(self.entries[i].address);
            i = i + 1;
        }
        proof {
            lemma_addresses(self.entries@, list@);
        }
        list
    }
}

/// The nodes that a run of messages, applied one after the other, leads to.
pub open spec fn registry_run(nodes: Nodes, msgs: Seq<NodeMsg>) -> Nodes
    decreases msgs.len(),
{
    if msgs.len() == 0 {
        nodes
    } else {
        registry_next(registry_run(nodes, msgs.drop_last()), msgs.last())
    }
}

/// Message `i` says that `address` connected, and no later message says
/// that it disconnected.
pub open spec fn connected_since(msgs: Seq<NodeMsg>, address: PeerAddr, i: int) -> bool {
    &&& 0 <= i < msgs.len()
    &&& msgs[i] == NodeMsg::Connected(address)
    &&& forall|j: int| i < j < msgs.len() ==> #[trigger] msgs[j] != NodeMsg::Disconnected(address)
}

/// The addresses that have connected and have not disconnected since.
pub open spec fn connected_not_disconnected(msgs: Seq<NodeMsg>) -> Set<PeerAddr> {
    Set::new(|a: PeerAddr| exists|i: int| connected_since(msgs, a, i))
}

/// After any messages in any order, starting without nodes, the active
/// nodes are exactly the addresses that have connected and have not
/// disconnected since.
pub proof fn lemma_active_set(msgs: Seq<NodeMsg>)
    ensures
        registry_run(Map::empty(), msgs).dom() == connected_not_disconnected(msgs),
    decreases msgs.len(),
{
    if msgs.len() > 0 {
        let prev = msgs.drop_last();
        let last = msgs.last();
        lemma_active_set(prev);
        assert forall|a: PeerAddr|
            registry_run(Map::empty(), msgs).dom().contains(a) <==> connected_not_disconnected(
                msgs,
            ).contains(a) by {
            if connected_not_disconnected(prev).contains(a) && last != NodeMsg::Disconnected(a) {
                let i = choose|i: int| connected_since(prev, a, i);
                assert forall|j: int| i < j < msgs.len() implies #[trigger] msgs[j]
                    != NodeMsg::Disconnected(a) by {
                    if j < prev.len() {
                        assert(msgs[j] == prev[j]);
                    }
                }
                assert(connected_since(msgs, a, i));
            }
            if last == NodeMsg::Connected(a) {
                assert(connected_since(msgs, a, msgs.len() - 1));
            }
            if connected_not_disconnected(msgs).contains(a) {
                let i = choose|i: int| connected_since(msgs, a, i);
                if i < prev.len() {
                    assert forall|j: int| i < j < prev.len() implies #[trigger] prev[j]
                        != NodeMsg::Disconnected(a) by {
                        assert(prev[j] == msgs[j]);
                    }
                    assert(connected_since(prev, a, i));
                }
            }
        }
    }
}

/// All that is kept about a node stands under its address as one value, so
/// the pieces come and go together: there is a handle for messages exactly
/// when there is a count of messages sent, a close handle only where both
/// are, and none of them for an address that is not active.
pub proof fn lemma_bookkeeping_is_one_unit(nodes: Nodes, address: PeerAddr)
    ensures
        outbound_of(nodes, address) is Some <==> sent_of(nodes, address) is Some,
        close_of(nodes, address) is Some ==> outbound_of(nodes, address) is Some,
        outbound_of(nodes, address) is Some ==> nodes.contains_key(address),
        outbound_of(registry_next(nodes, NodeMsg::Disconnected(address)), address) is None,
        sent_of(registry_next(nodes, NodeMsg::Disconnected(address)), address) is None,
        close_of(registry_next(nodes, NodeMsg::Disconnected(address)), address) is None,
{
}

/// A node is removed once, whichever of the two ends its connection first.
/// Taking the close handle removes no node; the `Disconnected` message
/// removes it; a second `Disconnected`, and a close asked for after the
/// node has left, change nothing.
pub proof fn lemma_removed_once(nodes: Nodes, address: PeerAddr)
    ensures
        without_close(nodes, address).dom() == nodes.dom(),
        close_of(without_close(nodes, address), address) is None,
        !registry_next(nodes, NodeMsg::Disconnected(address)).contains_key(address),
        registry_next(
            registry_next(nodes, NodeMsg::Disconnected(address)),
            NodeMsg::Disconnected(address),
        ) == registry_next(nodes, NodeMsg::Disconnected(address)),
        without_close(registry_next(nodes, NodeMsg::Disconnected(address)), address)
            == registry_next(nodes, NodeMsg::Disconnected(address)),
        registry_next(without_close(nodes, address), NodeMsg::Disconnected(address))
            == registry_next(nodes, NodeMsg::Disconnected(address)),
{
}

/// A registry that hears one supervisor holds the supervisor's node
/// exactly while the connection is up: not before it is announced, and not
/// after its end has been reported, whatever ended it.
pub proof fn lemma_node_is_active_while_up(address: PeerAddr, events: Seq<ShimEvent>)
    ensures
        ({
            let start = ShimView { address, stage: ShimStage::Starting };
            let nodes = registry_run(Map::empty(), shim_trace(start, events));
            if shim_run(start, events).stage is Active {
                nodes.dom() == set![address]
            } else {
                nodes.dom() == Set::<PeerAddr>::empty()
            }
        }),
{
    let start = ShimView { address, stage: ShimStage::Starting };
    let trace = shim_trace(start, events);
    let nodes = registry_run(Map::empty(), trace);
    lemma_reports_in_order(address, events);
    lemma_active_set(trace);
    if shim_run(start, events).stage is Active {
        assert(connected_since(trace, address, 0));
        assert forall|a: PeerAddr| nodes.dom().contains(a) implies a == address by {
            let i = choose|i: int| connected_since(trace, a, i);
            assert(trace[i] is Connected);
        }
    } else {
        assert forall|a: PeerAddr| !nodes.dom().contains(a) by {
            if nodes.dom().contains(a) {
                let i = choose|i: int| connected_since(trace, a, i);
                assert(trace[i] is Connected);
            }
        }
    }
}

/// A node is closed by the registry at most once, and only past the limit:
/// no handle is given out for a node that is not due, and once a handle
/// was given out there is none left to give.
pub proof fn lemma_closed_once_when_due(nodes: Nodes, address: PeerAddr, limit: u64)
    ensures
        close_of(without_close(nodes, address), address) is None,
        close_due(without_close(nodes, address), address, limit) == close_due(
            nodes,
            address,
            limit,
        ),
        close_due(nodes, address, limit) ==> nodes.contains_key(address),
        !close_due(registry_next(nodes, NodeMsg::Disconnected(address)), address, limit),
{
}

} // verus!
