//! The table of subscriptions: which watcher serves which address.
//!
//! A watcher is the task that waits for changes of one resource and reports
//! them. The table names each watcher by a number of its own, so that the
//! program that runs the tasks can start, stop and recognise them.

use vstd::prelude::*;
use vstd::string::*;
use crate::assoc::{distinct, find, has_key, lemma_put, lemma_remove, position, put, remove};
use crate::error::{Error, ErrorView, INTERNAL_ERROR};
use crate::protocol::jsonrpc_version;
use crate::registry::HandlerRegistry;
use crate::rpc::{ServerNotification, ServerResponseView, ServerResponse};

verus! {

/// What a subscription changed: the watcher to start, and the watcher that
/// it replaces and that has to stop.
#[derive(Debug, Clone, Copy, PartialEq, Eq)]
pub struct Subscribed {
    pub watcher: u64,
    pub replaced: Option<u64>,
}

/// The subscriptions of a service: for each subscribed address the number
/// of its one watcher.
pub struct Subscriptions {
    watchers: HandlerRegistry<u64>,
    next: u64,
}

impl View for Subscriptions {
    type V = Seq<(Seq<char>, u64)>;

    closed spec fn view(&self) -> Seq<(Seq<char>, u64)> {
        self.watchers@
    }
}

/// No watcher serves two addresses.
pub open spec fn watchers_distinct(s: Seq<(Seq<char>, u64)>) -> bool {
    forall|i: int, j: int| 0 <= i < j < s.len() ==> (#[trigger] s[i]).1 != (#[trigger] s[j]).1
}

/// The error for a table that has given out every number.
pub open spec fn exhausted_error() -> ErrorView {
    ErrorView { message: "no watcher left to give out"@, code: -32603 }
}

impl Subscriptions {
    /// The number that the next watcher gets.
    pub closed spec fn next_watcher(&self) -> u64 {
        self.next
    }

    /// Whether the table has given out every number; it then takes no
    /// further subscription.
    pub open spec fn exhausted(&self) -> bool {
        self.next_watcher() == u64::MAX
    }

    /// The table's invariant: one entry for an address, one address for a
    /// watcher, and every watcher's number given out already.
    pub open spec fn wf(&self) -> bool {
        &&& distinct(self@)
        &&& watchers_distinct(self@)
        &&& forall|i: int| 0 <= i < self@.len() ==> (#[trigger] self@[i]).1 < self.next_watcher()
    }

    /// The table without subscriptions.
    pub fn new() -> (r: Self)
        ensures
            r.wf(),
            r@ == Seq::<(Seq<char>, u64)>::empty(),
            !r.exhausted(),
    {
        Subscriptions { watchers: HandlerRegistry::new(), next: 0 }
    }

    /// How many addresses are subscribed.
    pub fn len(&self) -> (n: usize)
        ensures
            n == self@.len(),
    {
        self.watchers.len()
    }

    /// The watcher of `uri`, if the address is subscribed.
    pub fn watcher(&self, uri: &str) -> (r: Option<u64>)
        requires
            self.wf(),
        ensures
            r == find(self@, uri@),
    {
        match self.watchers.get(uri) {
            Some(w) => Some(*w),
            None => None,
        }
    }

    /// Subscribes `uri` to a new watcher. The watcher that served the
    /// address so far, if any, is replaced: it is returned, so that it can
    /// be stopped, and the address keeps one watcher. Fails, and changes
    /// nothing, when every number is given out.
    pub fn subscribe(&mut self, uri: &str) -> (r: Result<Subscribed, Error>)
        requires
            old(self).wf(),
        ensures
            final(self).wf(),
            match r {
                Ok(s) => {
                    &&& !old(self).exhausted()
                    &&& s.watcher == old(self).next_watcher()
                    &&& s.replaced == find(old(self)@, uri@)
                    &&& final(self)@ == put(old(self)@, uri@, s.watcher)
                    &&& find(final(self)@, uri@) == Some(s.watcher)
                    &&& forall|other: Seq<char>|
                        other != uri@ ==> find(final(self)@, other) == find(old(self)@, other)
                    &&& final(self).next_watcher() == s.watcher + 1
                },
                Err(e) => {
                    &&& old(self).exhausted()
                    &&& e@ == exhausted_error()
                    &&& final(self)@ == old(self)@
                    &&& final(self).next_watcher() == old(self).next_watcher()
                },
            },
    {
        if self.next == u64::MAX {
            return Err(
                Error { message: "no watcher left to give out".to_owned(), code: INTERNAL_ERROR },
            );
        }
        let watcher = self.next;
        let replaced = self.watcher(uri);
        proof {
            lemma_put(self@, uri@, watcher);
            let before = self@;
            let after = put(before, uri@, watcher);
            assert forall|i: int| 0 <= i < after.len() implies (#[trigger] after[i]).1
                < watcher + 1 by {
                if i < before.len() && after[i] == before[i] {
                    assert(before[i].1 < watcher);
                }
            }
            assert forall|i: int, j: int| 0 <= i < j < after.len() implies (#[trigger] after[i]).1
                != (#[trigger] after[j]).1 by {
                if after[i].1 != watcher && after[j].1 != watcher {
                    assert(after[i] == before[i]);
                    assert(after[j] == before[j]);
                } else if after[i].1 == watcher && after[j].1 == watcher {
                    if has_key(before, uri@) {
                        let p = position(before, uri@);
                        if i != p {
                            assert(after[i] == before[i]);
                            assert(before[i].1 < watcher);
                        }
                        if j != p {
                            assert(after[j] == before[j]);
                            assert(before[j].1 < watcher);
                        }
                    } else {
                        assert(after[i] == before[i]);
                        assert(before[i].1 < watcher);
                    }
                }
            }
        }
        self.watchers.register(uri.to_owned(), watcher);
        self.next = watcher + 1;
        Ok(Subscribed { watcher, replaced })
    }

    /// Ends the subscription of `uri` and returns its watcher, so that it
    /// can be stopped. An address that is not subscribed changes nothing.
    pub fn unsubscribe(&mut self, uri: &str) -> (r: Option<u64>)
        requires
            old(self).wf(),
        ensures
            final(self).wf(),
            r == find(old(self)@, uri@),
            final(self)@ == remove(old(self)@, uri@),
            find(final(self)@, uri@) is None,
            forall|other: Seq<char>|
                other != uri@ ==> find(final(self)@, other) == find(old(self)@, other),
            final(self).next_watcher() == old(self).next_watcher(),
            r is None ==> final(self)@ == old(self)@,
    {
        proof {
            lemma_remove(self@, uri@);
            let before = self@;
            let after = remove(before, uri@);
            if has_key(before, uri@) {
                let p = position(before, uri@);
                assert forall|i: int| 0 <= i < after.len() implies (#[trigger] after[i]) == (if i
                    < p {
                    before[i]
                } else {
                    before[i + 1]
                }) by {}
                assert forall|i: int| 0 <= i < after.len() implies (#[trigger] after[i]).1
                    < self.next by {
                    if i < p {
                        assert(before[i].1 < self.next);
                    } else {
                        assert(before[i + 1].1 < self.next);
                    }
                }
                assert forall|i: int, j: int| 0 <= i < j < after.len() implies (
                #[trigger] after[i]).1 != (#[trigger] after[j]).1 by {
                    let a = if i < p { i } else { i + 1 };
                    let b = if j < p { j } else { j + 1 };
                    assert(before[a].1 != before[b].1);
                }
            }
        }
        self.watchers.unregister(uri)
    }

    /// Whether `watcher` is the watcher that serves `uri` now.
    pub fn is_current(&self, uri: &str, watcher: u64) -> (r: bool)
        requires
            self.wf(),
        ensures
            r == (find(self@, uri@) == Some(watcher)),
    {
        match self.watcher(uri) {
            Some(w) => w == watcher,
            None => false,
        }
    }

    /// What to send after `watcher` has seen one change of `uri`: the
    /// notification that the resource was updated, if `watcher` still
    /// serves the address, and nothing if it was replaced or the
    /// subscription has ended.
    pub fn resource_updated(&self, uri: &str, watcher: u64) -> (r: ServerResponse)
        requires
            self.wf(),
        ensures
            r@ == updated(self@, uri@, watcher),
    {
        if self.is_current(uri, watcher) {
            ServerResponse::Notification(
                ServerNotification::ResourceUpdated {
                    json_rpc: jsonrpc_version().to_owned(),
                    uri: uri.to_owned(),
                },
            )
        } else {
            ServerResponse::Nothing
        }
    }
}

/// What follows one change that `watcher` has seen of `uri`.
pub open spec fn updated(table: Seq<(Seq<char>, u64)>, uri: Seq<char>, watcher: u64)
    -> ServerResponseView {
    if find(table, uri) == Some(watcher) {
        ServerResponseView::ResourceUpdated { json_rpc: "2.0"@, uri }
    } else {
        ServerResponseView::Nothing
    }
}

impl Default for Subscriptions {
    fn default() -> (r: Self)
        ensures
            r.wf(),
            r@ == Seq::<(Seq<char>, u64)>::empty(),
            !r.exhausted(),
    {
        Subscriptions::new()
    }
}


/// Ending the subscription of an address that is not subscribed changes
/// nothing, and ending a subscription twice is ending it once.
pub proof fn lemma_unsubscribe_idempotent(table: Seq<(Seq<char>, u64)>, uri: Seq<char>)
    requires
        distinct(table),
    ensures
        !has_key(table, uri) ==> remove(table, uri) == table && find(table, uri) is None,
        remove(remove(table, uri), uri) == remove(table, uri),
{
    lemma_remove(table, uri);
}

/// Subscribing an address that is subscribed already leaves it one
/// watcher, the new one: the address keeps its one entry, the entry names
/// the new watcher, and the old watcher is what the subscription reports
/// as replaced.
pub proof fn lemma_resubscribe(table: Seq<(Seq<char>, u64)>, uri: Seq<char>, old: u64, new: u64)
    requires
        distinct(table),
        find(table, uri) == Some(old),
    ensures
        distinct(put(table, uri, new)),
        put(table, uri, new).len() == table.len(),
        find(put(table, uri, new), uri) == Some(new),
        forall|other: Seq<char>| other != uri ==> find(put(table, uri, new), other) == find(
            table,
            other,
        ),
{
    lemma_put(table, uri, new);
}

/// Every subscribed address has exactly one watcher, and once its
/// subscription has ended no watcher reports for it any more.
pub proof fn lemma_one_watcher(table: Seq<(Seq<char>, u64)>, uri: Seq<char>, watcher: u64)
    requires
        distinct(table),
    ensures
        forall|i: int, j: int|
            0 <= i < table.len() && 0 <= j < table.len() && (#[trigger] table[i]).0 == uri && (
            #[trigger] table[j]).0 == uri ==> i == j,
        find(remove(table, uri), uri) is None,
        updated(remove(table, uri), uri, watcher) == ServerResponseView::Nothing,
        updated(table, uri, watcher) is ResourceUpdated ==> find(table, uri) == Some(watcher),
{
    lemma_remove(table, uri);
    assert forall|i: int, j: int|
        0 <= i < table.len() && 0 <= j < table.len() && (#[trigger] table[i]).0 == uri && (
        #[trigger] table[j]).0 == uri implies i == j by {
        if i < j {
            assert(table[i].0 != table[j].0);
        } else if j < i {
            assert(table[j].0 != table[i].0);
        }
    }
}

} // verus!
