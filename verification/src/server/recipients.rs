//! Who is sent a particular message.
//!
//! A [`Recipients`] value travels with every payload on the broadcast bus and
//! tells the session of each connection whether to forward the payload to its
//! own client. To answer the client whose message is being handled, use the
//! session's own outbound channel instead.

use vstd::laws_eq::obeys_concrete_eq;
use vstd::prelude::*;

verus! {

/// The destination set of a routed message. `T` is the type of client
/// identifiers.
#[derive(Clone, Debug)]
pub enum Recipients<T> {
    /// For sending to a single other client.
    SingleRecipient {
        /// The client to send the message to.
        recipient: T,
    },
    /// For sending to multiple other clients.
    MultipleRecipients {
        /// The clients to send the message to.
        recipients: Vec<T>,
    },
    /// For sending to all clients.
    Everyone,
}

/// `clients` without every occurrence of `excluded`, in the same order.
pub open spec fn without<T>(clients: Seq<T>, excluded: T) -> Seq<T> {
    clients.filter(|c: T| c != excluded)
}

impl<T> Recipients<T> {
    /// Whether the client `id` is among the recipients.
    pub open spec fn includes(self, id: T) -> bool {
        match self {
            Recipients::SingleRecipient { recipient } => recipient == id,
            Recipients::MultipleRecipients { recipients } => recipients@.contains(id),
            Recipients::Everyone => true,
        }
    }
}

/// Whether two client identifiers are the same.
fn same_id<T: PartialEq>(a: &T, b: &T) -> (same: bool)
    requires
        obeys_concrete_eq::<T>(),
    ensures
        same == (*a == *b),
{
    proof {
        reveal(obeys_concrete_eq);
    }
    *a == *b
}

/// Whether `id` occurs in `ids`.
fn contains_id<T: PartialEq>(ids: &Vec<T>, id: &T) -> (found: bool)
    requires
        obeys_concrete_eq::<T>(),
    ensures
        found == ids@.contains(*id),
{
    let mut i: usize = 0;
    while i < ids.len()
        invariant
            i <= ids.len(),
            obeys_concrete_eq::<T>(),
            forall|j: int| 0 <= j < i ==> ids@[j] != *id,
        decreases ids.len() - i,
    {
        if same_id(&ids[i], id) {
            return true;
        }
        i += 1;
    }
    false
}

impl<T: PartialEq> Recipients<T> {
    /// All of `clients` except `client_id`, in the order of `clients`.
    ///
    /// `clients` is a snapshot of the client list: a client that joins or
    /// leaves after it was taken is not accounted for.
    pub fn everyone_but(client_id: &T, clients: Vec<T>) -> (selector: Recipients<T>)
        requires
            obeys_concrete_eq::<T>(),
        ensures
            is_everyone_but(selector, clients@, *client_id),
    {
        let ghost all = clients@;
        let mut kept: Vec<T> = Vec::new();
        for client in it: clients
            invariant
                obeys_concrete_eq::<T>(),
                it.seq() == all,
                kept@ == without(all.take(it.index()), *client_id),
        {
            proof {
                let seen = all.take(it.index() + 1);
                assert(seen.drop_last() == all.take(it.index()));
                reveal(Seq::filter);
            }
            if !same_id(&client, client_id) {
                kept.push(client);
            }
        }
        proof {
            assert(all.take(all.len() as int) == all);
        }
        Recipients::MultipleRecipients { recipients: kept }
    }

    /// Whether a message for these recipients goes to the client `id`.
    pub fn matches(&self, id: &T) -> (forward: bool)
        requires
            obeys_concrete_eq::<T>(),
        ensures
            forward == self.includes(*id),
    {
        match self {
            Recipients::SingleRecipient { recipient } => same_id(recipient, id),
            Recipients::MultipleRecipients { recipients } => contains_id(recipients, id),
            Recipients::Everyone => true,
        }
    }
}

/// Whether `selector` is what [`Recipients::everyone_but`] returns for
/// `clients` and `excluded`.
pub open spec fn is_everyone_but<T>(selector: Recipients<T>, clients: Seq<T>, excluded: T) -> bool {
    selector matches Recipients::MultipleRecipients { recipients } && recipients@ == without(
        clients,
        excluded,
    )
}

/// What `everyone_but` selects: every client of the list but the excluded
/// one, and nobody else. So the excluded client is never among the
/// recipients, and as a set the recipients are the clients less the excluded
/// one.
pub proof fn lemma_everyone_but<T>(selector: Recipients<T>, clients: Seq<T>, excluded: T)
    requires
        is_everyone_but(selector, clients, excluded),
    ensures
        !selector.includes(excluded),
        forall|id: T| #[trigger] selector.includes(id) <==> clients.contains(id) && id != excluded,
        selector->recipients@.to_set() == clients.to_set().remove(excluded),
{
    let keep = |c: T| c != excluded;
    let kept = without(clients, excluded);
    assert forall|x: T| kept.contains(x) <==> clients.contains(x) && x != excluded by {
        if kept.contains(x) {
            let i = choose|i: int| 0 <= i < kept.len() && kept[i] == x;
            clients.lemma_filter_pred(keep, i);
            clients.lemma_filter_contains_rev(keep, x);
        }
        if clients.contains(x) && x != excluded {
            let i = choose|i: int| 0 <= i < clients.len() && clients[i] == x;
            clients.lemma_filter_contains(keep, i);
        }
    }
    assert(kept.to_set() =~= clients.to_set().remove(excluded));
}

} // verus!
