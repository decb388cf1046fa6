use vstd::prelude::*;
use crate::messages::{Envelope, ServerMessage};

verus! {

/// No connection id is registered twice.
pub open spec fn connections_unique(s: Seq<String>) -> bool {
    forall|i: int, j: int| 0 <= i < s.len() && 0 <= j < s.len() && i != j ==> s[i]@ != s[j]@
}

pub open spec fn is_connected(s: Seq<String>, id: Seq<char>) -> bool {
    exists|i: int| 0 <= i < s.len() && s[i]@ == id
}

pub open spec fn opt_view(o: Option<&String>) -> Option<Seq<char>> {
    match o {
        Some(e) => Some(e@),
        None => None,
    }
}

/// The ids of `s`, in order, without the one equal to `exclude`.
pub open spec fn excluding(s: Seq<String>, exclude: Option<Seq<char>>) -> Seq<String>
    decreases s.len(),
{
    if s.len() == 0 {
        Seq::empty()
    } else {
        let rest = excluding(s.drop_last(), exclude);
        if exclude == Some(s.last()@) {
            rest
        } else {
            rest.push(s.last())
        }
    }
}

/// Position of `id` in the registry; meaningful when `is_connected(s, id)`.
pub open spec fn connection_index(s: Seq<String>, id: Seq<char>) -> int {
    choose|i: int| 0 <= i < s.len() && s[i]@ == id
}

/// The registry after `id` is removed, if present.
pub open spec fn disconnected(s: Seq<String>, id: Seq<char>) -> Seq<String> {
    if is_connected(s, id) {
        s.remove(connection_index(s, id))
    } else {
        s
    }
}

/// A recipient of `excluding(s, exclude)` is a registered id other than the
/// excluded one, and every such id is a recipient.
pub proof fn lemma_excluding_members(s: Seq<String>, exclude: Option<Seq<char>>, id: Seq<char>)
    ensures
        is_connected(excluding(s, exclude), id) <==> (is_connected(s, id) && exclude != Some(id)),
    decreases s.len(),
{
    if s.len() > 0 {
        let t = s.drop_last();
        lemma_excluding_members(t, exclude, id);
        let r = excluding(t, exclude);
        let u = excluding(s, exclude);
        let last = s.last();
        assert(u == r || (u == r.push(last) && exclude != Some(last@)));
        if is_connected(s, id) && exclude != Some(id) {
            let i = choose|i: int| 0 <= i < s.len() && s[i]@ == id;
            if i < s.len() - 1 {
                assert(t[i]@ == id);
                assert(is_connected(r, id));
                let k = choose|k: int| 0 <= k < r.len() && r[k]@ == id;
                assert(u[k] == r[k]);
            } else {
                assert(u[r.len() as int]@ == id);
            }
        }
        if is_connected(u, id) {
            let k = choose|k: int| 0 <= k < u.len() && u[k]@ == id;
            if k < r.len() {
                assert(r[k] == u[k]);
                assert(is_connected(r, id));
                let j = choose|j: int| 0 <= j < t.len() && t[j]@ == id;
                assert(s[j] == t[j]);
            } else {
                assert(s[s.len() - 1]@ == id);
            }
        }
    }
}

/// Without an exclusion, everyone registered is a recipient, in order.
pub proof fn lemma_excluding_none(s: Seq<String>)
    ensures
        excluding(s, None) == s,
    decreases s.len(),
{
    if s.len() > 0 {
        lemma_excluding_none(s.drop_last());
        assert(s.drop_last().push(s.last()) =~= s);
    }
}

/// The registry of open connections, by participant id, and the fan-out of
/// messages over it.
pub struct MessageBroadcaster {
    connections: Vec<String>,
}

impl View for MessageBroadcaster {
    type V = Seq<String>;

    closed spec fn view(&self) -> Seq<String> {
        self.connections@
    }
}

impl MessageBroadcaster {
    pub open spec fn wf(&self) -> bool {
        connections_unique(self@)
    }

    pub fn new() -> (r: MessageBroadcaster)
        ensures
            r@ == Seq::<String>::empty(),
            r.wf(),
    {
        MessageBroadcaster { connections: Vec::new() }
    }

    fn find(&self, player_id: &String) -> (r: Option<usize>)
        requires
            self.wf(),
        ensures
            match r {
                Some(i) => is_connected(self@, player_id@) && i < self@.len() && self@[i as int]@
                    == player_id@,
                None => !is_connected(self@, player_id@),
            },
    {
        let mut i: usize = 0;
        while i < self.connections.len()
            invariant
                i <= self.connections@.len(),
                forall|j: int| 0 <= j < i ==> self.connections@[j]@ != player_id@,
            decreases self.connections@.len() - i,
        {
            if self.connections[i] == *player_id {
                return Some(i);
            }
            i = i + 1;
        }
        None
    }

    /// Registers a connection; an id already registered stays as it is.
    pub fn add_connection(&mut self, player_id: String)
        requires
            old(self).wf(),
        ensures
            final(self)@ == if is_connected(old(self)@, player_id@) {
                old(self)@
            } else {
                old(self)@.push(player_id)
            },
            final(self).wf(),
    {
        match self.find(&player_id) {
            Some(_) => {},
            None => {
                self.connections.push(player_id);
            },
        }
    }

    /// Unregisters a connection; nothing happens if it is absent.
    pub fn remove_connection(&mut self, player_id: &String)
        requires
            old(self).wf(),
        ensures
            final(self)@ == disconnected(old(self)@, player_id@),
            final(self).wf(),
    {
        match self.find(player_id) {
            Some(i) => {
                let ghost s = self@;
                proof {
                    assert(connection_index(s, player_id@) == i);
                }
                self.connections.remove(i);
                assert(connections_unique(self@)) by {
                    let t = self@;
                    assert forall|a: int| 0 <= a < t.len() implies t[a]
                        == s[if a < i { a } else { a + 1 }] by {}
                }
            },
            None => {},
        }
    }

    pub fn is_player_connected(&self, player_id: &String) -> (r: bool)
        requires
            self.wf(),
        ensures
            r == is_connected(self@, player_id@),
    {
        self.find(player_id).is_some()
    }

    /// Addresses `message` to every registered connection but `exclude_id`.
    pub fn broadcast_message(&self, message: ServerMessage, exclude_id: Option<&String>) -> (r:
        Envelope)
        ensures
            r.message == message,
            r.recipients@ == excluding(self@, opt_view(exclude_id)),
    {
        let mut recipients: Vec<String> = Vec::new();
        let mut i: usize = 0;
        while i < self.connections.len()
            invariant
                i <= self.connections@.len(),
                recipients@ == excluding(self.connections@.subrange(0, i as int), opt_view(exclude_id)),
            decreases self.connections@.len() - i,
        {
            let skip = match exclude_id {
                Some(e) => self.connections[i] == *e,
                None => false,
            };
            proof {
                let t = self.connections@.subrange(0, i as int + 1);
                assert(t.drop_last() =~= self.connections@.subrange(0, i as int));
            }
            if !skip {
                recipients.push(self.connections[i].clone());
            }
            i = i + 1;
        }
        assert(self.connections@.subrange(0, self.connections@.len() as int) =~= self.connections@);
        Envelope { recipients, message }
    }

    /// Addresses `message` to the connection of `player_id` alone, or to
    /// nobody if it is not registered.
    pub fn send_to_player(&self, player_id: &String, message: ServerMessage) -> (r: Envelope)
        requires
            self.wf(),
        ensures
            r.message == message,
            r.recipients@ == if is_connected(self@, player_id@) {
                seq![*player_id]
            } else {
                Seq::<String>::empty()
            },
    {
        let mut recipients: Vec<String> = Vec::new();
        if self.is_player_connected(player_id) {
            recipients.push(player_id.clone());
        }
        assert(recipients@ =~= if is_connected(self@, player_id@) {
            seq![*player_id]
        } else {
            Seq::<String>::empty()
        });
        Envelope { recipients, message }
    }
}

} // verus!
