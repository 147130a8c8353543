use crate::message::{not_after, Message, MessageView};
use std::collections::HashMap;
use vstd::prelude::*;

verus! {

broadcast use vstd::std_specs::hash::group_hash_axioms;

/// The messages held by the service, by identifier.
pub struct Store {
    messages: HashMap<u128, Message>,
}

/// `s` is ordered by creation time, earliest first.
pub open spec fn sorted_by_creation(s: Seq<MessageView>) -> bool {
    forall|i: int, j: int| 0 <= i < j < s.len() ==> not_after(s[i].created, s[j].created)
}

/// `s` lists every message of `m` once and nothing else.
pub open spec fn lists_exactly(s: Seq<MessageView>, m: Map<u128, MessageView>) -> bool {
    &&& s.len() == m.len()
    &&& forall|i: int| 0 <= i < s.len() ==> #[trigger] m.contains_key(s[i].id) && m[s[i].id] == s[i]
    &&& forall|i: int, j: int| 0 <= i < j < s.len() ==> s[i].id != s[j].id
}

/// A woop count after one more woop: one more, wrapping to zero past the
/// largest value.
pub open spec fn next_count(w: u64) -> u64 {
    if w == u64::MAX {
        0
    } else {
        (w + 1) as u64
    }
}

/// `m` after one more woop on the message under `id`.
pub open spec fn wooped(m: Map<u128, MessageView>, id: u128) -> Map<u128, MessageView> {
    m.insert(id, MessageView { woops: next_count(m[id].woops), ..m[id] })
}

/// The views of a sequence of messages.
pub open spec fn views(v: Seq<Message>) -> Seq<MessageView> {
    v.map_values(|m: Message| m@)
}

impl View for Store {
    type V = Map<u128, MessageView>;

    closed spec fn view(&self) -> Map<u128, MessageView> {
        self.messages@.map_values(|m: Message| m@)
    }
}

impl Store {
    /// Each message is stored under its own identifier.
    pub closed spec fn wf(&self) -> bool {
        forall|k: u128| #[trigger] self.messages@.contains_key(k) ==> self.messages@[k].id == k
    }

    /// An empty store.
    pub fn new() -> (r: Store)
        ensures
            r.wf(),
            r@ == Map::<u128, MessageView>::empty(),
    {
        let r = Store { messages: HashMap::new() };
        assert(r@ =~= Map::<u128, MessageView>::empty());
        r
    }

    /// The number of stored messages.
    pub fn len(&self) -> (r: usize)
        ensures
            r == self@.len(),
    {
        assert(self@.dom() =~= self.messages@.dom());
        self.messages.len()
    }

    /// Stores `msg` under its identifier, replacing any message held there.
    pub fn insert(&mut self, msg: Message)
        requires
            old(self).wf(),
        ensures
            final(self).wf(),
            final(self)@ == old(self)@.insert(msg.id, msg@),
    {
        let ghost v = msg@;
        self.messages.insert(msg.id, msg);
        assert(self@ =~= old(self)@.insert(v.id, v));
    }

    /// Counts one more woop on the message under `id` and returns it, or
    /// returns `None` and changes nothing where no message has that id.
    /// The counter wraps at its largest value.
    pub fn woop(&mut self, id: u128) -> (r: Option<Message>)
        requires
            old(self).wf(),
        ensures
            final(self).wf(),
            match r {
                Some(m) => {
                    &&& old(self)@.contains_key(id)
                    &&& final(self)@ == wooped(old(self)@, id)
                    &&& m@ == final(self)@[id]
                },
                None => !old(self)@.contains_key(id) && final(self)@ == old(self)@,
            },
    {
        match self.messages.get(&id) {
            Some(found) => {
                let mut updated = found.duplicate();
                updated.woops = updated.woops.wrapping_add(1);
                let ghost v = updated@;
                self.messages.insert(id, updated.duplicate());
                assert(self@ =~= old(self)@.insert(id, v));
                Some(updated)
            },
            None => None,
        }
    }

    /// Every stored message, earliest first.
    pub fn list(&self) -> (r: Vec<Message>)
        requires
            self.wf(),
        ensures
            lists_exactly(views(r@), self@),
            sorted_by_creation(views(r@)),
    {
        let mut out: Vec<Message> = Vec::new();
        for entry in it: self.messages.iter()
            invariant
                self.wf(),
                it.seq().len() == self.messages@.len(),
                it.seq().no_duplicates(),
                forall|t: int| 0 <= t < it.seq().len() ==>
                    #[trigger] self.messages@.contains_key(*it.seq()[t].0)
                    && self.messages@[*it.seq()[t].0] == *it.seq()[t].1,
                out.len() == it.index(),
                forall|i: int| 0 <= i < out.len() ==>
                    #[trigger] self@.contains_key(out@[i].id) && self@[out@[i].id] == out@[i]@,
                forall|i: int, j: int| 0 <= i < j < out.len() ==> out@[i].id != out@[j].id,
                forall|i: int, t: int| 0 <= i < out.len() && it.index() <= t < it.seq().len() ==>
                    out@[i].id != *it.seq()[t].0,
                sorted_by_creation(views(out@)),
        {
            let ghost k = it.index();
            assert(entry == it.seq()[k]);
            let (key, msg) = entry;
            assert(self.messages@.contains_key(*key) && self.messages@[*key] == *msg);
            let mut pos: usize = 0;
            while pos < out.len() && out[pos].created.is_not_after(&msg.created)
                invariant
                    pos <= out.len(),
                    sorted_by_creation(views(out@)),
                    forall|i: int| 0 <= i < pos ==> not_after(#[trigger] out@[i].created, msg.created),
                decreases out.len() - pos,
            {
                pos = pos + 1;
            }
            let item = msg.duplicate();
            let ghost before = out@;
            let ghost fresh = item@;
            assert(self@.contains_key(fresh.id) && self@[fresh.id] == fresh);
            assert forall|j: int| pos <= j < before.len() implies
                not_after(fresh.created, #[trigger] before[j].created) by {
                assert(views(before)[pos as int] == before[pos as int]@);
                assert(views(before)[j] == before[j]@);
                if pos < j {
                    assert(not_after(views(before)[pos as int].created, views(before)[j].created));
                }
            }
            assert forall|t: int| k < t < it.seq().len() implies fresh.id != *it.seq()[t].0 by {
                if fresh.id == *it.seq()[t].0 {
                    assert(it.seq()[t] == it.seq()[k]);
                }
            }
            out.insert(pos, item);
            proof {
                before.insert_ensures(pos as int, out@[pos as int]);
            }
            assert(out@[pos as int]@ == fresh);
            assert forall|i: int| 0 <= i < out.len() implies
                #[trigger] self@.contains_key(out@[i].id) && self@[out@[i].id] == out@[i]@ by {
                if i < pos {
                    assert(out@[i] == before[i]);
                    assert(self@.contains_key(before[i].id));
                } else if i > pos {
                    assert(out@[i] == before[i - 1]);
                    assert(self@.contains_key(before[i - 1].id));
                } else {
                    assert(self@.contains_key(fresh.id));
                }
            }
            assert forall|i: int, j: int| 0 <= i < j < out.len() implies out@[i].id != out@[j].id by {
                if i < pos {
                    assert(out@[i] == before[i]);
                } else if i > pos {
                    assert(out@[i] == before[i - 1]);
                }
                if j < pos {
                    assert(out@[j] == before[j]);
                } else if j > pos {
                    assert(out@[j] == before[j - 1]);
                }
            }
            assert forall|i: int, t: int| 0 <= i < out.len() && k + 1 <= t < it.seq().len() implies
                out@[i].id != *it.seq()[t].0 by {
                if i < pos {
                    assert(out@[i] == before[i]);
                } else if i > pos {
                    assert(out@[i] == before[i - 1]);
                }
            }
            assert forall|i: int, j: int| 0 <= i < j < out.len() implies
                not_after(views(out@)[i].created, views(out@)[j].created) by {
                assert(views(out@)[i] == out@[i]@);
                assert(views(out@)[j] == out@[j]@);
                if i < pos {
                    assert(out@[i] == before[i]);
                    assert(views(before)[i] == before[i]@);
                } else if i > pos {
                    assert(out@[i] == before[i - 1]);
                    assert(views(before)[i - 1] == before[i - 1]@);
                }
                if j < pos {
                    assert(out@[j] == before[j]);
                    assert(views(before)[j] == before[j]@);
                } else if j > pos {
                    assert(out@[j] == before[j - 1]);
                    assert(views(before)[j - 1] == before[j - 1]@);
                }
            }
        }
        assert(self@.dom() =~= self.messages@.dom());
        out
    }
}

} // verus!
