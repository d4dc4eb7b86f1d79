use vstd::prelude::*;

use crate::json::text_eq;
use crate::messages::{
    copy_messages,
    has_id, in_time_order, insert_message, stably_rearranged, reaction_applied, replace_message, replaced,
    status_updated, update_attachment_status, update_message_reaction,
};
use crate::model::{ChatRef, Message, MessageView};

verus! {

/// The messages known of one conversation.
pub struct CachedChat {
    pub chat_ref: ChatRef,
    pub messages: Vec<Message>,
}

/// The messages the interface has seen, per conversation, whether or not the conversation is
/// open.
pub struct MessageCache {
    chats: Vec<CachedChat>,
}

/// One line of the cache as plain values.
pub open spec fn entry_of(c: CachedChat) -> (Seq<char>, Seq<MessageView>) {
    (c.chat_ref.0@, c.messages.deep_view())
}

/// No conversation has two lines.
pub open spec fn keys_distinct(e: Seq<(Seq<char>, Seq<MessageView>)>) -> bool {
    forall|i: int, j: int| 0 <= i < j < e.len() ==> (#[trigger] e[i]).0 != (#[trigger] e[j]).0
}

/// The lines as a map from conversation to messages.
pub open spec fn map_of(e: Seq<(Seq<char>, Seq<MessageView>)>) -> Map<Seq<char>, Seq<MessageView>> {
    Map::new(
        |k: Seq<char>| exists|i: int| 0 <= i < e.len() && (#[trigger] e[i]).0 == k,
        |k: Seq<char>| e[choose|i: int| 0 <= i < e.len() && (#[trigger] e[i]).0 == k].1,
    )
}

/// With distinct keys, the map holds exactly the lines.
pub proof fn lemma_map_of(e: Seq<(Seq<char>, Seq<MessageView>)>, i: int)
    requires
        keys_distinct(e),
        0 <= i < e.len(),
    ensures
        map_of(e).contains_key(e[i].0),
        map_of(e)[e[i].0] == e[i].1,
{
    let k = e[i].0;
    assert(map_of(e).dom().contains(k));
    let j = choose|j: int| 0 <= j < e.len() && (#[trigger] e[j]).0 == k;
    if j != i {
        if j < i {
            assert(e[j].0 != e[i].0);
        } else {
            assert(e[i].0 != e[j].0);
        }
    }
}

impl MessageCache {
    pub closed spec fn entries(&self) -> Seq<(Seq<char>, Seq<MessageView>)> {
        self.chats@.map_values(|c: CachedChat| entry_of(c))
    }

    #[verifier::type_invariant]
    closed spec fn wf(&self) -> bool {
        keys_distinct(self.entries())
    }

    /// The cached messages of each conversation.
    pub closed spec fn view(&self) -> Map<Seq<char>, Seq<MessageView>> {
        map_of(self.entries())
    }

    /// The messages cached for `k`, or none.
    pub open spec fn cached(&self, k: Seq<char>) -> Seq<MessageView> {
        if self.view().contains_key(k) {
            self.view()[k]
        } else {
            Seq::empty()
        }
    }

    pub fn new() -> (r: MessageCache)
        ensures
            r.view() == Map::<Seq<char>, Seq<MessageView>>::empty(),
    {
        let r = MessageCache { chats: Vec::new() };
        assert(r.view() =~= Map::<Seq<char>, Seq<MessageView>>::empty());
        r
    }

    fn position(&self, chat_ref: &ChatRef) -> (r: Option<usize>)
        ensures
            match r {
                Some(i) => i < self.chats@.len() && self.entries()[i as int].0 == chat_ref.0@,
                None => !self.view().contains_key(chat_ref.0@),
            },
    {
        let ghost e = self.entries();
        let mut i: usize = 0;
        while i < self.chats.len()
            invariant
                i <= self.chats@.len(),
                e == self.entries(),
                e.len() == self.chats@.len(),
                forall|k: int| 0 <= k < i ==> (#[trigger] e[k]).0 != chat_ref.0@,
            decreases self.chats.len() - i,
        {
            if text_eq(self.chats[i].chat_ref.0.as_str(), chat_ref.0.as_str()) {
                return Some(i);
            }
            i = i + 1;
        }
        None
    }

    /// The messages cached for a conversation.
    pub fn get(&self, chat_ref: &ChatRef) -> (r: Option<&Vec<Message>>)
        ensures
            match r {
                Some(v) => self.view().contains_key(chat_ref.0@) && self.view()[chat_ref.0@]
                    == v.deep_view(),
                None => !self.view().contains_key(chat_ref.0@),
            },
    {
        proof {
            use_type_invariant(self);
        }
        match self.position(chat_ref) {
            Some(i) => {
                proof {
                    lemma_map_of(self.entries(), i as int);
                }
                Some(&self.chats[i].messages)
            },
            None => None,
        }
    }

    /// Whether the conversation's cached messages include one with the id `id`.
    pub fn has_message(&self, chat_ref: &ChatRef, id: i64) -> (r: bool)
        ensures
            r == (self.view().contains_key(chat_ref.0@) && has_id(self.view()[chat_ref.0@], id)),
    {
        match self.get(chat_ref) {
            Some(v) => crate::messages::contains_id(v, id),
            None => false,
        }
    }

    /// Forgets everything.
    pub fn clear(&mut self)
        ensures
            final(self).view() == Map::<Seq<char>, Seq<MessageView>>::empty(),
    {
        self.chats = Vec::new();
        assert(self.view() =~= Map::<Seq<char>, Seq<MessageView>>::empty());
    }

    fn take_chats(&mut self) -> (r: Vec<CachedChat>)
        ensures
            r@.map_values(|c: CachedChat| entry_of(c)) == old(self).entries(),
            keys_distinct(old(self).entries()),
            final(self).entries().len() == 0,
    {
        proof {
            use_type_invariant(&*self);
        }
        let mut chats: Vec<CachedChat> = Vec::new();
        std::mem::swap(&mut chats, &mut self.chats);
        chats
    }

    /// Forgets one conversation.
    pub fn remove(&mut self, chat_ref: &ChatRef)
        ensures
            final(self).view() == old(self).view().remove(chat_ref.0@),
    {
        proof {
            use_type_invariant(&*self);
        }
        let ghost e = self.entries();
        let ghost k = chat_ref.0@;
        match self.position(chat_ref) {
            Some(i) => {
                let mut chats = self.take_chats();
                chats.remove(i);
                let ghost e2 = chats@.map_values(|c: CachedChat| entry_of(c));
                assert(e2 =~= e.remove(i as int));
                assert(keys_distinct(e2)) by {
                    assert forall|a: int, b: int| 0 <= a < b < e2.len() implies (#[trigger] e2[a]).0
                        != (#[trigger] e2[b]).0 by {
                        let a0 = if a < i { a } else { a + 1 };
                        let b0 = if b < i { b } else { b + 1 };
                        assert(e2[a] == e[a0] && e2[b] == e[b0]);
                        assert(e[a0].0 != e[b0].0);
                    }
                }
                self.chats = chats;
                proof {
                    let m1 = map_of(e2);
                    let m0 = map_of(e).remove(k);
                    assert forall|key: Seq<char>| m1.contains_key(key) <==> m0.contains_key(key) by {
                        if m1.contains_key(key) {
                            let j = choose|j: int| 0 <= j < e2.len() && (#[trigger] e2[j]).0 == key;
                            let j0 = if j < i { j } else { j + 1 };
                            assert(e2[j] == e[j0]);
                            assert(e[j0].0 != e[i as int].0 || j0 == i);
                            lemma_map_of(e, j0);
                        }
                        if m0.contains_key(key) {
                            let j = choose|j: int| 0 <= j < e.len() && (#[trigger] e[j]).0 == key;
                            assert(j != i);
                            let j2 = if j < i { j } else { j - 1 };
                            assert(e2[j2] == e[j]);
                        }
                    }
                    assert forall|key: Seq<char>| m1.contains_key(key) implies m1[key] == m0[key] by {
                        let j = choose|j: int| 0 <= j < e2.len() && (#[trigger] e2[j]).0 == key;
                        let j0 = if j < i { j } else { j + 1 };
                        assert(e2[j] == e[j0]);
                        lemma_map_of(e2, j);
                        lemma_map_of(e, j0);
                    }
                    assert(m1 =~= m0);
                }
            },
            None => {
                assert(self.view().remove(k) =~= self.view());
            },
        }
    }

    /// Stores `messages` as the cached messages of a conversation, replacing any it had.
    pub fn insert(&mut self, chat_ref: ChatRef, messages: Vec<Message>)
        ensures
            final(self).view() == old(self).view().insert(chat_ref.0@, messages.deep_view()),
    {
        proof {
            use_type_invariant(&*self);
        }
        let ghost e = self.entries();
        let ghost k = chat_ref.0@;
        let ghost v = messages.deep_view();
        let pos = self.position(&chat_ref);
        let mut chats = self.take_chats();
        let ghost i: int;
        match pos {
            Some(p) => {
                chats.set(p, CachedChat { chat_ref, messages });
                proof {
                    i = p as int;
                }
            },
            None => {
                chats.push(CachedChat { chat_ref, messages });
                proof {
                    i = e.len() as int;
                }
            },
        }
        let ghost e2 = chats@.map_values(|c: CachedChat| entry_of(c));
        proof {
            if pos is Some {
                assert(e2 =~= e.update(i, (k, v)));
            } else {
                assert(e2 =~= e.push((k, v)));
                assert forall|j: int| 0 <= j < e.len() implies (#[trigger] e[j]).0 != k by {
                    if e[j].0 == k {
                        assert(map_of(e).contains_key(k));
                    }
                }
            }
            assert(keys_distinct(e2)) by {
                assert forall|a: int, b: int| 0 <= a < b < e2.len() implies (#[trigger] e2[a]).0
                    != (#[trigger] e2[b]).0 by {
                    if a != i && b != i {
                        assert(e2[a] == e[a] && e2[b] == e[b]);
                    } else if a == i {
                        assert(e2[b] == e[b]);
                    } else {
                        assert(e2[a] == e[a]);
                    }
                }
            }
        }
        self.chats = chats;
        proof {
            let m1 = map_of(e2);
            let m0 = map_of(e).insert(k, v);
            lemma_map_of(e2, i);
            assert forall|key: Seq<char>| m1.contains_key(key) <==> m0.contains_key(key) by {
                if m1.contains_key(key) && key != k {
                    let j = choose|j: int| 0 <= j < e2.len() && (#[trigger] e2[j]).0 == key;
                    assert(j != i);
                    assert(e2[j] == e[j]);
                    lemma_map_of(e, j);
                }
                if m0.contains_key(key) && key != k {
                    let j = choose|j: int| 0 <= j < e.len() && (#[trigger] e[j]).0 == key;
                    assert(e2[j] == e[j]);
                }
            }
            assert forall|key: Seq<char>| m1.contains_key(key) implies m1[key] == m0[key] by {
                if key != k {
                    let j = choose|j: int| 0 <= j < e2.len() && (#[trigger] e2[j]).0 == key;
                    assert(j != i);
                    assert(e2[j] == e[j]);
                    lemma_map_of(e2, j);
                    lemma_map_of(e, j);
                }
            }
            assert(m1 =~= m0);
        }
    }

    /// Adds a message to a conversation's cached messages, unless one with its id is there; the
    /// conversation gets a line if it had none.
    pub fn cache_message(&mut self, chat_ref: &ChatRef, message: Message)
        ensures
            final(self).view() == old(self).view().insert(
                chat_ref.0@,
                final(self).view()[chat_ref.0@],
            ),
            has_id(old(self).cached(chat_ref.0@), message.id) ==> final(self).view()[chat_ref.0@]
                == old(self).cached(chat_ref.0@),
            !has_id(old(self).cached(chat_ref.0@), message.id) ==> {
                &&& final(self).view()[chat_ref.0@].to_multiset() == old(self).cached(
                    chat_ref.0@,
                ).to_multiset().insert(message.deep_view())
                &&& in_time_order(final(self).view()[chat_ref.0@])
                &&& stably_rearranged(
                    final(self).view()[chat_ref.0@],
                    old(self).cached(chat_ref.0@).push(message.deep_view()),
                )
            },
    {
        let mut list = match self.get(chat_ref) {
            Some(v) => copy_messages(v),
            None => Vec::new(),
        };
        assert(list.deep_view() =~= self.cached(chat_ref.0@));
        insert_message(&mut list, message);
        self.insert(ChatRef(chat_ref.0.clone()), list);
    }

    /// Applies a reaction change to a message of a cached conversation.
    pub fn update_reaction(
        &mut self,
        chat_ref: &ChatRef,
        item_id: i64,
        emoji: &str,
        added: bool,
        reacted_by_user: bool,
    )
        ensures
            final(self).view() == if old(self).view().contains_key(chat_ref.0@) {
                old(self).view().insert(
                    chat_ref.0@,
                    reaction_applied(
                        old(self).view()[chat_ref.0@],
                        item_id,
                        emoji@,
                        added,
                        reacted_by_user,
                    ),
                )
            } else {
                old(self).view()
            },
    {
        match self.get(chat_ref) {
            Some(v) => {
                let mut list = copy_messages(v);
                update_message_reaction(&mut list, item_id, emoji, added, reacted_by_user);
                self.insert(ChatRef(chat_ref.0.clone()), list);
            },
            None => {},
        }
    }

    /// Replaces a message of a cached conversation by a newer copy with the same id.
    pub fn replace(&mut self, chat_ref: &ChatRef, message: Message)
        ensures
            final(self).view() == if old(self).view().contains_key(chat_ref.0@) {
                old(self).view().insert(
                    chat_ref.0@,
                    replaced(old(self).view()[chat_ref.0@], message.deep_view()),
                )
            } else {
                old(self).view()
            },
    {
        match self.get(chat_ref) {
            Some(v) => {
                let mut list = copy_messages(v);
                replace_message(&mut list, message);
                self.insert(ChatRef(chat_ref.0.clone()), list);
            },
            None => {},
        }
    }

    /// Records a new transfer status of a file in every cached conversation.
    pub fn update_attachment_status(&mut self, file_id: i64, status: &str, path: Option<&str>)
        ensures
            final(self).view().dom() == old(self).view().dom(),
            forall|k: Seq<char>|
                #[trigger] old(self).view().contains_key(k) ==> final(self).view()[k]
                    == status_updated(
                    old(self).view()[k],
                    file_id,
                    status@,
                    match path {
                        Some(t) => Some(t@),
                        None => None,
                    },
                ),
    {
        let ghost pv = match path {
            Some(t) => Some(t@),
            None => None::<Seq<char>>,
        };
        let ghost e = self.entries();
        let mut chats = self.take_chats();
        let n = chats.len();
        let mut i: usize = 0;
        assert forall|j: int| 0 <= j < n implies entry_of(#[trigger] chats@[j]) == e[j] by {
            assert(chats@.map_values(|c: CachedChat| entry_of(c))[j] == entry_of(chats@[j]));
        }
        while i < n
            invariant
                i <= n,
                n == chats@.len(),
                n == e.len(),
                keys_distinct(e),
                pv == match path {
                    Some(t) => Some(t@),
                    None => None::<Seq<char>>,
                },
                forall|j: int| 0 <= j < n ==> entry_of(#[trigger] chats@[j]).0 == e[j].0,
                forall|j: int|
                    0 <= j < i ==> entry_of(#[trigger] chats@[j]).1 == status_updated(
                        e[j].1,
                        file_id,
                        status@,
                        pv,
                    ),
                forall|j: int| i <= j < n ==> entry_of(#[trigger] chats@[j]).1 == e[j].1,
            decreases n - i,
        {
            let ghost before = chats@;
            let mut c = chats.remove(i);
            crate::messages::update_attachment_status(&mut c.messages, file_id, status, path);
            chats.insert(i, c);
            proof {
                assert forall|j: int| 0 <= j < n && j != i implies chats@[j] == before[j] by {}
            }
            i = i + 1;
        }
        let ghost e2 = chats@.map_values(|c: CachedChat| entry_of(c));
        assert forall|j: int| 0 <= j < n implies #[trigger] e2[j] == entry_of(chats@[j]) by {}
        assert(keys_distinct(e2)) by {
            assert forall|a: int, b: int| 0 <= a < b < e2.len() implies (#[trigger] e2[a]).0
                != (#[trigger] e2[b]).0 by {
                assert(e2[a].0 == e[a].0 && e2[b].0 == e[b].0);
            }
        }
        self.put_back(chats);
        proof {
            let m0 = map_of(e);
            let m1 = map_of(e2);
            assert forall|key: Seq<char>| m1.contains_key(key) <==> m0.contains_key(key) by {
                if m1.contains_key(key) {
                    let j = choose|j: int| 0 <= j < e2.len() && (#[trigger] e2[j]).0 == key;
                    assert(e[j].0 == key);
                }
                if m0.contains_key(key) {
                    let j = choose|j: int| 0 <= j < e.len() && (#[trigger] e[j]).0 == key;
                    assert(e2[j].0 == key);
                }
            }
            assert(m1.dom() =~= m0.dom());
            assert forall|key: Seq<char>| #[trigger] m0.contains_key(key) implies m1[key]
                == status_updated(m0[key], file_id, status@, pv) by {
                let j = choose|j: int| 0 <= j < e.len() && (#[trigger] e[j]).0 == key;
                lemma_map_of(e, j);
                lemma_map_of(e2, j);
            }
        }
    }

    fn put_back(&mut self, chats: Vec<CachedChat>)
        requires
            keys_distinct(chats@.map_values(|c: CachedChat| entry_of(c))),
        ensures
            final(self).entries() == chats@.map_values(|c: CachedChat| entry_of(c)),
    {
        self.chats = chats;
    }
}

} // verus!
