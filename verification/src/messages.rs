use vstd::prelude::*;

use crate::model::{
    opt_text_view, Attachment, AttachmentView, Message, MessageReaction, MessageView, ReactionView,
};
use crate::seqs::{
    compare_texts, lemma_text_lt_asymmetric, lemma_text_lt_irreflexive, lemma_text_lt_total,
    lemma_text_lt_transitive, text_lt, TextOrder,
};

verus! {

broadcast use vstd::seq_lib::group_to_multiset_ensures;

// ---------------------------------------------------------------------------------------
// Copies
// ---------------------------------------------------------------------------------------

pub fn copy_reactions(rs: &Vec<MessageReaction>) -> (r: Vec<MessageReaction>)
    ensures
        r.deep_view() == rs.deep_view(),
{
    let ghost all = rs.deep_view();
    let mut out: Vec<MessageReaction> = Vec::new();
    let mut i: usize = 0;
    assert(out.deep_view() =~= all.take(0));
    while i < rs.len()
        invariant
            i <= rs@.len(),
            all == rs.deep_view(),
            out.deep_view() == all.take(i as int),
        decreases rs.len() - i,
    {
        let x = &rs[i];
        let ghost before = out.deep_view();
        let c = MessageReaction { emoji: x.emoji.clone(), count: x.count, user_reacted: x.user_reacted };
        out.push(c);
        assert(out.deep_view() =~= before.push(c.deep_view()));
        assert(all.take(i + 1) =~= all.take(i as int).push(all[i as int]));
        i = i + 1;
    }
    assert(all.take(rs@.len() as int) =~= all);
    out
}

fn copy_path(p: &Option<String>) -> (r: Option<String>)
    ensures
        opt_text_view(r) == opt_text_view(*p),
{
    match p {
        Some(s) => Some(s.clone()),
        None => None,
    }
}

pub fn copy_attachment(a: &Attachment) -> (r: Attachment)
    ensures
        r.deep_view() == a.deep_view(),
{
    Attachment {
        id: a.id,
        name: a.name.clone(),
        size: a.size,
        kind: a.kind,
        status: a.status.clone(),
        progress: a.progress,
        path: copy_path(&a.path),
    }
}

pub fn copy_message(m: &Message) -> (r: Message)
    ensures
        r.deep_view() == m.deep_view(),
{
    let attachment = match &m.attachment {
        Some(a) => Some(copy_attachment(a)),
        None => None,
    };
    Message {
        id: m.id,
        text: m.text.clone(),
        timestamp: m.timestamp.clone(),
        outgoing: m.outgoing,
        reactions: copy_reactions(&m.reactions),
        attachment,
    }
}

pub fn copy_messages(ms: &Vec<Message>) -> (r: Vec<Message>)
    ensures
        r.deep_view() == ms.deep_view(),
{
    let ghost all = ms.deep_view();
    let mut out: Vec<Message> = Vec::new();
    let mut i: usize = 0;
    assert(out.deep_view() =~= all.take(0));
    while i < ms.len()
        invariant
            i <= ms@.len(),
            all == ms.deep_view(),
            out.deep_view() == all.take(i as int),
        decreases ms.len() - i,
    {
        let ghost before = out.deep_view();
        let c = copy_message(&ms[i]);
        out.push(c);
        assert(out.deep_view() =~= before.push(c.deep_view()));
        assert(all.take(i + 1) =~= all.take(i as int).push(all[i as int]));
        i = i + 1;
    }
    assert(all.take(ms@.len() as int) =~= all);
    out
}

// ---------------------------------------------------------------------------------------
// Time order
// ---------------------------------------------------------------------------------------

/// Messages are shown by time stamp, and by id where two have the same time stamp.
pub open spec fn comes_before(a: MessageView, b: MessageView) -> bool {
    text_lt(a.timestamp, b.timestamp) || (a.timestamp == b.timestamp && a.id < b.id)
}

/// No message is shown after one that comes before it.
pub open spec fn in_time_order(s: Seq<MessageView>) -> bool {
    forall|i: int, j: int| 0 <= i < j < s.len() ==> !comes_before(#[trigger] s[j], #[trigger] s[i])
}

pub proof fn lemma_comes_before(a: MessageView, b: MessageView, c: MessageView)
    ensures
        !comes_before(a, a),
        comes_before(a, b) ==> !comes_before(b, a),
        comes_before(a, b) && comes_before(b, c) ==> comes_before(a, c),
        !comes_before(a, b) && !comes_before(b, c) ==> !comes_before(a, c),
        comes_before(a, b) && !comes_before(c, b) ==> comes_before(a, c),
{
    lemma_text_lt_irreflexive(a.timestamp);
    lemma_text_lt_asymmetric(a.timestamp, b.timestamp);
    lemma_text_lt_total(a.timestamp, b.timestamp);
    lemma_text_lt_total(b.timestamp, c.timestamp);
    lemma_text_lt_total(a.timestamp, c.timestamp);
    lemma_text_lt_asymmetric(a.timestamp, c.timestamp);
    lemma_text_lt_asymmetric(b.timestamp, c.timestamp);
    if text_lt(a.timestamp, b.timestamp) && text_lt(b.timestamp, c.timestamp) {
        lemma_text_lt_transitive(a.timestamp, b.timestamp, c.timestamp);
    }
    if text_lt(b.timestamp, a.timestamp) && text_lt(c.timestamp, b.timestamp) {
        lemma_text_lt_transitive(c.timestamp, b.timestamp, a.timestamp);
    }
}

/// Whether `a` is shown before `b`.
pub fn precedes(a: &Message, b: &Message) -> (r: bool)
    ensures
        r == comes_before(a.deep_view(), b.deep_view()),
{
    match compare_texts(a.timestamp.as_str(), b.timestamp.as_str()) {
        TextOrder::Less => true,
        TextOrder::Equal => a.id < b.id,
        TextOrder::Greater => {
            proof {
                lemma_text_lt_asymmetric(a.timestamp@, b.timestamp@);
            }
            false
        },
    }
}

proof fn lemma_insertion_keeps_order(s: Seq<MessageView>, i: int, j: int)
    requires
        0 <= j <= i < s.len(),
        in_time_order(s.take(i)),
        forall|k: int| j <= k < i ==> comes_before(s[i], #[trigger] s[k]),
        j > 0 ==> !comes_before(s[i], s[j - 1]),
    ensures
        in_time_order(s.remove(i).insert(j, s[i]).take(i + 1)),
{
    let x = s[i];
    let t = s.remove(i).insert(j, x).take(i + 1);
    let p = s.take(i);
    assert forall|a: int, b: int| 0 <= a < b < t.len() implies !comes_before(
        #[trigger] t[b],
        #[trigger] t[a],
    ) by {
        if b < j {
            assert(t[a] == p[a] && t[b] == p[b]);
        } else if b == j {
            assert(t[b] == x);
            assert(t[a] == p[a]);
            lemma_comes_before(x, s[j - 1], s[a]);
            if a < j - 1 {
                assert(!comes_before(p[j - 1], p[a]));
            }
        } else if a < j {
            assert(t[a] == p[a] && t[b] == p[b - 1]);
        } else if a == j {
            assert(t[a] == x && t[b] == s[b - 1]);
            lemma_comes_before(x, s[b - 1], x);
        } else {
            assert(t[a] == p[a - 1] && t[b] == p[b - 1]);
        }
    }
}

/// Two messages that the time order does not tell apart: the same time stamp and the same id.
pub open spec fn sorts_alike(a: MessageView, b: MessageView) -> bool {
    a.timestamp == b.timestamp && a.id == b.id
}

/// `p` gives, for each position of `t`, the position in `s` that its message came from: every
/// position of `s` once, and messages that sort alike in the order they had in `s`.
pub open spec fn stable_arrangement(t: Seq<MessageView>, s: Seq<MessageView>, p: Seq<int>) -> bool {
    &&& t.len() == s.len()
    &&& p.len() == t.len()
    &&& forall|k: int| 0 <= k < t.len() ==> 0 <= #[trigger] p[k] < s.len() && t[k] == s[p[k]]
    &&& forall|k: int, l: int| 0 <= k < l < t.len() ==> #[trigger] p[k] != #[trigger] p[l]
    &&& forall|k: int, l: int|
        0 <= k < l < t.len() && sorts_alike(#[trigger] t[k], #[trigger] t[l]) ==> p[k] < p[l]
}

/// No two messages of `s` have the same id.
pub open spec fn ids_distinct(s: Seq<MessageView>) -> bool {
    forall|i: int, j: int| 0 <= i < j < s.len() ==> (#[trigger] s[i]).id != (#[trigger] s[j]).id
}

/// A rearrangement keeps the ids apart.
pub proof fn lemma_rearranged_ids_distinct(t: Seq<MessageView>, s: Seq<MessageView>)
    requires
        stably_rearranged(t, s),
        ids_distinct(s),
    ensures
        ids_distinct(t),
{
    let p = choose|p: Seq<int>| stable_arrangement(t, s, p);
    assert forall|i: int, j: int| 0 <= i < j < t.len() implies (#[trigger] t[i]).id != (
    #[trigger] t[j]).id by {
        assert(p[i] != p[j]);
        assert(t[i] == s[p[i]] && t[j] == s[p[j]]);
        if p[i] < p[j] {
            assert(s[p[i]].id != s[p[j]].id);
        } else {
            assert(s[p[j]].id != s[p[i]].id);
        }
    }
}

/// `t` holds the messages of `s`, with messages that sort alike in the order they had in `s`.
pub open spec fn stably_rearranged(t: Seq<MessageView>, s: Seq<MessageView>) -> bool {
    exists|p: Seq<int>| stable_arrangement(t, s, p)
}

/// The arrangement kept by the sort below: the first `i` places are sorted among themselves
/// and the others are untouched.
spec fn sort_progress(t: Seq<MessageView>, s: Seq<MessageView>, p: Seq<int>, i: int) -> bool {
    &&& 0 <= i <= t.len()
    &&& t.len() == s.len()
    &&& p.len() == t.len()
    &&& forall|k: int| 0 <= k < t.len() ==> 0 <= #[trigger] p[k] < s.len() && t[k] == s[p[k]]
    &&& forall|k: int, l: int| 0 <= k < l < t.len() ==> #[trigger] p[k] != #[trigger] p[l]
    &&& forall|k: int| i <= k < t.len() ==> #[trigger] p[k] == k
    &&& forall|k: int| 0 <= k < i ==> #[trigger] p[k] < i
    &&& forall|k: int, l: int|
        0 <= k < l < i && sorts_alike(#[trigger] t[k], #[trigger] t[l]) ==> p[k] < p[l]
}

proof fn lemma_insertion_keeps_arrangement(t: Seq<MessageView>, s: Seq<MessageView>, p: Seq<int>, i: int, j: int)
    requires
        0 <= j <= i < t.len(),
        sort_progress(t, s, p, i),
        forall|k: int| j <= k < i ==> comes_before(t[i], #[trigger] t[k]),
    ensures
        sort_progress(t.remove(i).insert(j, t[i]), s, p.remove(i).insert(j, i), i + 1),
{
    let x = t[i];
    let t2 = t.remove(i).insert(j, x);
    let p2 = p.remove(i).insert(j, i);
    assert(p[i] == i);
    assert forall|k: int| 0 <= k < t2.len() implies 0 <= #[trigger] p2[k] < s.len() && t2[k] == s[p2[k]] by {
        if k < j {
            assert(p2[k] == p[k] && t2[k] == t[k]);
        } else if k == j {
        } else if k <= i {
            assert(p2[k] == p[k - 1] && t2[k] == t[k - 1]);
        } else {
            assert(p2[k] == p[k] && t2[k] == t[k]);
        }
    }
    assert forall|k: int, l: int| 0 <= k < l < t2.len() implies #[trigger] p2[k] != #[trigger] p2[l] by {
        let a = if k < j { k } else if k == j { i } else if k <= i { k - 1 } else { k };
        let b = if l < j { l } else if l == j { i } else if l <= i { l - 1 } else { l };
        assert(p2[k] == p[a] && p2[l] == p[b]);
        assert(a != b);
        if a < b {
            assert(p[a] != p[b]);
        } else {
            assert(p[b] != p[a]);
        }
    }
    assert forall|k: int| i + 1 <= k < t2.len() implies #[trigger] p2[k] == k by {
        assert(p2[k] == p[k]);
    }
    assert forall|k: int| 0 <= k < i + 1 implies #[trigger] p2[k] < i + 1 by {
        if k < j {
            assert(p2[k] == p[k]);
        } else if j < k {
            assert(p2[k] == p[k - 1]);
        }
    }
    assert forall|k: int, l: int|
        0 <= k < l < i + 1 && sorts_alike(#[trigger] t2[k], #[trigger] t2[l]) implies p2[k] < p2[l] by {
        if l < j {
            assert(t2[k] == t[k] && t2[l] == t[l] && p2[k] == p[k] && p2[l] == p[l]);
        } else if l == j {
            assert(t2[k] == t[k] && p2[k] == p[k]);
        } else if k == j {
            assert(t2[l] == t[l - 1]);
            assert(comes_before(x, t[l - 1]));
            lemma_text_lt_irreflexive(x.timestamp);
        } else if k < j {
            assert(t2[k] == t[k] && t2[l] == t[l - 1] && p2[k] == p[k] && p2[l] == p[l - 1]);
        } else {
            assert(t2[k] == t[k - 1] && t2[l] == t[l - 1] && p2[k] == p[k - 1] && p2[l] == p[l - 1]);
        }
    }
}

/// Puts the messages in time order, keeping messages with the same time stamp and id in the
/// order they had.
pub fn sort_messages(v: &mut Vec<Message>)
    ensures
        in_time_order(final(v).deep_view()),
        stably_rearranged(final(v).deep_view(), old(v).deep_view()),
        final(v).deep_view().to_multiset() == old(v).deep_view().to_multiset(),
        final(v)@.len() == old(v)@.len(),
{
    let ghost start = v.deep_view();
    let ghost mut perm: Seq<int> = Seq::new(start.len(), |k: int| k);
    let mut i: usize = 0;
    while i < v.len()
        invariant
            i <= v@.len(),
            v@.len() == start.len(),
            v.deep_view().len() == v@.len(),
            in_time_order(v.deep_view().take(i as int)),
            v.deep_view().to_multiset() == start.to_multiset(),
            sort_progress(v.deep_view(), start, perm, i as int),
        decreases v.len() - i,
    {
        let ghost s = v.deep_view();
        let mut j: usize = i;
        while j > 0 && precedes(&v[i], &v[j - 1])
            invariant
                j <= i < v@.len(),
                s == v.deep_view(),
                s.len() == v@.len(),
                forall|k: int| j <= k < i ==> comes_before(s[i as int], #[trigger] s[k]),
            decreases j,
        {
            j = j - 1;
        }
        proof {
            lemma_insertion_keeps_order(s, i as int, j as int);
            lemma_insertion_keeps_arrangement(s, start, perm, i as int, j as int);
            perm = perm.remove(i as int).insert(j as int, i as int);
        }
        let x = v.remove(i);
        v.insert(j, x);
        proof {
            assert(v.deep_view() =~= s.remove(i as int).insert(j as int, s[i as int]));
            vstd::seq_lib::to_multiset_remove(s, i as int);
            vstd::seq_lib::to_multiset_insert(s.remove(i as int), j as int, s[i as int]);
            assert(s.to_multiset().remove(s[i as int]).insert(s[i as int]) =~= s.to_multiset());
        }
        i = i + 1;
    }
    assert(v.deep_view().take(v@.len() as int) =~= v.deep_view());
    assert(stable_arrangement(v.deep_view(), start, perm));
}

// ---------------------------------------------------------------------------------------
// Finding and changing one message
// ---------------------------------------------------------------------------------------

/// Some message in `s` has the id `id`.
pub open spec fn has_id(s: Seq<MessageView>, id: i64) -> bool {
    exists|k: int| 0 <= k < s.len() && (#[trigger] s[k]).id == id
}

/// `i` is the first position of a message with the id `id`.
pub open spec fn first_with_id(s: Seq<MessageView>, id: i64, i: int) -> bool {
    &&& 0 <= i < s.len()
    &&& s[i].id == id
    &&& forall|k: int| 0 <= k < i ==> (#[trigger] s[k]).id != id
}

/// Where the first message with the id `id` stands.
pub open spec fn index_of_id(s: Seq<MessageView>, id: i64) -> int {
    choose|i: int| first_with_id(s, id, i)
}

pub proof fn lemma_index_of_id(s: Seq<MessageView>, id: i64, i: int)
    requires
        first_with_id(s, id, i),
    ensures
        index_of_id(s, id) == i,
        has_id(s, id),
{
    let j = index_of_id(s, id);
    assert(first_with_id(s, id, j));
    if j < i {
        assert(s[j].id != id);
    } else if i < j {
        assert(s[i].id != id);
    }
}

/// A message with the id `id` makes a first one.
pub proof fn lemma_first_with_id_exists(s: Seq<MessageView>, id: i64)
    requires
        has_id(s, id),
    ensures
        first_with_id(s, id, index_of_id(s, id)),
    decreases s.len(),
{
    if s[0].id == id {
        lemma_index_of_id(s, id, 0);
    } else {
        let t = s.drop_first();
        let k = choose|k: int| 0 <= k < s.len() && (#[trigger] s[k]).id == id;
        assert(t[k - 1] == s[k]);
        lemma_first_with_id_exists(t, id);
        let j = index_of_id(t, id);
        assert forall|m: int| 0 <= m < j + 1 implies (#[trigger] s[m]).id != id by {
            if m > 0 {
                assert(s[m] == t[m - 1]);
            }
        }
        lemma_index_of_id(s, id, j + 1);
    }
}

/// The position of the first message with the id `id`, if there is one.
pub fn find_id(v: &Vec<Message>, id: i64) -> (r: Option<usize>)
    ensures
        match r {
            Some(i) => first_with_id(v.deep_view(), id, i as int) && index_of_id(v.deep_view(), id)
                == i,
            None => !has_id(v.deep_view(), id),
        },
{
    let ghost s = v.deep_view();
    let mut i: usize = 0;
    while i < v.len()
        invariant
            i <= v@.len(),
            s == v.deep_view(),
            s.len() == v@.len(),
            forall|k: int| 0 <= k < i ==> (#[trigger] s[k]).id != id,
        decreases v.len() - i,
    {
        if v[i].id == id {
            assert(s[i as int].id == id);
            proof {
                lemma_index_of_id(s, id, i as int);
            }
            return Some(i);
        }
        assert(s[i as int].id != id);
        i = i + 1;
    }
    None
}

/// Whether a message with the id `id` is in the list.
pub fn contains_id(v: &Vec<Message>, id: i64) -> (r: bool)
    ensures
        r == has_id(v.deep_view(), id),
{
    match find_id(v, id) {
        Some(i) => true,
        None => false,
    }
}

/// The list with the first message of `m`'s id replaced by `m`.
pub open spec fn replaced(s: Seq<MessageView>, m: MessageView) -> Seq<MessageView> {
    if has_id(s, m.id) {
        s.update(index_of_id(s, m.id), m)
    } else {
        s
    }
}

/// Replaces the message that has `updated`'s id by `updated`.
pub fn replace_message(messages: &mut Vec<Message>, updated: Message)
    ensures
        final(messages).deep_view() == replaced(old(messages).deep_view(), updated.deep_view()),
{
    let ghost s = messages.deep_view();
    let ghost m = updated.deep_view();
    match find_id(messages, updated.id) {
        Some(i) => {
            messages.set(i, updated);
            assert(messages.deep_view() =~= s.update(i as int, m));
        },
        None => {},
    }
}

/// The message carries the file `file_id`.
pub open spec fn carries_file(m: MessageView, file_id: i64) -> bool {
    m.attachment matches Some(a) && a.id == file_id
}

/// `i` is the first position of a message that carries the file `file_id`.
pub open spec fn first_with_file(s: Seq<MessageView>, file_id: i64, i: int) -> bool {
    &&& 0 <= i < s.len()
    &&& carries_file(s[i], file_id)
    &&& forall|k: int| 0 <= k < i ==> !carries_file(#[trigger] s[k], file_id)
}

pub open spec fn has_file(s: Seq<MessageView>, file_id: i64) -> bool {
    exists|k: int| 0 <= k < s.len() && carries_file(#[trigger] s[k], file_id)
}

pub open spec fn index_of_file(s: Seq<MessageView>, file_id: i64) -> int {
    choose|i: int| first_with_file(s, file_id, i)
}

proof fn lemma_index_of_file(s: Seq<MessageView>, file_id: i64, i: int)
    requires
        first_with_file(s, file_id, i),
    ensures
        index_of_file(s, file_id) == i,
        has_file(s, file_id),
{
    let j = index_of_file(s, file_id);
    assert(first_with_file(s, file_id, j));
    if j < i {
        assert(!carries_file(s[j], file_id));
    } else if i < j {
        assert(!carries_file(s[i], file_id));
    }
}

/// An attachment with a new transfer status, and the path it is saved to when one is given.
pub open spec fn with_status(a: AttachmentView, status: Seq<char>, path: Option<Seq<char>>) -> AttachmentView {
    AttachmentView {
        status,
        path: if path is Some {
            path
        } else {
            a.path
        },
        ..a
    }
}

/// The list after the transfer of file `file_id` changed status: only the first message that
/// carries the file changes.
pub open spec fn status_updated(
    s: Seq<MessageView>,
    file_id: i64,
    status: Seq<char>,
    path: Option<Seq<char>>,
) -> Seq<MessageView> {
    if has_file(s, file_id) {
        let i = index_of_file(s, file_id);
        s.update(
            i,
            MessageView { attachment: Some(with_status(s[i].attachment->0, status, path)), ..s[i] },
        )
    } else {
        s
    }
}

fn opt_str_view(p: Option<&str>) -> (r: Option<String>)
    ensures
        opt_text_view(r) == match p {
            Some(t) => Some(t@),
            None => None::<Seq<char>>,
        },
{
    match p {
        Some(t) => Some(t.to_owned()),
        None => None,
    }
}

/// Records a new transfer status (and, when given, the saved path) for file `file_id`.
pub fn update_attachment_status(
    messages: &mut Vec<Message>,
    file_id: i64,
    status: &str,
    path: Option<&str>,
)
    ensures
        final(messages).deep_view() == status_updated(
            old(messages).deep_view(),
            file_id,
            status@,
            match path {
                Some(t) => Some(t@),
                None => None,
            },
        ),
{
    let ghost s = messages.deep_view();
    let ghost pv = match path {
        Some(t) => Some(t@),
        None => None::<Seq<char>>,
    };
    let mut i: usize = 0;
    while i < messages.len()
        invariant
            i <= messages@.len(),
            s == messages.deep_view(),
            s.len() == messages@.len(),
            forall|k: int| 0 <= k < i ==> !carries_file(#[trigger] s[k], file_id),
            s == old(messages).deep_view(),
            pv == match path {
                Some(t) => Some(t@),
                None => None::<Seq<char>>,
            },
        decreases messages.len() - i,
    {
        let found = match &messages[i].attachment {
            Some(a) => a.id == file_id,
            None => false,
        };
        if found {
            proof {
                lemma_index_of_file(s, file_id, i as int);
            }
            let mut m = messages.remove(i);
            let a = m.attachment.take();
            match a {
                Some(a) => {
                    let new_path = match opt_str_view(path) {
                        Some(p) => Some(p),
                        None => a.path,
                    };
                    m.attachment = Some(
                        Attachment {
                            id: a.id,
                            name: a.name,
                            size: a.size,
                            kind: a.kind,
                            status: status.to_owned(),
                            progress: a.progress,
                            path: new_path,
                        },
                    );
                },
                None => {},
            }
            let ghost mv = m.deep_view();
            assert(mv == MessageView {
                attachment: Some(with_status(s[i as int].attachment->0, status@, pv)),
                ..s[i as int]
            });
            messages.insert(i, m);
            assert(messages.deep_view() =~= s.update(i as int, mv));
            return ;
        }
        assert(!carries_file(s[i as int], file_id));
        i = i + 1;
    }
}

// ---------------------------------------------------------------------------------------
// Reactions
// ---------------------------------------------------------------------------------------

pub open spec fn count_up(c: u64) -> u64 {
    if c == u64::MAX {
        c
    } else {
        (c + 1) as u64
    }
}

pub open spec fn count_down(c: u64) -> u64 {
    if c == 0 {
        0
    } else {
        (c - 1) as u64
    }
}

/// `i` is the first position of a reaction with `emoji`.
pub open spec fn first_with_emoji(rs: Seq<ReactionView>, emoji: Seq<char>, i: int) -> bool {
    &&& 0 <= i < rs.len()
    &&& rs[i].emoji == emoji
    &&& forall|k: int| 0 <= k < i ==> (#[trigger] rs[k]).emoji != emoji
}

pub open spec fn has_emoji(rs: Seq<ReactionView>, emoji: Seq<char>) -> bool {
    exists|k: int| 0 <= k < rs.len() && (#[trigger] rs[k]).emoji == emoji
}

pub open spec fn index_of_emoji(rs: Seq<ReactionView>, emoji: Seq<char>) -> int {
    choose|i: int| first_with_emoji(rs, emoji, i)
}

proof fn lemma_index_of_emoji(rs: Seq<ReactionView>, emoji: Seq<char>, i: int)
    requires
        first_with_emoji(rs, emoji, i),
    ensures
        index_of_emoji(rs, emoji) == i,
        has_emoji(rs, emoji),
{
    let j = index_of_emoji(rs, emoji);
    assert(first_with_emoji(rs, emoji, j));
    if j < i {
        assert(rs[j].emoji != emoji);
    } else if i < j {
        assert(rs[i].emoji != emoji);
    }
}

/// The reactions after one user added (`added`) or took back a reaction with `emoji`; `by_user`
/// says whether that user is the local one. A reaction that nobody keeps is dropped.
pub open spec fn reacted(rs: Seq<ReactionView>, emoji: Seq<char>, added: bool, by_user: bool) -> Seq<
    ReactionView,
> {
    let changed = if has_emoji(rs, emoji) {
        let i = index_of_emoji(rs, emoji);
        let r = rs[i];
        rs.update(
            i,
            ReactionView {
                emoji: r.emoji,
                count: if added {
                    count_up(r.count)
                } else {
                    count_down(r.count)
                },
                user_reacted: if by_user {
                    added
                } else {
                    r.user_reacted
                },
            },
        )
    } else if added {
        rs.push(ReactionView { emoji, count: 1, user_reacted: by_user })
    } else {
        rs
    };
    still_used(changed)
}

/// The reactions that someone still keeps, in their order.
pub open spec fn still_used(rs: Seq<ReactionView>) -> Seq<ReactionView>
    decreases rs.len(),
{
    if rs.len() == 0 {
        rs
    } else {
        let kept = still_used(rs.drop_last());
        if rs.last().count > 0 {
            kept.push(rs.last())
        } else {
            kept
        }
    }
}

fn drop_unused(rs: Vec<MessageReaction>) -> (r: Vec<MessageReaction>)
    ensures
        r.deep_view() == still_used(rs.deep_view()),
{
    let ghost all = rs.deep_view();
    let mut out: Vec<MessageReaction> = Vec::new();
    let mut rest = rs;
    let mut i: usize = 0;
    let n = rest.len();
    assert(out.deep_view() =~= still_used(all.take(0)));
    while i < n
        invariant
            i <= n,
            n == all.len(),
            rest.deep_view() == all,
            rest@.len() == n,
            out.deep_view() == still_used(all.take(i as int)),
        decreases n - i,
    {
        let ghost before = out.deep_view();
        assert(all.take(i + 1).drop_last() =~= all.take(i as int));
        assert(all.take(i + 1).last() == all[i as int]);
        if rest[i].count > 0 {
            let c = MessageReaction {
                emoji: rest[i].emoji.clone(),
                count: rest[i].count,
                user_reacted: rest[i].user_reacted,
            };
            out.push(c);
            assert(out.deep_view() =~= before.push(c.deep_view()));
        }
        i = i + 1;
    }
    assert(all.take(n as int) =~= all);
    out
}

fn find_emoji(rs: &Vec<MessageReaction>, emoji: &str) -> (r: Option<usize>)
    ensures
        match r {
            Some(i) => first_with_emoji(rs.deep_view(), emoji@, i as int) && index_of_emoji(
                rs.deep_view(),
                emoji@,
            ) == i,
            None => !has_emoji(rs.deep_view(), emoji@),
        },
{
    let ghost s = rs.deep_view();
    let mut i: usize = 0;
    while i < rs.len()
        invariant
            i <= rs@.len(),
            s == rs.deep_view(),
            s.len() == rs@.len(),
            forall|k: int| 0 <= k < i ==> (#[trigger] s[k]).emoji != emoji@,
        decreases rs.len() - i,
    {
        if crate::json::text_eq(rs[i].emoji.as_str(), emoji) {
            proof {
                lemma_index_of_emoji(s, emoji@, i as int);
            }
            return Some(i);
        }
        i = i + 1;
    }
    None
}

/// The reactions of one message after a reaction change.
pub fn apply_reaction(rs: Vec<MessageReaction>, emoji: &str, added: bool, by_user: bool) -> (r: Vec<
    MessageReaction,
>)
    ensures
        r.deep_view() == reacted(rs.deep_view(), emoji@, added, by_user),
{
    let ghost s = rs.deep_view();
    let mut rs = rs;
    match find_emoji(&rs, emoji) {
        Some(i) => {
            let old_r = rs.remove(i);
            let count = if added {
                if old_r.count == u64::MAX {
                    old_r.count
                } else {
                    old_r.count + 1
                }
            } else {
                if old_r.count == 0 {
                    0
                } else {
                    old_r.count - 1
                }
            };
            let user_reacted = if by_user {
                added
            } else {
                old_r.user_reacted
            };
            let nr = MessageReaction { emoji: old_r.emoji, count, user_reacted };
            let ghost nv = nr.deep_view();
            rs.insert(i, nr);
            assert(rs.deep_view() =~= s.update(i as int, nv));
        },
        None => {
            if added {
                let nr = MessageReaction { emoji: emoji.to_owned(), count: 1, user_reacted: by_user };
                let ghost nv = nr.deep_view();
                rs.push(nr);
                assert(rs.deep_view() =~= s.push(nv));
            }
        },
    }
    drop_unused(rs)
}

/// The list after a reaction change on message `item_id`: only the first message with that id
/// changes.
pub open spec fn reaction_applied(
    s: Seq<MessageView>,
    item_id: i64,
    emoji: Seq<char>,
    added: bool,
    by_user: bool,
) -> Seq<MessageView> {
    if has_id(s, item_id) {
        let i = index_of_id(s, item_id);
        s.update(i, MessageView { reactions: reacted(s[i].reactions, emoji, added, by_user), ..s[i] })
    } else {
        s
    }
}

/// Applies a reaction change to message `item_id`.
pub fn update_message_reaction(
    messages: &mut Vec<Message>,
    item_id: i64,
    emoji: &str,
    added: bool,
    reacted_by_user: bool,
)
    ensures
        final(messages).deep_view() == reaction_applied(
            old(messages).deep_view(),
            item_id,
            emoji@,
            added,
            reacted_by_user,
        ),
{
    let ghost s = messages.deep_view();
    match find_id(messages, item_id) {
        Some(i) => {
            let mut m = messages.remove(i);
            let mut rs: Vec<MessageReaction> = Vec::new();
            std::mem::swap(&mut rs, &mut m.reactions);
            m.reactions = apply_reaction(rs, emoji, added, reacted_by_user);
            let ghost mv = m.deep_view();
            messages.insert(i, m);
            assert(messages.deep_view() =~= s.update(i as int, mv));
        },
        None => {},
    }
}

// ---------------------------------------------------------------------------------------
// Adding messages
// ---------------------------------------------------------------------------------------

/// `ms` followed by those of `cached` whose id is not yet among them, in their order.
pub open spec fn merged(ms: Seq<MessageView>, cached: Seq<MessageView>) -> Seq<MessageView>
    decreases cached.len(),
{
    if cached.len() == 0 {
        ms
    } else {
        let acc = merged(ms, cached.drop_last());
        if has_id(acc, cached.last().id) {
            acc
        } else {
            acc.push(cached.last())
        }
    }
}

/// The messages of `cached`, in order, whose id no message of `ms` has.
pub open spec fn lacking(cached: Seq<MessageView>, ms: Seq<MessageView>) -> Seq<MessageView> {
    cached.filter(|x: MessageView| !has_id(ms, x.id))
}

/// When the cached messages have distinct ids, merging adds exactly those whose id the loaded
/// messages lack, in their cached order.
pub proof fn lemma_merged_adds_lacking(ms: Seq<MessageView>, cached: Seq<MessageView>)
    requires
        ids_distinct(cached),
    ensures
        merged(ms, cached) == ms + lacking(cached, ms),
    decreases cached.len(),
{
    reveal(Seq::filter);
    let pred = |x: MessageView| !has_id(ms, x.id);
    if cached.len() == 0 {
        assert(lacking(cached, ms) =~= Seq::<MessageView>::empty());
        assert(ms + lacking(cached, ms) =~= ms);
    } else {
        let d = cached.drop_last();
        let last = cached.last();
        assert forall|i: int, j: int| 0 <= i < j < d.len() implies (#[trigger] d[i]).id != (
        #[trigger] d[j]).id by {
            assert(d[i] == cached[i] && d[j] == cached[j]);
        }
        lemma_merged_adds_lacking(ms, d);
        let fd = d.filter(pred);
        assert(lacking(d, ms) == fd);
        let acc = merged(ms, d);
        assert(acc == ms + fd);
        if has_id(acc, last.id) && !has_id(ms, last.id) {
            let k = choose|k: int| 0 <= k < acc.len() && (#[trigger] acc[k]).id == last.id;
            assert(k >= ms.len());
            let y = fd[k - ms.len()];
            assert(acc[k] == y);
            assert(fd.contains(y));
            d.lemma_filter_contains_rev(pred, y);
            let j = choose|j: int| 0 <= j < d.len() && d[j] == y;
            assert(cached[j] == y && cached[cached.len() - 1] == last);
            assert(false);
        }
        if has_id(ms, last.id) {
            let k = choose|k: int| 0 <= k < ms.len() && (#[trigger] ms[k]).id == last.id;
            assert(acc[k] == ms[k]);
            assert(has_id(acc, last.id));
            assert(lacking(cached, ms) == fd);
        } else {
            assert(lacking(cached, ms) == fd.push(last));
            assert(acc.push(last) =~= ms + fd.push(last));
        }
    }
}

/// Adds to `messages` the cached messages that it lacks.
pub fn merge_cached(messages: &mut Vec<Message>, cached: &Vec<Message>)
    ensures
        final(messages).deep_view() == merged(old(messages).deep_view(), cached.deep_view()),
{
    let ghost start = messages.deep_view();
    let ghost cs = cached.deep_view();
    let mut i: usize = 0;
    assert(cs.take(0) =~= Seq::<MessageView>::empty());
    while i < cached.len()
        invariant
            i <= cached@.len(),
            cs == cached.deep_view(),
            cs.len() == cached@.len(),
            messages.deep_view() == merged(start, cs.take(i as int)),
        decreases cached.len() - i,
    {
        assert(cs.take(i + 1).drop_last() =~= cs.take(i as int));
        assert(cs.take(i + 1).last() == cs[i as int]);
        if !contains_id(messages, cached[i].id) {
            let c = copy_message(&cached[i]);
            let ghost before = messages.deep_view();
            messages.push(c);
            assert(messages.deep_view() =~= before.push(c.deep_view()));
        }
        i = i + 1;
    }
    assert(cs.take(cached@.len() as int) =~= cs);
}

/// Adds `message` to a conversation's list unless a message with its id is there, and keeps the
/// list in time order.
pub fn insert_message(list: &mut Vec<Message>, message: Message)
    ensures
        has_id(old(list).deep_view(), message.id) ==> final(list).deep_view() == old(
            list,
        ).deep_view(),
        !has_id(old(list).deep_view(), message.id) ==> {
            &&& final(list).deep_view().to_multiset() == old(list).deep_view().to_multiset().insert(
                message.deep_view(),
            )
            &&& in_time_order(final(list).deep_view())
            &&& stably_rearranged(final(list).deep_view(), old(list).deep_view().push(message.deep_view()))
            &&& final(list)@.len() == old(list)@.len() + 1
        },
{
    if !contains_id(list, message.id) {
        let ghost before = list.deep_view();
        let ghost mv = message.deep_view();
        list.push(message);
        assert(list.deep_view() =~= before.push(mv));
        sort_messages(list);
        proof {
            vstd::seq_lib::to_multiset_build(before, mv);
        }
    }
}

// ---------------------------------------------------------------------------------------
// Laws
// ---------------------------------------------------------------------------------------

proof fn lemma_still_used_positive(rs: Seq<ReactionView>)
    ensures
        forall|i: int| 0 <= i < still_used(rs).len() ==> (#[trigger] still_used(rs)[i]).count > 0,
    decreases rs.len(),
{
    if rs.len() > 0 {
        lemma_still_used_positive(rs.drop_last());
        let kept = still_used(rs.drop_last());
        assert forall|i: int| 0 <= i < still_used(rs).len() implies (#[trigger] still_used(
            rs,
        )[i]).count > 0 by {
            if i < kept.len() {
                assert(still_used(rs)[i] == kept[i]);
            }
        }
    }
}

proof fn lemma_still_used_keeps(rs: Seq<ReactionView>)
    requires
        forall|i: int| 0 <= i < rs.len() ==> (#[trigger] rs[i]).count > 0,
    ensures
        still_used(rs) == rs,
    decreases rs.len(),
{
    if rs.len() > 0 {
        lemma_still_used_keeps(rs.drop_last());
        assert(rs.drop_last().push(rs.last()) =~= rs);
    }
}

/// After any reaction change, every reaction that a message lists is kept by someone.
pub proof fn lemma_reactions_stay_used(rs: Seq<ReactionView>, emoji: Seq<char>, added: bool, by_user: bool)
    ensures
        forall|i: int|
            0 <= i < reacted(rs, emoji, added, by_user).len() ==> (#[trigger] reacted(
                rs,
                emoji,
                added,
                by_user,
            )[i]).count > 0,
{
    let changed = if has_emoji(rs, emoji) {
        let i = index_of_emoji(rs, emoji);
        let r = rs[i];
        rs.update(
            i,
            ReactionView {
                emoji: r.emoji,
                count: if added {
                    count_up(r.count)
                } else {
                    count_down(r.count)
                },
                user_reacted: if by_user {
                    added
                } else {
                    r.user_reacted
                },
            },
        )
    } else if added {
        rs.push(ReactionView { emoji, count: 1, user_reacted: by_user })
    } else {
        rs
    };
    lemma_still_used_positive(changed);
}

/// The local user reacting with a new emoji and taking the reaction back leaves the reactions as
/// they were.
pub proof fn lemma_reaction_undone(rs: Seq<ReactionView>, emoji: Seq<char>)
    requires
        !has_emoji(rs, emoji),
        forall|i: int| 0 <= i < rs.len() ==> (#[trigger] rs[i]).count > 0,
    ensures
        reacted(reacted(rs, emoji, true, true), emoji, false, true) == rs,
{
    let x = ReactionView { emoji, count: 1, user_reacted: true };
    let added = rs.push(x);
    assert forall|i: int| 0 <= i < added.len() implies (#[trigger] added[i]).count > 0 by {
        if i < rs.len() {
            assert(added[i] == rs[i]);
        }
    }
    lemma_still_used_keeps(added);
    assert(reacted(rs, emoji, true, true) == added);
    let n = rs.len() as int;
    assert forall|k: int| 0 <= k < n implies (#[trigger] added[k]).emoji != emoji by {
        assert(added[k] == rs[k]);
        if rs[k].emoji == emoji {
            assert(has_emoji(rs, emoji));
        }
    }
    assert(first_with_emoji(added, emoji, n));
    lemma_index_of_emoji(added, emoji, n);
    let removed = added.update(n, ReactionView { emoji, count: 0, user_reacted: false });
    assert(removed.drop_last() =~= rs);
    lemma_still_used_keeps(rs);
    assert(still_used(removed) == still_used(removed.drop_last()));
}

/// Merging keeps the first list in front and brings every id of the cached list.
pub proof fn lemma_merged_keeps_all(ms: Seq<MessageView>, cached: Seq<MessageView>)
    ensures
        merged(ms, cached).len() >= ms.len(),
        forall|i: int| 0 <= i < ms.len() ==> #[trigger] merged(ms, cached)[i] == ms[i],
        forall|i: int| 0 <= i < cached.len() ==> has_id(merged(ms, cached), #[trigger] cached[i].id),
    decreases cached.len(),
{
    if cached.len() > 0 {
        let rest = cached.drop_last();
        lemma_merged_keeps_all(ms, rest);
        let acc = merged(ms, rest);
        let out = merged(ms, cached);
        assert forall|i: int| 0 <= i < cached.len() implies has_id(out, #[trigger] cached[i].id) by {
            if i < cached.len() - 1 {
                assert(cached[i] == rest[i]);
                assert(has_id(acc, rest[i].id));
                if !has_id(acc, cached.last().id) {
                    let k = choose|k: int| 0 <= k < acc.len() && (#[trigger] acc[k]).id == rest[i].id;
                    assert(out[k] == acc[k]);
                }
            } else if !has_id(acc, cached.last().id) {
                assert(out[acc.len() as int] == cached.last());
            }
        }
    }
}

/// A list with the same messages as another has the same ids.
pub proof fn lemma_same_messages_same_ids(a: Seq<MessageView>, b: Seq<MessageView>, id: i64)
    requires
        a.to_multiset() == b.to_multiset(),
        has_id(a, id),
    ensures
        has_id(b, id),
{
    let k = choose|k: int| 0 <= k < a.len() && (#[trigger] a[k]).id == id;
    assert(a.contains(a[k]));
    vstd::seq_lib::to_multiset_contains(a, a[k]);
    vstd::seq_lib::to_multiset_contains(b, a[k]);
    assert(b.contains(a[k]));
    let j = choose|j: int| 0 <= j < b.len() && b[j] == a[k];
    assert(b[j].id == id);
}

proof fn lemma_first_with_emoji_exists(rs: Seq<ReactionView>, emoji: Seq<char>)
    requires
        has_emoji(rs, emoji),
    ensures
        first_with_emoji(rs, emoji, index_of_emoji(rs, emoji)),
    decreases rs.len(),
{
    if rs[0].emoji == emoji {
        lemma_index_of_emoji(rs, emoji, 0);
    } else {
        let t = rs.drop_first();
        let k = choose|k: int| 0 <= k < rs.len() && (#[trigger] rs[k]).emoji == emoji;
        assert(t[k - 1] == rs[k]);
        lemma_first_with_emoji_exists(t, emoji);
        let j = index_of_emoji(t, emoji);
        assert forall|m: int| 0 <= m < j + 1 implies (#[trigger] rs[m]).emoji != emoji by {
            if m > 0 {
                assert(rs[m] == t[m - 1]);
            }
        }
        lemma_index_of_emoji(rs, emoji, j + 1);
    }
}

proof fn lemma_still_used_comes_from(rs: Seq<ReactionView>)
    ensures
        forall|j: int|
            0 <= j < still_used(rs).len() ==> exists|i: int| 0 <= i < rs.len() && #[trigger] still_used(rs)[j] == rs[i],
    decreases rs.len(),
{
    if rs.len() > 0 {
        let d = rs.drop_last();
        lemma_still_used_comes_from(d);
        let kept = still_used(d);
        assert forall|j: int| 0 <= j < still_used(rs).len() implies exists|i: int|
            0 <= i < rs.len() && #[trigger] still_used(rs)[j] == rs[i] by {
            if j < kept.len() {
                let i = choose|i: int| 0 <= i < d.len() && kept[j] == d[i];
                assert(still_used(rs)[j] == kept[j]);
                assert(rs[i] == d[i]);
            } else {
                assert(still_used(rs)[j] == rs[rs.len() - 1]);
            }
        }
    }
}

/// When another member adds or takes back a reaction, the local user's own marks stay as they
/// were: every reaction listed afterwards whose emoji was listed before carries the mark of a
/// reaction with that emoji listed before, and one whose emoji was not listed before is not
/// marked as the user's.
pub proof fn lemma_others_keep_the_users_marks(rs: Seq<ReactionView>, emoji: Seq<char>, added: bool)
    ensures
        ({
            let t = reacted(rs, emoji, added, false);
            forall|j: int|
                0 <= j < t.len() ==> (if has_emoji(rs, (#[trigger] t[j]).emoji) {
                    exists|i: int|
                        0 <= i < rs.len() && rs[i].emoji == t[j].emoji && rs[i].user_reacted
                            == t[j].user_reacted
                } else {
                    !t[j].user_reacted
                })
        }),
{
    let t = reacted(rs, emoji, added, false);
    let changed = if has_emoji(rs, emoji) {
        let i = index_of_emoji(rs, emoji);
        let r = rs[i];
        rs.update(
            i,
            ReactionView {
                emoji: r.emoji,
                count: if added {
                    count_up(r.count)
                } else {
                    count_down(r.count)
                },
                user_reacted: r.user_reacted,
            },
        )
    } else if added {
        rs.push(ReactionView { emoji, count: 1, user_reacted: false })
    } else {
        rs
    };
    assert(t == still_used(changed));
    lemma_still_used_comes_from(changed);
    if has_emoji(rs, emoji) {
        lemma_first_with_emoji_exists(rs, emoji);
    }
    assert forall|j: int| 0 <= j < t.len() implies (if has_emoji(rs, (#[trigger] t[j]).emoji) {
        exists|i: int| 0 <= i < rs.len() && rs[i].emoji == t[j].emoji && rs[i].user_reacted == t[j].user_reacted
    } else {
        !t[j].user_reacted
    }) by {
        let k = choose|k: int| 0 <= k < changed.len() && t[j] == changed[k];
        if k < rs.len() {
            assert(rs[k].emoji == t[j].emoji && rs[k].user_reacted == t[j].user_reacted);
            assert(has_emoji(rs, t[j].emoji));
        } else {
            assert(t[j].emoji == emoji && !t[j].user_reacted);
        }
    }
}

} // verus!
