use vstd::prelude::*;

verus! {

/// A JSON document as the SimpleX core reports it.
///
/// Integers keep their exact value; a number with a fraction or an exponent keeps the text
/// by which `serde_json` writes it, because nothing in this library computes with one.
/// Object members stand in the order in which the reader handed them over; the reader in
/// `codec` gives them sorted by key, with only the last of repeated keys.
pub enum Json {
    Null,
    Bool(bool),
    Int(i128),
    Float(String),
    Str(String),
    Array(Vec<Json>),
    Object(Vec<(String, Json)>),
}

/// The mathematical value of a JSON document.
pub enum JsonView {
    Null,
    Bool(bool),
    Int(int),
    Float(Seq<char>),
    Str(Seq<char>),
    Array(Seq<JsonView>),
    Object(Seq<(Seq<char>, JsonView)>),
}

pub open spec fn json_view(j: Json) -> JsonView
    decreases j,
{
    match j {
        Json::Null => JsonView::Null,
        Json::Bool(b) => JsonView::Bool(b),
        Json::Int(n) => JsonView::Int(n as int),
        Json::Float(t) => JsonView::Float(t@),
        Json::Str(s) => JsonView::Str(s@),
        Json::Array(items) => JsonView::Array(
            Seq::new(
                items@.len(),
                |i: int|
                    if 0 <= i < items@.len() {
                        json_view(items@[i])
                    } else {
                        JsonView::Null
                    },
            ),
        ),
        Json::Object(members) => JsonView::Object(
            Seq::new(
                members@.len(),
                |i: int|
                    if 0 <= i < members@.len() {
                        (members@[i].0@, json_view(members@[i].1))
                    } else {
                        (Seq::empty(), JsonView::Null)
                    },
            ),
        ),
    }
}

impl DeepView for Json {
    type V = JsonView;

    open spec fn deep_view(&self) -> JsonView {
        json_view(*self)
    }
}

/// The value stored under `key` among object members: that of the first member with that key.
pub open spec fn member_value(members: Seq<(Seq<char>, JsonView)>, key: Seq<char>) -> Option<
    JsonView,
>
    decreases members.len(),
{
    if members.len() == 0 {
        None
    } else if members[0].0 == key {
        Some(members[0].1)
    } else {
        member_value(members.drop_first(), key)
    }
}

/// `v[key]` when `v` is an object that has `key`.
pub open spec fn get_key(v: JsonView, key: Seq<char>) -> Option<JsonView> {
    match v {
        JsonView::Object(members) => member_value(members, key),
        _ => None,
    }
}

/// `get_key` on an optional value.
pub open spec fn field(v: Option<JsonView>, key: Seq<char>) -> Option<JsonView> {
    match v {
        Some(v) => get_key(v, key),
        None => None,
    }
}

/// The text of a JSON string.
pub open spec fn str_of(v: Option<JsonView>) -> Option<Seq<char>> {
    match v {
        Some(JsonView::Str(s)) => Some(s),
        _ => None,
    }
}

/// A JSON integer that fits in an `i64`.
pub open spec fn i64_of(v: Option<JsonView>) -> Option<i64> {
    match v {
        Some(JsonView::Int(n)) => if i64::MIN <= n <= i64::MAX {
            Some(n as i64)
        } else {
            None
        },
        _ => None,
    }
}

/// A JSON integer that fits in a `u64`.
pub open spec fn u64_of(v: Option<JsonView>) -> Option<u64> {
    match v {
        Some(JsonView::Int(n)) => if 0 <= n <= u64::MAX {
            Some(n as u64)
        } else {
            None
        },
        _ => None,
    }
}

pub open spec fn bool_of(v: Option<JsonView>) -> Option<bool> {
    match v {
        Some(JsonView::Bool(b)) => Some(b),
        _ => None,
    }
}

pub open spec fn array_of(v: Option<JsonView>) -> Option<Seq<JsonView>> {
    match v {
        Some(JsonView::Array(items)) => Some(items),
        _ => None,
    }
}

pub open spec fn is_object(v: JsonView) -> bool {
    v is Object
}

/// The view of an optional reference.
pub open spec fn ref_view(r: Option<&Json>) -> Option<JsonView> {
    match r {
        Some(x) => Some(x.deep_view()),
        None => None,
    }
}

pub open spec fn unwrap_text_or(v: Option<Seq<char>>, default: Seq<char>) -> Seq<char> {
    match v {
        Some(s) => s,
        None => default,
    }
}

pub open spec fn unwrap_bool_or(v: Option<bool>, default: bool) -> bool {
    match v {
        Some(b) => b,
        None => default,
    }
}

/// Two texts are equal.
pub fn text_eq(a: &str, b: &str) -> (r: bool)
    ensures
        r == (a@ == b@),
{
    a.to_owned() == b.to_owned()
}

/// The members of an object view, element by element, are those of the executable object.
pub proof fn lemma_object_members(j: Json)
    requires
        j is Object,
    ensures
        ({
            let members = j->Object_0;
            &&& j.deep_view() is Object
            &&& j.deep_view()->Object_0.len() == members@.len()
            &&& forall|i: int|
                0 <= i < members@.len() ==> #[trigger] j.deep_view()->Object_0[i] == (
                    members@[i].0@,
                    members@[i].1.deep_view(),
                )
        }),
{
}

/// The items of an array view, element by element, are those of the executable array.
pub proof fn lemma_array_items(j: Json)
    requires
        j is Array,
    ensures
        ({
            let items = j->Array_0;
            &&& j.deep_view() is Array
            &&& j.deep_view()->Array_0.len() == items@.len()
            &&& forall|i: int|
                0 <= i < items@.len() ==> #[trigger] j.deep_view()->Array_0[i]
                    == items@[i].deep_view()
        }),
{
}

impl Json {
    /// The member `key` of this value, when it is an object that has one.
    pub fn get(&self, key: &str) -> (r: Option<&Json>)
        ensures
            ref_view(r) == get_key(self.deep_view(), key@),
    {
        match self {
            Json::Object(members) => {
                proof {
                    lemma_object_members(*self);
                }
                let ghost view = self.deep_view()->Object_0;
                let mut i: usize = 0;
                assert(view.skip(0) =~= view);
                while i < members.len()
                    invariant
                        i <= members.len(),
                        view.len() == members@.len(),
                        forall|k: int|
                            0 <= k < members@.len() ==> #[trigger] view[k] == (
                                members@[k].0@,
                                members@[k].1.deep_view(),
                            ),
                        get_key(self.deep_view(), key@) == member_value(view.skip(i as int), key@),
                    decreases members.len() - i,
                {
                    assert(view.skip(i as int).drop_first() =~= view.skip(i + 1));
                    assert(view.skip(i as int)[0] == view[i as int]);
                    if text_eq(members[i].0.as_str(), key) {
                        return Some(&members[i].1);
                    }
                    i = i + 1;
                }
                None
            },
            _ => None,
        }
    }

    pub fn as_text(&self) -> (r: Option<&String>)
        ensures
            match r {
                Some(s) => str_of(Some(self.deep_view())) == Some(s@),
                None => str_of(Some(self.deep_view())) is None,
            },
    {
        match self {
            Json::Str(s) => Some(s),
            _ => None,
        }
    }

    pub fn as_i64(&self) -> (r: Option<i64>)
        ensures
            r == i64_of(Some(self.deep_view())),
    {
        match self {
            Json::Int(n) => {
                if i64::MIN as i128 <= *n && *n <= i64::MAX as i128 {
                    Some(*n as i64)
                } else {
                    None
                }
            },
            _ => None,
        }
    }

    pub fn as_u64(&self) -> (r: Option<u64>)
        ensures
            r == u64_of(Some(self.deep_view())),
    {
        match self {
            Json::Int(n) => {
                if 0 <= *n && *n <= u64::MAX as i128 {
                    Some(*n as u64)
                } else {
                    None
                }
            },
            _ => None,
        }
    }

    pub fn as_bool(&self) -> (r: Option<bool>)
        ensures
            r == bool_of(Some(self.deep_view())),
    {
        match self {
            Json::Bool(b) => Some(*b),
            _ => None,
        }
    }

    pub fn as_array(&self) -> (r: Option<&Vec<Json>>)
        ensures
            match r {
                Some(items) => array_of(Some(self.deep_view())) == Some(items.deep_view()),
                None => array_of(Some(self.deep_view())) is None,
            },
    {
        match self {
            Json::Array(items) => {
                proof {
                    lemma_array_items(*self);
                }
                assert(self.deep_view()->Array_0 =~= items.deep_view());
                Some(items)
            },
            _ => None,
        }
    }

    pub fn is_object(&self) -> (r: bool)
        ensures
            r == is_object(self.deep_view()),
    {
        match self {
            Json::Object(_) => true,
            _ => false,
        }
    }
}

impl Json {
    /// An independent copy of this document.
    pub fn duplicate(&self) -> (r: Json)
        ensures
            r.deep_view() == self.deep_view(),
        decreases self,
    {
        match self {
            Json::Null => Json::Null,
            Json::Bool(b) => Json::Bool(*b),
            Json::Int(n) => Json::Int(*n),
            Json::Float(t) => Json::Float(t.clone()),
            Json::Str(s) => Json::Str(s.clone()),
            Json::Array(items) => {
                proof {
                    lemma_array_items(*self);
                }
                let mut out: Vec<Json> = Vec::new();
                let mut i: usize = 0;
                while i < items.len()
                    invariant
                        i <= items@.len(),
                        out@.len() == i,
                        *self == Json::Array(*items),
                        forall|k: int| 0 <= k < i ==> #[trigger] out@[k].deep_view() == items@[k].deep_view(),
                    decreases items.len() - i,
                {
                    proof {
                        assert(decreases_to!(*self => (*self)->Array_0));
                        assert(decreases_to!(*items => items@));
                        assert(decreases_to!(items@ => items@[i as int]));
                        assert(decreases_to!(*self => items@[i as int]));
                    }
                    let copy = items[i].duplicate();
                    out.push(copy);
                    i = i + 1;
                }
                let r = Json::Array(out);
                proof {
                    lemma_array_items(r);
                }
                assert(r.deep_view()->Array_0 =~= self.deep_view()->Array_0);
                r
            },
            Json::Object(members) => {
                proof {
                    lemma_object_members(*self);
                }
                let mut out: Vec<(String, Json)> = Vec::new();
                let mut i: usize = 0;
                while i < members.len()
                    invariant
                        i <= members@.len(),
                        out@.len() == i,
                        *self == Json::Object(*members),
                        forall|k: int| 0 <= k < i ==> #[trigger] out@[k].0@ == members@[k].0@
                            && out@[k].1.deep_view() == members@[k].1.deep_view(),
                    decreases members.len() - i,
                {
                    let key = members[i].0.clone();
                    proof {
                        assert(decreases_to!(*self => (*self)->Object_0));
                        assert(decreases_to!(*members => members@));
                        assert(decreases_to!(members@ => members@[i as int]));
                        assert(decreases_to!(members@[i as int] => members@[i as int].1));
                        assert(decreases_to!(*self => members@[i as int].1));
                    }
                    let value = members[i].1.duplicate();
                    out.push((key, value));
                    i = i + 1;
                }
                let r = Json::Object(out);
                proof {
                    lemma_object_members(r);
                }
                assert(r.deep_view()->Object_0 =~= self.deep_view()->Object_0);
                r
            },
        }
    }
}

/// `v[key]` on an optional value.
pub fn member<'a>(v: Option<&'a Json>, key: &str) -> (r: Option<&'a Json>)
    ensures
        ref_view(r) == field(ref_view(v), key@),
{
    match v {
        Some(j) => j.get(key),
        None => None,
    }
}

pub fn text_of(v: Option<&Json>) -> (r: Option<&String>)
    ensures
        match r {
            Some(s) => str_of(ref_view(v)) == Some(s@),
            None => str_of(ref_view(v)) is None,
        },
{
    match v {
        Some(j) => j.as_text(),
        None => None,
    }
}

pub fn int_of(v: Option<&Json>) -> (r: Option<i64>)
    ensures
        r == i64_of(ref_view(v)),
{
    match v {
        Some(j) => j.as_i64(),
        None => None,
    }
}

pub fn count_of(v: Option<&Json>) -> (r: Option<u64>)
    ensures
        r == u64_of(ref_view(v)),
{
    match v {
        Some(j) => j.as_u64(),
        None => None,
    }
}

pub fn flag_of(v: Option<&Json>) -> (r: Option<bool>)
    ensures
        r == bool_of(ref_view(v)),
{
    match v {
        Some(j) => j.as_bool(),
        None => None,
    }
}

pub fn items_of(v: Option<&Json>) -> (r: Option<&Vec<Json>>)
    ensures
        match r {
            Some(items) => array_of(ref_view(v)) == Some(items.deep_view()),
            None => array_of(ref_view(v)) is None,
        },
{
    match v {
        Some(j) => j.as_array(),
        None => None,
    }
}

/// Whether the optional text is exactly `expected`.
pub fn text_is(v: Option<&String>, expected: &str) -> (r: bool)
    ensures
        r == (match v {
            Some(s) => s@ == expected@,
            None => false,
        }),
{
    match v {
        Some(s) => text_eq(s.as_str(), expected),
        None => false,
    }
}

} // verus!

verus! {

/// The members with `key` set to `value`: the first member with that key takes the new value,
/// or a new member is added at the end (`serde_json::Map::insert`).
pub open spec fn put_member(members: Seq<(Seq<char>, JsonView)>, key: Seq<char>, value: JsonView) -> Seq<
    (Seq<char>, JsonView),
>
    decreases members.len(),
{
    if members.len() == 0 {
        seq![(key, value)]
    } else if members[0].0 == key {
        members.update(0, (key, value))
    } else {
        seq![members[0]] + put_member(members.drop_first(), key, value)
    }
}

/// The members without any member named `key` (`serde_json::Map::remove`).
pub open spec fn drop_member(members: Seq<(Seq<char>, JsonView)>, key: Seq<char>) -> Seq<
    (Seq<char>, JsonView),
>
    decreases members.len(),
{
    if members.len() == 0 {
        members
    } else if members[0].0 == key {
        drop_member(members.drop_first(), key)
    } else {
        seq![members[0]] + drop_member(members.drop_first(), key)
    }
}

/// `j` with member `key` set to `value`; anything but an object is left as it is.
pub open spec fn with_member(j: JsonView, key: Seq<char>, value: JsonView) -> JsonView {
    match j {
        JsonView::Object(members) => JsonView::Object(put_member(members, key, value)),
        _ => j,
    }
}

/// `j` without member `key`; anything but an object is left as it is.
pub open spec fn without_member(j: JsonView, key: Seq<char>) -> JsonView {
    match j {
        JsonView::Object(members) => JsonView::Object(drop_member(members, key)),
        _ => j,
    }
}

pub open spec fn empty_object() -> JsonView {
    JsonView::Object(Seq::empty())
}

proof fn lemma_put_member_index(members: Seq<(Seq<char>, JsonView)>, key: Seq<char>, value: JsonView, i: int)
    requires
        0 <= i <= members.len(),
        forall|k: int| 0 <= k < i ==> (#[trigger] members[k]).0 != key,
        i < members.len() ==> members[i].0 == key,
    ensures
        put_member(members, key, value) == if i < members.len() {
            members.update(i, (key, value))
        } else {
            members.push((key, value))
        },
    decreases members.len(),
{
    if members.len() > 0 && members[0].0 != key {
        let rest = members.drop_first();
        assert forall|k: int| 0 <= k < i - 1 implies (#[trigger] rest[k]).0 != key by {
            assert(rest[k] == members[k + 1]);
        }
        lemma_put_member_index(rest, key, value, i - 1);
        if i < members.len() {
            assert(seq![members[0]] + rest.update(i - 1, (key, value)) =~= members.update(
                i,
                (key, value),
            ));
        } else {
            assert(seq![members[0]] + rest.push((key, value)) =~= members.push((key, value)));
        }
    } else if members.len() == 0 {
        assert(seq![(key, value)] =~= members.push((key, value)));
    }
}

proof fn lemma_drop_member_prefix(members: Seq<(Seq<char>, JsonView)>, key: Seq<char>, i: int)
    requires
        0 <= i < members.len(),
    ensures
        drop_member(members.take(i + 1), key) == if members[i].0 == key {
            drop_member(members.take(i), key)
        } else {
            drop_member(members.take(i), key).push(members[i])
        },
    decreases i,
{
    let t = members.take(i + 1);
    if i == 0 {
        assert(t.drop_first() =~= Seq::<(Seq<char>, JsonView)>::empty());
        assert(members.take(0) =~= Seq::<(Seq<char>, JsonView)>::empty());
        if members[0].0 != key {
            assert(seq![members[0]] + Seq::<(Seq<char>, JsonView)>::empty() =~= seq![members[0]]);
            assert(Seq::<(Seq<char>, JsonView)>::empty().push(members[0]) =~= seq![members[0]]);
        }
    } else {
        let rest = members.drop_first();
        lemma_drop_member_prefix(rest, key, i - 1);
        assert(t.drop_first() =~= rest.take(i));
        assert(members.take(i).drop_first() =~= rest.take(i - 1));
        assert(rest[i - 1] == members[i]);
        assert(t[0] == members[0]);
        assert(members.take(i)[0] == members[0]);
        if members[0].0 != key {
            if members[i].0 != key {
                assert(seq![members[0]] + drop_member(rest.take(i - 1), key).push(members[i])
                    =~= (seq![members[0]] + drop_member(rest.take(i - 1), key)).push(members[i]));
            }
        }
    }
}

impl Json {
    /// This object with member `key` set to `value`; anything but an object is returned as it is.
    pub fn put(self, key: &str, value: Json) -> (r: Json)
        ensures
            r.deep_view() == with_member(self.deep_view(), key@, value.deep_view()),
    {
        match self {
            Json::Object(mut members) => {
                proof {
                    lemma_object_members(Json::Object(members));
                }
                let ghost old_view = Json::Object(members).deep_view()->Object_0;
                let ghost old_members = members@;
                let mut i: usize = 0;
                while i < members.len() && !text_eq(members[i].0.as_str(), key)
                    invariant
                        i <= members@.len(),
                        members@ == old_members,
                        old_view.len() == members@.len(),
                        forall|k: int|
                            0 <= k < members@.len() ==> #[trigger] old_view[k] == (
                                members@[k].0@,
                                members@[k].1.deep_view(),
                            ),
                        forall|k: int| 0 <= k < i ==> (#[trigger] old_view[k]).0 != key@,
                    decreases members.len() - i,
                {
                    i = i + 1;
                }
                proof {
                    lemma_put_member_index(old_view, key@, value.deep_view(), i as int);
                }
                let ghost vv = value.deep_view();
                if i < members.len() {
                    members.set(i, (key.to_owned(), value));
                } else {
                    members.push((key.to_owned(), value));
                }
                let r = Json::Object(members);
                proof {
                    lemma_object_members(r);
                }
                assert(r.deep_view()->Object_0 =~= put_member(old_view, key@, vv));
                r
            },
            other => other,
        }
    }

    /// This object without member `key`; anything but an object is returned as it is.
    pub fn remove(self, key: &str) -> (r: Json)
        ensures
            r.deep_view() == without_member(self.deep_view(), key@),
    {
        match self {
            Json::Object(members) => {
                proof {
                    lemma_object_members(Json::Object(members));
                }
                let ghost old_view = Json::Object(members).deep_view()->Object_0;
                let mut kept: Vec<(String, Json)> = Vec::new();
                let mut i: usize = 0;
                let mut rest = members;
                let ghost all = rest@;
                let total = rest.len();
                assert(all.len() == total);
                assert(old_view.take(0) =~= Seq::<(Seq<char>, JsonView)>::empty());
                while rest.len() > 0
                    invariant
                        all.len() == old_view.len(),
                        forall|k: int|
                            0 <= k < all.len() ==> #[trigger] old_view[k] == (
                                all[k].0@,
                                all[k].1.deep_view(),
                            ),
                        i + rest@.len() == all.len(),
                        all.len() <= usize::MAX,
                        rest@ == all.skip(i as int),
                        kept@.len() == drop_member(old_view.take(i as int), key@).len(),
                        forall|k: int|
                            0 <= k < kept@.len() ==> (kept@[k].0@, kept@[k].1.deep_view())
                                == #[trigger] drop_member(old_view.take(i as int), key@)[k],
                    decreases rest.len(),
                {
                    let (k, v) = rest.remove(0);
                    assert(all[i as int] == (k, v));
                    proof {
                        lemma_drop_member_prefix(old_view, key@, i as int);
                    }
                    if !text_eq(k.as_str(), key) {
                        kept.push((k, v));
                    }
                    i = i + 1;
                    assert(rest@ =~= all.skip(i as int));
                }
                assert(old_view.take(i as int) =~= old_view);
                let r = Json::Object(kept);
                proof {
                    lemma_object_members(r);
                }
                assert(r.deep_view()->Object_0 =~= drop_member(old_view, key@));
                r
            },
            other => other,
        }
    }
}

/// An object with one text member.
pub fn text_member(key: &str, value: &str) -> (r: Json)
    ensures
        r.deep_view() == JsonView::Object(seq![(key@, JsonView::Str(value@))]),
{
    let r = Json::Object(vec![(key.to_owned(), Json::Str(value.to_owned()))]);
    proof {
        lemma_object_members(r);
    }
    assert(r.deep_view()->Object_0 =~= seq![(key@, JsonView::Str(value@))]);
    r
}

pub fn empty_json_object() -> (r: Json)
    ensures
        r.deep_view() == empty_object(),
{
    let r = Json::Object(Vec::new());
    proof {
        lemma_object_members(r);
    }
    assert(r.deep_view()->Object_0 =~= Seq::<(Seq<char>, JsonView)>::empty());
    r
}

/// Reading back a member that was just set gives the value set.
pub proof fn lemma_get_after_put(members: Seq<(Seq<char>, JsonView)>, key: Seq<char>, other: Seq<char>, value: JsonView)
    ensures
        member_value(put_member(members, key, value), key) == Some(value),
        other != key ==> member_value(put_member(members, key, value), other) == member_value(
            members,
            other,
        ),
    decreases members.len(),
{
    if members.len() > 0 && members[0].0 != key {
        lemma_get_after_put(members.drop_first(), key, other, value);
        let p = put_member(members, key, value);
        assert(p[0] == members[0]);
        assert(p.drop_first() =~= put_member(members.drop_first(), key, value));
        if other != key && members[0].0 != other {
            assert(member_value(p, other) == member_value(p.drop_first(), other));
        }
    } else if members.len() > 0 {
        let p = put_member(members, key, value);
        assert(p[0] == (key, value));
        assert(p.drop_first() =~= members.drop_first());
        if other != key {
            assert(member_value(p, other) == member_value(p.drop_first(), other));
        }
    } else {
        let p = put_member(members, key, value);
        assert(p[0] == (key, value));
        assert(p.drop_first() =~= Seq::<(Seq<char>, JsonView)>::empty());
        if other != key {
            assert(member_value(p, other) == member_value(p.drop_first(), other));
            assert(member_value(p.drop_first(), other) is None);
        }
    }
}

/// A removed member is gone, and the others read as before.
pub proof fn lemma_get_after_drop(members: Seq<(Seq<char>, JsonView)>, key: Seq<char>, other: Seq<char>)
    ensures
        member_value(drop_member(members, key), key) is None,
        other != key ==> member_value(drop_member(members, key), other) == member_value(members, other),
    decreases members.len(),
{
    if members.len() > 0 {
        lemma_get_after_drop(members.drop_first(), key, other);
        if members[0].0 != key {
            let d = drop_member(members, key);
            assert(d.drop_first() =~= drop_member(members.drop_first(), key));
        }
    }
}

} // verus!
