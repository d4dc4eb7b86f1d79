use vstd::prelude::*;

use crate::json::{field, get_key, i64_of, int_of, member, str_of, text_is, text_of, Json, JsonView};
use crate::model::{result_view, ChatRef, User, UserView};
use crate::text::{chars_of, concat_all, has_prefix, join, join_all, starts_with};

verus! {

/// The command that sends `text` to a conversation: notes go to the local folder (`*`), contacts
/// and groups (`@`, `#`) get a message; other conversations cannot take one.
pub open spec fn message_command_of(chat_ref: Seq<char>, text: Seq<char>) -> Option<Seq<char>> {
    if has_prefix(chat_ref, "*"@) {
        Some("/_create "@ + chat_ref + " text "@ + text)
    } else if has_prefix(chat_ref, "@"@) || has_prefix(chat_ref, "#"@) {
        Some("/_send "@ + chat_ref + " live=off ttl=default sign=off text "@ + text)
    } else {
        None
    }
}

fn text4(a: &str, b: &str, c: &str, d: &str) -> (r: String)
    ensures
        r@ == a@ + b@ + c@ + d@,
{
    let pieces = [a, b, c, d];
    let r = join_all(&pieces);
    proof {
        reveal_with_fuel(concat_all, 5);
        assert(pieces@.map_values(|p: &str| p@) =~= seq![a@, b@, c@, d@]);
    }
    r
}

pub fn message_command(chat_ref: &ChatRef, text: &str) -> (r: Option<String>)
    ensures
        match r {
            Some(c) => message_command_of(chat_ref.0@, text@) == Some(c@),
            None => message_command_of(chat_ref.0@, text@) is None,
        },
{
    let target = chat_ref.0.as_str();
    if starts_with(target, "*") {
        Some(text4("/_create ", target, " text ", text))
    } else if starts_with(target, "@") || starts_with(target, "#") {
        Some(text4("/_send ", target, " live=off ttl=default sign=off text ", text))
    } else {
        None
    }
}

/// What a reply says it is: the `type` of its `result`.
pub open spec fn reply_kind_of(v: JsonView) -> Option<Seq<char>> {
    str_of(field(get_key(v, "result"@), "type"@))
}

pub fn reply_is(value: &Json, kind: &str) -> (r: bool)
    ensures
        r == (reply_kind_of(value.deep_view()) == Some(kind@)),
{
    text_is(text_of(member(value.get("result"), "type")), kind)
}

/// A database migration whose report holds an error is refused.
pub open spec fn migration_check_of(v: JsonView, text: Seq<char>) -> Result<(), Seq<char>> {
    if get_key(v, "error"@) is Some {
        Err("database migration failed: "@ + text)
    } else {
        Ok(())
    }
}

pub fn migration_check(value: &Json, text: &str) -> (r: Result<(), String>)
    ensures
        match r {
            Ok(()) => migration_check_of(value.deep_view(), text@) is Ok,
            Err(e) => migration_check_of(value.deep_view(), text@) == Err::<(), Seq<char>>(e@),
        },
{
    if value.get("error").is_some() {
        Err(join("database migration failed: ", text))
    } else {
        Ok(())
    }
}

/// The automatic deletion period that a `/_ttl` reply reports; 0 when it reports none.
pub open spec fn auto_delete_of(v: JsonView) -> i64 {
    match i64_of(field(get_key(v, "result"@), "chatItemTTL"@)) {
        Some(s) => s,
        None => 0,
    }
}

pub fn auto_delete_seconds(value: &Json) -> (r: i64)
    ensures
        r == auto_delete_of(value.deep_view()),
{
    match int_of(member(value.get("result"), "chatItemTTL")) {
        Some(s) => s,
        None => 0,
    }
}

/// A reply that must be of one kind, else the action failed with `message` and the reply.
pub open spec fn expect_kind_of(v: JsonView, text: Seq<char>, kind: Seq<char>, message: Seq<char>) -> Result<
    (),
    Seq<char>,
> {
    if reply_kind_of(v) == Some(kind) {
        Ok(())
    } else {
        Err(message + text)
    }
}

pub fn expect_kind(value: &Json, text: &str, kind: &str, message: &str) -> (r: Result<(), String>)
    ensures
        match r {
            Ok(()) => expect_kind_of(value.deep_view(), text@, kind@, message@) is Ok,
            Err(e) => expect_kind_of(value.deep_view(), text@, kind@, message@) == Err::<
                (),
                Seq<char>,
            >(e@),
        },
{
    if reply_is(value, kind) {
        Ok(())
    } else {
        Err(join(message, text))
    }
}

/// A file download starts when the core accepts it.
pub fn download_accepted(value: &Json, text: &str) -> (r: Result<(), String>)
    ensures
        match r {
            Ok(()) => expect_kind_of(
                value.deep_view(),
                text@,
                "rcvFileAccepted"@,
                "file download was not accepted: "@,
            ) is Ok,
            Err(e) => expect_kind_of(
                value.deep_view(),
                text@,
                "rcvFileAccepted"@,
                "file download was not accepted: "@,
            ) == Err::<(), Seq<char>>(e@),
        },
{
    expect_kind(value, text, "rcvFileAccepted", "file download was not accepted: ")
}

/// A file download is cancelled when the core confirms it.
pub fn download_cancelled(value: &Json, text: &str) -> (r: Result<(), String>)
    ensures
        match r {
            Ok(()) => expect_kind_of(
                value.deep_view(),
                text@,
                "rcvFileCancelled"@,
                "file download was not cancelled: "@,
            ) is Ok,
            Err(e) => expect_kind_of(
                value.deep_view(),
                text@,
                "rcvFileCancelled"@,
                "file download was not cancelled: "@,
            ) == Err::<(), Seq<char>>(e@),
        },
{
    expect_kind(value, text, "rcvFileCancelled", "file download was not cancelled: ")
}

/// The outcome of connecting through an invitation link: the core confirms a sent connection
/// request, or reports why not.
pub open spec fn connection_started_of(v: JsonView) -> Result<(), Seq<char>> {
    let kind = reply_kind_of(v);
    if kind == Some("sentConfirmation"@) || kind == Some("sentInvitation"@) || kind == Some(
        "sentInvitationToContact"@,
    ) || kind == Some("contactAlreadyExists"@) {
        Ok(())
    } else {
        Err(crate::model::response_error_text(v, "connection"@))
    }
}

pub fn connection_started(value: &Json) -> (r: Result<(), String>)
    ensures
        match r {
            Ok(()) => connection_started_of(value.deep_view()) is Ok,
            Err(e) => connection_started_of(value.deep_view()) == Err::<(), Seq<char>>(e@),
        },
{
    if reply_is(value, "sentConfirmation") || reply_is(value, "sentInvitation") || reply_is(
        value,
        "sentInvitationToContact",
    ) || reply_is(value, "contactAlreadyExists") {
        Ok(())
    } else {
        Err(crate::model::response_error(value, "connection"))
    }
}

/// The profile to switch to before deleting `user_id`: when it is the active one, the first
/// other profile.
pub open spec fn replacement_of(profiles: Seq<UserView>, user_id: i64) -> Option<i64> {
    if exists|i: int| 0 <= i < profiles.len() && (#[trigger] profiles[i]).id == user_id && profiles[i].active {
        first_other(profiles, user_id)
    } else {
        None
    }
}

/// The id of the first profile that is not `user_id`.
pub open spec fn first_other(profiles: Seq<UserView>, user_id: i64) -> Option<i64>
    decreases profiles.len(),
{
    if profiles.len() == 0 {
        None
    } else if profiles[0].id != user_id {
        Some(profiles[0].id)
    } else {
        first_other(profiles.drop_first(), user_id)
    }
}

proof fn lemma_first_other(profiles: Seq<UserView>, user_id: i64, i: int)
    requires
        0 <= i <= profiles.len(),
        forall|k: int| 0 <= k < i ==> (#[trigger] profiles[k]).id == user_id,
    ensures
        i < profiles.len() ==> (profiles[i].id != user_id ==> first_other(profiles, user_id) == Some(profiles[i].id)),
        i == profiles.len() ==> first_other(profiles, user_id) is None,
    decreases i,
{
    if i > 0 {
        let rest = profiles.drop_first();
        assert forall|k: int| 0 <= k < i - 1 implies (#[trigger] rest[k]).id == user_id by {
            assert(rest[k] == profiles[k + 1]);
        }
        lemma_first_other(rest, user_id, i - 1);
        if i < profiles.len() {
            assert(rest[i - 1] == profiles[i]);
        }
    }
}

pub fn replacement_profile(profiles: &Vec<User>, user_id: i64) -> (r: Option<i64>)
    ensures
        r == replacement_of(profiles.deep_view(), user_id),
{
    let ghost views = profiles.deep_view();
    let mut active = false;
    let mut i: usize = 0;
    while i < profiles.len()
        invariant
            i <= profiles@.len(),
            views == profiles.deep_view(),
            views.len() == profiles@.len(),
            active == (exists|k: int| 0 <= k < i && (#[trigger] views[k]).id == user_id && views[k].active),
        decreases profiles.len() - i,
    {
        if profiles[i].id == user_id && profiles[i].active {
            assert(views[i as int].id == user_id && views[i as int].active);
            active = true;
        }
        i = i + 1;
    }
    if !active {
        return None;
    }
    let mut j: usize = 0;
    while j < profiles.len()
        invariant
            j <= profiles@.len(),
            views == profiles.deep_view(),
            views.len() == profiles@.len(),
            forall|k: int| 0 <= k < j ==> (#[trigger] views[k]).id == user_id,
            replacement_of(views, user_id) == first_other(views, user_id),
        decreases profiles.len() - j,
    {
        if profiles[j].id != user_id {
            proof {
                lemma_first_other(views, user_id, j as int);
            }
            return Some(profiles[j].id);
        }
        assert(views[j as int].id == user_id);
        j = j + 1;
    }
    proof {
        lemma_first_other(views, user_id, j as int);
    }
    None
}

/// Whether a profile still allows calls, which this client switches off.
pub open spec fn calls_still_allowed(profile: JsonView) -> bool {
    crate::client::allow_of(profile, "calls"@) != Some("no"@)
}

pub fn calls_allowed(profile: &Json) -> (r: bool)
    ensures
        r == calls_still_allowed(profile.deep_view()),
{
    !text_is(crate::client::preference_allow(profile, "calls"), "no")
}

// ---------------------------------------------------------------------------------------
// Where a download is saved
// ---------------------------------------------------------------------------------------

/// The position of the last `c` in `s`, or -1.
pub open spec fn last_index_of(s: Seq<char>, c: char) -> int
    decreases s.len(),
{
    if s.len() == 0 {
        -1
    } else if s.last() == c {
        s.len() - 1
    } else {
        last_index_of(s.drop_last(), c)
    }
}

pub proof fn lemma_last_index_of(s: Seq<char>, c: char)
    ensures
        -1 <= last_index_of(s, c) < s.len(),
        last_index_of(s, c) >= 0 ==> s[last_index_of(s, c)] == c,
        forall|k: int| last_index_of(s, c) < k < s.len() ==> s[k] != c,
    decreases s.len(),
{
    if s.len() > 0 && s.last() != c {
        lemma_last_index_of(s.drop_last(), c);
        assert forall|k: int| last_index_of(s, c) < k < s.len() implies s[k] != c by {
            if k < s.len() - 1 {
                assert(s.drop_last()[k] == s[k]);
            }
        }
    }
}

/// The last component of a path that names something: empty components and `.` are skipped.
pub open spec fn last_name(s: Seq<char>) -> Option<Seq<char>>
    decreases s.len(),
{
    let i = last_index_of(s, '/');
    let piece = s.subrange(i + 1, s.len() as int);
    if piece.len() > 0 && piece != "."@ {
        Some(piece)
    } else if i < 0 {
        None
    } else {
        proof {
            lemma_last_index_of(s, '/');
        }
        last_name(s.subrange(0, i))
    }
}

/// The name a received file is saved under: the last component of the name its sender gave,
/// or "simplex-file" when there is none or it is `..`.
pub open spec fn safe_name_of(s: Seq<char>) -> Seq<char> {
    match last_name(s) {
        Some(p) => if p == ".."@ {
            "simplex-file"@
        } else {
            p
        },
        None => "simplex-file"@,
    }
}

fn slice_text(cs: &Vec<char>, from: usize, to: usize) -> (r: String)
    requires
        from <= to <= cs@.len(),
    ensures
        r@ == cs@.subrange(from as int, to as int),
{
    let mut out: Vec<char> = Vec::new();
    let mut k = from;
    while k < to
        invariant
            from <= k <= to,
            to <= cs@.len(),
            out@ == cs@.subrange(from as int, k as int),
        decreases to - k,
    {
        out.push(cs[k]);
        assert(cs@.subrange(from as int, k + 1) =~= cs@.subrange(from as int, k as int).push(cs@[k as int]));
        k = k + 1;
    }
    crate::text::text_from_chars(out.as_slice())
}

/// Finds the last `c` before position `end`.
fn last_before(cs: &Vec<char>, end: usize, c: char) -> (r: Option<usize>)
    requires
        end <= cs@.len(),
    ensures
        match r {
            Some(j) => j < end && last_index_of(cs@.subrange(0, end as int), c) == j,
            None => last_index_of(cs@.subrange(0, end as int), c) == -1,
        },
{
    let ghost s = cs@;
    let mut p = end;
    while p > 0 && cs[p - 1] != c
        invariant
            p <= end <= s.len(),
            s == cs@,
            last_index_of(s.subrange(0, end as int), c) == last_index_of(s.subrange(0, p as int), c),
        decreases p,
    {
        assert(s.subrange(0, p as int).drop_last() =~= s.subrange(0, p - 1));
        p = p - 1;
    }
    if p == 0 {
        assert(s.subrange(0, 0) =~= Seq::<char>::empty());
        None
    } else {
        Some(p - 1)
    }
}

/// The name a received file is saved under (see `safe_name_of`).
pub fn safe_file_name(file_name: &str) -> (r: String)
    ensures
        r@ == safe_name_of(file_name@),
{
    let cs = chars_of(file_name);
    let ghost s = file_name@;
    let mut end = cs.len();
    assert(s.subrange(0, end as int) =~= s);
    let mut found: Option<String> = None;
    loop
        invariant_except_break
            end <= s.len(),
            cs@ == s,
            last_name(s) == last_name(s.subrange(0, end as int)),
        ensures
            match found {
                Some(p) => last_name(s) == Some(p@),
                None => last_name(s) is None,
            },
        decreases end,
    {
        let ghost t = s.subrange(0, end as int);
        proof {
            lemma_last_index_of(t, '/');
        }
        let slash = last_before(&cs, end, '/');
        let start = match slash {
            Some(j) => j + 1,
            None => 0,
        };
        assert(t.subrange(start as int, t.len() as int) =~= s.subrange(start as int, end as int));
        let piece_len = end - start;
        let is_dot = piece_len == 1 && cs[start] == '.';
        proof {
            reveal_strlit(".");
            assert("."@ =~= seq!['.']);
            if piece_len == 1 {
                assert(s.subrange(start as int, end as int) =~= seq![cs@[start as int]]);
            }
        }
        if piece_len > 0 && !is_dot {
            let piece = slice_text(&cs, start, end);
            proof {
                let i = last_index_of(t, '/');
                assert(i + 1 == start);
                assert(t.subrange(i + 1, t.len() as int) == piece@);
                if piece_len == 1 {
                    assert(piece@[0] == cs@[start as int]);
                    assert(cs@[start as int] != '.');
                    assert(piece@[0] != "."@[0]);
                } else {
                    assert(piece@.len() != "."@.len());
                }
                assert(piece@ != "."@);
                assert(last_name(t) == Some(piece@));
            }
            found = Some(piece);
            break;
        }
        match slash {
            None => {
                found = None;
                break;
            },
            Some(j) => {
                assert(t.subrange(0, j as int) =~= s.subrange(0, j as int));
                end = j;
            },
        }
    }
    proof {
        reveal_strlit("..");
        reveal_strlit("simplex-file");
    }
    match found {
        Some(p) => {
            let pc = chars_of(p.as_str());
            if pc.len() == 2 && pc[0] == '.' && pc[1] == '.' {
                assert(p@ =~= ".."@);
                "simplex-file".to_owned()
            } else {
                assert(p@ != ".."@);
                p
            }
        },
        None => "simplex-file".to_owned(),
    }
}

/// The part of a file name before its extension (as a path's file stem).
pub open spec fn stem_of(name: Seq<char>) -> Seq<char> {
    let d = last_index_of(name, '.');
    if d <= 0 {
        name
    } else {
        name.subrange(0, d)
    }
}

/// A file name's extension, if it has one (as a path's extension).
pub open spec fn extension_in(name: Seq<char>) -> Option<Seq<char>> {
    let d = last_index_of(name, '.');
    if d <= 0 {
        None
    } else {
        Some(name.subrange(d + 1, name.len() as int))
    }
}

/// The `number`th other name tried for a file whose name is taken: the number in parentheses
/// after the stem, before the extension.
pub open spec fn numbered_name_of(name: Seq<char>, number: int) -> Seq<char> {
    match extension_in(name) {
        Some(e) => stem_of(name) + " ("@ + crate::text::decimal(number) + ")."@ + e,
        None => stem_of(name) + " ("@ + crate::text::decimal(number) + ")"@,
    }
}

fn with_extension(stem: &str, n: &str, ext: &str) -> (r: String)
    ensures
        r@ == stem@ + " ("@ + n@ + ")."@ + ext@,
{
    let pieces = [stem, " (", n, ").", ext];
    let r = join_all(&pieces);
    proof {
        reveal_with_fuel(concat_all, 6);
        assert(pieces@.map_values(|p: &str| p@) =~= seq![stem@, " ("@, n@, ")."@, ext@]);
    }
    r
}

fn without_extension(stem: &str, n: &str) -> (r: String)
    ensures
        r@ == stem@ + " ("@ + n@ + ")"@,
{
    let pieces = [stem, " (", n, ")"];
    let r = join_all(&pieces);
    proof {
        reveal_with_fuel(concat_all, 5);
        assert(pieces@.map_values(|p: &str| p@) =~= seq![stem@, " ("@, n@, ")"@]);
    }
    r
}

/// The `number`th other name tried for a file whose name is taken.
pub fn numbered_file_name(name: &str, number: i64) -> (r: String)
    ensures
        r@ == numbered_name_of(name@, number as int),
{
    let cs = chars_of(name);
    proof {
        lemma_last_index_of(name@, '.');
    }
    assert(cs@.subrange(0, cs@.len() as int) =~= cs@);
    let dot = last_before(&cs, cs.len(), '.');
    let n = crate::text::decimal_text(number);
    match dot {
        Some(d) => {
            if d > 0 {
                let stem = slice_text(&cs, 0, d);
                let ext = slice_text(&cs, d + 1, cs.len());
                assert(stem@ == stem_of(name@));
                assert(extension_in(name@) == Some(ext@));
                with_extension(stem.as_str(), n.as_str(), ext.as_str())
            } else {
                assert(extension_in(name@) is None);
                assert(stem_of(name@) == name@);
                without_extension(name, n.as_str())
            }
        },
        None => {
            assert(extension_in(name@) is None);
            assert(stem_of(name@) == name@);
            without_extension(name, n.as_str())
        },
    }
}

/// Where the download of a file named `name` is tried: first under its own name in `directory`,
/// then, for `number` from 1 on, under its numbered names.
pub open spec fn download_candidate_of(directory: Seq<char>, name: Seq<char>, number: int) -> Seq<char> {
    if number == 0 {
        crate::config::joined(directory, name)
    } else {
        crate::config::joined(directory, numbered_name_of(name, number))
    }
}

pub fn download_candidate(directory: &str, name: &str, number: i64) -> (r: String)
    requires
        number >= 0,
    ensures
        r@ == download_candidate_of(directory@, name@, number as int),
{
    if number == 0 {
        crate::config::join_path(directory, name)
    } else {
        let numbered = numbered_file_name(name, number);
        crate::config::join_path(directory, numbered.as_str())
    }
}

} // verus!
