use vstd::prelude::*;

use crate::text::chars_of;

verus! {

/// "Enabled" or "Disabled".
pub open spec fn enabled_text(value: bool) -> Seq<char> {
    if value {
        "Enabled"@
    } else {
        "Disabled"@
    }
}

pub fn enabled(value: bool) -> (r: &'static str)
    ensures
        r@ == enabled_text(value),
{
    if value {
        "Enabled"
    } else {
        "Disabled"
    }
}

/// How the settings name an automatic deletion period.
pub open spec fn auto_delete_text(seconds: i64) -> Seq<char> {
    if seconds == 86_400 {
        "After 1 day"@
    } else if seconds == 604_800 {
        "After 7 days"@
    } else if seconds == 2_592_000 {
        "After 30 days"@
    } else {
        "Off"@
    }
}

pub fn auto_delete_label(seconds: i64) -> (r: &'static str)
    ensures
        r@ == auto_delete_text(seconds),
{
    if seconds == 86_400 {
        "After 1 day"
    } else if seconds == 604_800 {
        "After 7 days"
    } else if seconds == 2_592_000 {
        "After 30 days"
    } else {
        "Off"
    }
}

/// The pieces of a text between its newlines; a text without a newline is one piece.
pub open spec fn pieces(s: Seq<char>) -> Seq<Seq<char>>
    decreases s.len(),
{
    if s.len() == 0 {
        seq![Seq::<char>::empty()]
    } else {
        let p = pieces(s.drop_last());
        if s.last() == '\n' {
            p.push(Seq::empty())
        } else {
            p.update(p.len() - 1, p.last().push(s.last()))
        }
    }
}

pub proof fn lemma_pieces_nonempty(s: Seq<char>)
    ensures
        pieces(s).len() >= 1,
        pieces(s).len() <= s.len() + 1,
        forall|j: int| 0 <= j < pieces(s).len() ==> (#[trigger] pieces(s)[j]).len() <= s.len(),
    decreases s.len(),
{
    if s.len() > 0 {
        let d = s.drop_last();
        lemma_pieces_nonempty(d);
        let p = pieces(d);
        assert forall|j: int| 0 <= j < pieces(s).len() implies (#[trigger] pieces(s)[j]).len()
            <= s.len() by {
            if j < p.len() && !(s.last() != '\n' && j == p.len() - 1) {
                assert(pieces(s)[j] == p[j]);
            }
        }
    }
}

/// A piece's length and whether it ends with a carriage return.
pub open spec fn shape_of(x: Seq<char>) -> (int, bool) {
    (x.len() as int, x.len() > 0 && x.last() == '\r')
}

pub open spec fn shapes(s: Seq<char>) -> Seq<(int, bool)> {
    pieces(s).map_values(|x: Seq<char>| shape_of(x))
}

/// The length of a line that a newline ends: a carriage return before the newline belongs to
/// the line ending.
pub open spec fn ended_line_len(sh: (int, bool)) -> int {
    if sh.1 {
        sh.0 - 1
    } else {
        sh.0
    }
}

pub open spec fn max_int(a: int, b: int) -> int {
    if a >= b {
        a
    } else {
        b
    }
}

pub open spec fn min_int(a: int, b: int) -> int {
    if a <= b {
        a
    } else {
        b
    }
}

/// The longest of the first `n` ended lines.
pub open spec fn longest_upto(sh: Seq<(int, bool)>, n: int) -> int
    decreases n,
{
    if n <= 0 {
        0
    } else {
        max_int(longest_upto(sh, n - 1), ended_line_len(sh[n - 1]))
    }
}

/// The length of the longest line of a text, as its lines are read: a final newline ends the
/// last line without starting another one; an empty text counts as one character wide.
pub open spec fn longest_line(s: Seq<char>) -> int {
    let sh = shapes(s);
    if s.len() == 0 {
        1
    } else if s.last() == '\n' {
        longest_upto(sh, sh.len() - 1)
    } else {
        max_int(longest_upto(sh, sh.len() - 1), sh.last().0)
    }
}

/// How many rows of `width` characters the first `n` pieces take, each at least one row.
pub open spec fn rows_upto(sh: Seq<(int, bool)>, n: int, width: int) -> int
    decreases n,
{
    if n <= 0 {
        0
    } else {
        rows_upto(sh, n - 1, width) + (max_int(sh[n - 1].0, 1) + width - 1) / width
    }
}

/// The width of a message bubble in a chat area `area_width` wide.
pub open spec fn bubble_width(text: Seq<char>, sender: Seq<char>, time: Seq<char>, area_width: u16) -> int {
    let available = max_int(area_width - 1, 1);
    let max_width = max_int((min_int(available * 3, u16::MAX as int) + 3) / 4, 1);
    let title = sender.len() + time.len() + 5int;
    let wanted = max_int(longest_line(text), title) + 4;
    let desired = if wanted <= u16::MAX as int {
        wanted
    } else {
        max_width
    };
    let low = min_int(12, available);
    let high = min_int(max_width, available);
    if desired < low {
        low
    } else if desired > high {
        high
    } else {
        desired
    }
}

/// The height of a message bubble: its text's pieces wrapped inside the bubble, at least one
/// row, and a border above and below.
pub open spec fn bubble_height(text: Seq<char>, sender: Seq<char>, time: Seq<char>, area_width: u16) -> int {
    let inner = max_int(bubble_width(text, sender, time, area_width) - 4, 1);
    let rows = max_int(rows_upto(shapes(text), shapes(text).len() as int, inner), 1);
    min_int(rows + 2, u16::MAX as int)
}

/// The bounds between which a bubble's width is kept overlap; on narrower chat areas the
/// width cannot be chosen.
pub open spec fn bubble_fits(area_width: u16) -> bool {
    let available = max_int(area_width - 1, 1);
    let max_width = max_int((min_int(available * 3, u16::MAX as int) + 3) / 4, 1);
    min_int(12, available) <= min_int(max_width, available)
}

/// Whether bubbles can be sized on a chat area `area_width` cells wide.
pub fn bubble_width_fits(area_width: u16) -> (r: bool)
    ensures
        r == bubble_fits(area_width),
{
    let available: u32 = if area_width > 1 { area_width as u32 - 1 } else { 1 };
    let tripled: u32 = if available * 3 < 65535 { available * 3 } else { 65535 };
    let quarter: u32 = (tripled + 3) / 4;
    let max_width: u32 = if quarter > 1 { quarter } else { 1 };
    let low: u32 = if available < 12 { available } else { 12 };
    let high: u32 = if max_width < available { max_width } else { available };
    low <= high
}

fn text_shapes(s: &str) -> (r: Vec<(usize, bool)>)
    ensures
        r@.len() == shapes(s@).len(),
        forall|j: int|
            0 <= j < r@.len() ==> (#[trigger] r@[j]).0 as int == shapes(s@)[j].0 && r@[j].1
                == shapes(s@)[j].1,
{
    let chars = chars_of(s);
    let mut out: Vec<(usize, bool)> = Vec::new();
    out.push((0, false));
    let mut i: usize = 0;
    proof {
        assert(s@.take(0) =~= Seq::<char>::empty());
    }
    while i < chars.len()
        invariant
            i <= chars@.len(),
            chars@ == s@,
            out@.len() == shapes(s@.take(i as int)).len(),
            out@.len() >= 1,
            out@.len() <= i + 1,
            forall|j: int|
                0 <= j < out@.len() ==> (#[trigger] out@[j]).0 as int == shapes(
                    s@.take(i as int),
                )[j].0 && out@[j].1 == shapes(s@.take(i as int))[j].1,
            forall|j: int| 0 <= j < out@.len() ==> (#[trigger] out@[j]).0 <= i,
        decreases chars.len() - i,
    {
        let ghost t = s@.take(i + 1);
        let ghost p = pieces(s@.take(i as int));
        proof {
            assert(t.drop_last() =~= s@.take(i as int));
            assert(t.last() == s@[i as int]);
            lemma_pieces_nonempty(s@.take(i as int));
        }
        let c = chars[i];
        let ghost before = out@;
        if c == '\n' {
            out.push((0, false));
            proof {
                let np = p.push(Seq::<char>::empty());
                assert(pieces(t) == np);
                assert forall|j: int| 0 <= j < out@.len() implies (#[trigger] out@[j]).0 as int
                    == shapes(t)[j].0 && out@[j].1 == shapes(t)[j].1 by {
                    if j < before.len() {
                        assert(np[j] == p[j]);
                    }
                }
            }
        } else {
            let last = out.len() - 1;
            let (n, _) = out[last];
            out.set(last, (n + 1, c == '\r'));
            proof {
                let np = p.update(p.len() - 1, p.last().push(c));
                assert(pieces(t) == np);
                assert forall|j: int| 0 <= j < out@.len() implies (#[trigger] out@[j]).0 as int
                    == shapes(t)[j].0 && out@[j].1 == shapes(t)[j].1 by {
                    if j < before.len() - 1 {
                        assert(np[j] == p[j]);
                    } else {
                        assert(np[j] == p.last().push(c));
                    }
                }
            }
        }
        i = i + 1;
    }
    proof {
        assert(s@.take(chars@.len() as int) =~= s@);
    }
    out
}

/// The height and width of the bubble that shows `text`, sent by `sender` at `time`, in a chat
/// area `area_width` wide.
pub fn bubble_size(text: &str, sender: &str, time: &str, area_width: u16) -> (r: (u16, u16))
    requires
        bubble_fits(area_width),
    ensures
        r.0 as int == bubble_height(text@, sender@, time@, area_width),
        r.1 as int == bubble_width(text@, sender@, time@, area_width),
{
    let available: u16 = if area_width > 1 {
        area_width - 1
    } else {
        1
    };
    let tripled: u16 = if available as u32 * 3 > u16::MAX as u32 {
        u16::MAX
    } else {
        available * 3
    };
    let quarter: u16 = ((tripled as u32 + 3) / 4) as u16;
    let max_width: u16 = if quarter > 1 {
        quarter
    } else {
        1
    };
    let title: usize = chars_of(sender).len().saturating_add(chars_of(time).len()).saturating_add(5);
    let shapes_v = text_shapes(text);
    let ghost sh = shapes(text@);
    let n = shapes_v.len();
    let mut longest: usize = 0;
    let mut k: usize = 0;
    proof {
        lemma_pieces_nonempty(text@);
    }
    while k + 1 < n
        invariant
            n == shapes_v@.len(),
            n == sh.len(),
            n >= 1,
            sh == shapes(text@),
            n <= text@.len() + 1,
            k + 1 <= n,
            forall|j: int|
                0 <= j < n ==> (#[trigger] shapes_v@[j]).0 as int == sh[j].0 && shapes_v@[j].1
                    == sh[j].1,
            forall|j: int| 0 <= j < n ==> 0 <= #[trigger] sh[j].0 <= text@.len(),
            longest as int == longest_upto(sh, k as int),
            longest <= text@.len(),
        decreases n - k,
    {
        let (len, cr) = shapes_v[k];
        let line: usize = if cr && len > 0 {
            len - 1
        } else {
            len
        };
        assert(ended_line_len(sh[k as int]) == line as int);
        if line > longest {
            longest = line;
        }
        k = k + 1;
    }
    let empty = chars_of(text).len() == 0;
    let ends_newline = if empty {
        false
    } else {
        let cs = chars_of(text);
        cs[cs.len() - 1] == '\n'
    };
    let longest_line_len: usize = if empty {
        1
    } else if ends_newline {
        longest
    } else {
        let (last_len, _) = shapes_v[n - 1];
        if last_len > longest {
            last_len
        } else {
            longest
        }
    };
    let widest: usize = if longest_line_len > title {
        longest_line_len
    } else {
        title
    };
    let wanted: usize = widest.saturating_add(4);
    let desired0: u16 = if wanted <= u16::MAX as usize {
        wanted as u16
    } else {
        max_width
    };
    let low: u16 = if 12 < available {
        12
    } else {
        available
    };
    let high: u16 = if max_width < available {
        max_width
    } else {
        available
    };
    let desired: u16 = if desired0 < low {
        low
    } else if desired0 > high {
        high
    } else {
        desired0
    };
    assert(desired as int == bubble_width(text@, sender@, time@, area_width));
    let inner: u64 = if desired > 5 {
        (desired - 4) as u64
    } else {
        1
    };
    let mut rows: u64 = 0;
    let mut j: usize = 0;
    while j < n
        invariant
            n == shapes_v@.len(),
            n == sh.len(),
            sh == shapes(text@),
            inner >= 1,
            forall|q: int|
                0 <= q < n ==> (#[trigger] shapes_v@[q]).0 as int == sh[q].0 && shapes_v@[q].1
                    == sh[q].1,
            forall|q: int| 0 <= q < n ==> 0 <= #[trigger] sh[q].0,
            rows as int == min_int(rows_upto(sh, j as int, inner as int), u64::MAX as int),
            0 <= rows_upto(sh, j as int, inner as int),
            j <= n,
            inner <= 65535,
        decreases n - j,
    {
        let (len, _) = shapes_v[j];
        let at_least_one: u64 = if len > 1 {
            len as u64
        } else {
            1
        };
        let add: u64 = (at_least_one - 1) / inner + 1;
        assert(add as int == (at_least_one + inner - 1) as int / inner as int) by (nonlinear_arith)
            requires
                inner >= 1,
                at_least_one >= 1,
                add as int == (at_least_one - 1) as int / inner as int + 1,
        ;
        assert(add >= 1);
        rows = rows.saturating_add(add);
        j = j + 1;
    }
    let content: u64 = if rows > 1 {
        rows
    } else {
        1
    };
    let total = content.saturating_add(2);
    let height: u16 = if total <= u16::MAX as u64 {
        total as u16
    } else {
        u16::MAX
    };
    (height, desired)
}

} // verus!
