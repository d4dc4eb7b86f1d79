use vstd::prelude::*;

verus! {

/// The empty rows between two bubbles: one, or none when messages are compact.
pub open spec fn gap_of(compact: bool) -> int {
    if compact {
        0
    } else {
        1
    }
}

/// The sum of the heights.
pub open spec fn total(h: Seq<u16>) -> int
    decreases h.len(),
{
    if h.len() == 0 {
        0
    } else {
        total(h.drop_last()) + h.last()
    }
}

/// The empty rows between `count` bubbles.
pub open spec fn gaps(count: int, compact: bool) -> int {
    if compact || count <= 0 {
        0
    } else {
        count - 1
    }
}

/// How many bubbles, from the oldest, fill the first page of `available` rows: bubble `i` is
/// taken unless it no longer fits below the ones before it (the first is always taken), and the
/// page ends once it is full; `height` is what the bubbles taken so far use.
pub open spec fn page_count(h: Seq<u16>, available: int, gap: int, i: nat, height: int) -> nat
    decreases h.len() - i,
{
    if i >= h.len() {
        i
    } else {
        let required = h[i as int] + if i > 0 {
            gap
        } else {
            0
        };
        if i > 0 && height + required > available {
            i
        } else if height + required >= available {
            i + 1
        } else {
            page_count(h, available, gap, i + 1, height + required)
        }
    }
}

/// The first shown bubble, and the rows the shown ones use, when the page ends with bubble
/// `end - 1`: bubbles are taken from there back while they fit above the later ones (the last is
/// always taken), until the page is full; `s` is the first bubble taken so far and `height`
/// what the taken ones use.
pub open spec fn window_from(h: Seq<u16>, available: int, gap: int, end: nat, s: nat, height: int) -> (nat, int)
    decreases s,
{
    if s == 0 {
        (s, height)
    } else {
        let required = h[s - 1] + if s < end {
            gap
        } else {
            0
        };
        if s < end && height + required > available {
            (s, height)
        } else if height + required >= available {
            ((s - 1) as nat, height + required)
        } else {
            window_from(h, available, gap, end, (s - 1) as nat, height + required)
        }
    }
}

/// Which messages of a conversation are shown, and how far it can scroll, in messages.
pub struct ChatWindow {
    /// How many of the newest messages can be scrolled past: all but those of the first page.
    pub max_scroll: usize,
    /// The first shown message.
    pub start: usize,
    /// One past the last shown message.
    pub end: usize,
    /// The rows the shown bubbles use, the rows between them included.
    pub visible_height: usize,
    /// The rows all bubbles would use.
    pub total_height: usize,
    /// The row, within all bubbles, at which the shown ones begin.
    pub top_line: usize,
}

/// The window on bubbles of heights `h` in an area of `available` rows, scrolled past `scroll`
/// of the newest messages.
pub open spec fn window_fits(w: ChatWindow, h: Seq<u16>, available: int, compact: bool, scroll: int) -> bool {
    let gap = gap_of(compact);
    let first_page = page_count(h, available, gap, 0, 0);
    let end = h.len() - (if scroll < h.len() - first_page {
        scroll
    } else {
        h.len() - first_page
    });
    let shown = window_from(h, available, gap, end as nat, end as nat, 0);
    &&& w.max_scroll == h.len() - first_page
    &&& w.end == end
    &&& w.start == shown.0
    &&& w.visible_height == shown.1
    &&& w.total_height == total(h) + gaps(h.len() as int, compact)
    &&& w.top_line == total(h.take(shown.0 as int)) + gaps(shown.0 as int, compact)
}

proof fn lemma_page_count_bounds(h: Seq<u16>, available: int, gap: int, i: nat, height: int)
    requires
        i <= h.len(),
    ensures
        i <= page_count(h, available, gap, i, height) <= h.len(),
    decreases h.len() - i,
{
    if i < h.len() {
        let required = h[i as int] + if i > 0 {
            gap
        } else {
            0
        };
        lemma_page_count_bounds(h, available, gap, i + 1, height + required);
    }
}

proof fn lemma_page_step(h: Seq<u16>, available: int, gap: int, i: nat, height: int)
    requires
        i < h.len(),
    ensures
        ({
            let required = h[i as int] + if i > 0 {
                gap
            } else {
                0
            };
            page_count(h, available, gap, i, height) == if i > 0 && height + required > available {
                i
            } else if height + required >= available {
                i + 1
            } else {
                page_count(h, available, gap, i + 1, height + required)
            }
        }),
{
}

proof fn lemma_window_step(h: Seq<u16>, available: int, gap: int, end: nat, s: nat, height: int)
    requires
        0 < s,
    ensures
        ({
            let required = h[s - 1] + if s < end {
                gap
            } else {
                0
            };
            window_from(h, available, gap, end, s, height) == if s < end && height + required > available {
                (s, height)
            } else if height + required >= available {
                ((s - 1) as nat, height + required)
            } else {
                window_from(h, available, gap, end, (s - 1) as nat, height + required)
            }
        }),
{
}

proof fn lemma_total_step(h: Seq<u16>, i: int)
    requires
        0 <= i < h.len(),
    ensures
        total(h.take(i + 1)) == total(h.take(i)) + h[i],
{
    assert(h.take(i + 1).drop_last() =~= h.take(i));
}

proof fn lemma_total_take_mono(h: Seq<u16>, i: int, j: int)
    requires
        0 <= i <= j <= h.len(),
    ensures
        total(h.take(i)) <= total(h.take(j)),
    decreases j - i,
{
    if i < j {
        lemma_total_step(h, j - 1);
        lemma_total_take_mono(h, i, j - 1);
    }
}

proof fn lemma_total_take_bound(h: Seq<u16>, i: int)
    requires
        0 <= i <= h.len(),
    ensures
        total(h.take(i)) <= total(h),
{
    lemma_total_take_mono(h, i, h.len() as int);
    assert(h.take(h.len() as int) =~= h);
}

/// The sum of the first `upto` heights.
fn sum_heights(heights: &Vec<u16>, upto: usize) -> (r: usize)
    requires
        upto <= heights@.len(),
        total(heights@) <= usize::MAX,
    ensures
        r == total(heights@.take(upto as int)),
{
    let mut sum: usize = 0;
    let mut i: usize = 0;
    assert(heights@.take(0) =~= Seq::<u16>::empty());
    while i < upto
        invariant
            i <= upto <= heights@.len(),
            total(heights@) <= usize::MAX,
            sum == total(heights@.take(i as int)),
        decreases upto - i,
    {
        proof {
            lemma_total_step(heights@, i as int);
            lemma_total_take_bound(heights@, i + 1);
        }
        sum = sum + heights[i] as usize;
        i = i + 1;
    }
    sum
}

/// Which of the messages, whose bubbles are `heights` rows high, a conversation of `available`
/// rows shows when scrolled past `scroll` of its newest messages; `compact` leaves no row
/// between bubbles.
pub fn chat_window(heights: &Vec<u16>, available: usize, compact: bool, scroll: usize) -> (w: ChatWindow)
    requires
        total(heights@) + gaps(heights@.len() as int, compact) <= usize::MAX,
    ensures
        window_fits(w, heights@, available as int, compact, scroll as int),
{
    let ghost h = heights@;
    let ghost av = available as int;
    let gap: usize = if compact {
        0
    } else {
        1
    };
    let n = heights.len();
    let mut count: usize = 0;
    let mut height: usize = 0;
    let mut full = false;
    while !full && count < n
        invariant
            n == h.len(),
            h == heights@,
            total(h) + gaps(h.len() as int, compact) <= usize::MAX,
            gap as int == gap_of(compact),
            av == available as int,
            count <= n,
            height as int == total(h.take(count as int)) + gaps(count as int, compact),
            full ==> page_count(h, av, gap as int, 0, 0) == count,
            !full ==> page_count(h, av, gap as int, 0, 0) == page_count(
                h,
                av,
                gap as int,
                count as nat,
                height as int,
            ),
        decreases n - count + if full {
            0int
        } else {
            1int
        },
    {
        let required: usize = heights[count] as usize + if count > 0 {
            gap
        } else {
            0
        };
        proof {
            lemma_page_step(h, av, gap as int, count as nat, height as int);
            lemma_total_step(h, count as int);
            lemma_total_take_bound(h, count + 1);
        }
        if count > 0 && height + required > available {
            full = true;
        } else {
            count = count + 1;
            height = height + required;
            if height >= available {
                full = true;
            }
        }
    }
    proof {
        lemma_page_count_bounds(h, av, gap as int, 0, 0);
    }
    let max_scroll = n - count;
    let effective = if scroll < max_scroll {
        scroll
    } else {
        max_scroll
    };
    let end = n - effective;
    let mut s = end;
    let mut shown: usize = 0;
    let mut filled = false;
    while !filled && s > 0
        invariant
            n == h.len(),
            h == heights@,
            total(h) + gaps(h.len() as int, compact) <= usize::MAX,
            gap as int == gap_of(compact),
            av == available as int,
            s <= end <= n,
            shown as int == total(h.take(end as int)) - total(h.take(s as int)) + gaps(
                end - s,
                compact,
            ),
            filled ==> window_from(h, av, gap as int, end as nat, end as nat, 0) == (s as nat, shown as int),
            !filled ==> window_from(h, av, gap as int, end as nat, end as nat, 0) == window_from(
                h,
                av,
                gap as int,
                end as nat,
                s as nat,
                shown as int,
            ),
        decreases s + if filled {
            0int
        } else {
            1int
        },
    {
        let required: usize = heights[s - 1] as usize + if s < end {
            gap
        } else {
            0
        };
        proof {
            lemma_window_step(h, av, gap as int, end as nat, s as nat, shown as int);
            lemma_total_step(h, s - 1);
            lemma_total_take_bound(h, end as int);
            lemma_total_take_mono(h, s - 1, end as int);
            lemma_total_take_mono(h, 0, s - 1);
            assert(h.take(0) =~= Seq::<u16>::empty());
            assert(shown + required == total(h.take(end as int)) - total(h.take(s - 1)) + gaps(
                end - s + 1,
                compact,
            ));
            assert(gaps(end - s + 1, compact) <= gaps(h.len() as int, compact));
        }
        if s < end && shown + required > available {
            filled = true;
        } else {
            s = s - 1;
            shown = shown + required;
            if shown >= available {
                filled = true;
            }
        }
    }
    let all = sum_heights(heights, n);
    assert(h.take(n as int) =~= h);
    let before = sum_heights(heights, s);
    proof {
        lemma_total_take_bound(h, s as int);
    }
    let total_height = if compact || n == 0 {
        all
    } else {
        all + (n - 1)
    };
    let top_line = if compact || s == 0 {
        before
    } else {
        before + (s - 1)
    };
    ChatWindow { max_scroll, start: s, end, visible_height: shown, total_height, top_line }
}

/// Where the shown bubbles go, from row `y` down: each is cut to the rows left above `bottom`,
/// one with no row left is not drawn, and `gap` rows follow each drawn one.
pub open spec fn placed(h: Seq<u16>, gap: int, bottom: u16, y: u16) -> Seq<Option<(u16, u16)>>
    decreases h.len(),
{
    if h.len() == 0 {
        seq![]
    } else {
        let room: int = if bottom > y {
            bottom - y
        } else {
            0
        };
        let height: int = if h[0] < room {
            h[0] as int
        } else {
            room
        };
        if height == 0 {
            seq![None].add(placed(h.drop_first(), gap, bottom, y))
        } else {
            let next: int = if y + height + gap > u16::MAX {
                u16::MAX as int
            } else {
                y + height + gap
            };
            seq![Some((y, height as u16))].add(placed(h.drop_first(), gap, bottom, next as u16))
        }
    }
}

/// The row where the first shown bubble starts: as far above `bottom` as the shown bubbles
/// need, within the area's `area_height` rows.
pub open spec fn first_row(bottom: u16, area_height: u16, visible_height: int) -> u16 {
    let wanted: int = if visible_height <= u16::MAX as int {
        if visible_height < area_height {
            visible_height
        } else {
            area_height as int
        }
    } else {
        area_height as int
    };
    if bottom >= wanted {
        (bottom - wanted) as u16
    } else {
        0
    }
}

/// Where the bubbles `start..end` of `heights` are drawn above `bottom` in an area of
/// `area_height` rows, when they use `visible_height` rows: for each, its first row and height,
/// or `None` when no row is left for it.
pub fn bubble_rows(
    heights: &Vec<u16>,
    start: usize,
    end: usize,
    compact: bool,
    bottom: u16,
    area_height: u16,
    visible_height: usize,
) -> (r: Vec<Option<(u16, u16)>>)
    requires
        start <= end <= heights@.len(),
    ensures
        r@ == placed(
            heights@.subrange(start as int, end as int),
            gap_of(compact),
            bottom,
            first_row(bottom, area_height, visible_height as int),
        ),
{
    let gap: u16 = if compact {
        0
    } else {
        1
    };
    let wanted: u16 = if visible_height <= 65535 {
        if (visible_height as u16) < area_height {
            visible_height as u16
        } else {
            area_height
        }
    } else {
        area_height
    };
    let mut y: u16 = if bottom >= wanted {
        bottom - wanted
    } else {
        0
    };
    let ghost all = heights@.subrange(start as int, end as int);
    let mut out: Vec<Option<(u16, u16)>> = Vec::new();
    let mut i = start;
    assert(all =~= heights@.subrange(i as int, end as int));
    while i < end
        invariant
            start <= i <= end <= heights@.len(),
            gap as int == gap_of(compact),
            all == heights@.subrange(start as int, end as int),
            out@ + placed(heights@.subrange(i as int, end as int), gap as int, bottom, y) == placed(
                all,
                gap as int,
                bottom,
                first_row(bottom, area_height, visible_height as int),
            ),
        decreases end - i,
    {
        let ghost rest = heights@.subrange(i as int, end as int);
        assert(rest.drop_first() =~= heights@.subrange(i + 1, end as int));
        let room: u16 = if bottom > y {
            bottom - y
        } else {
            0
        };
        let height: u16 = if heights[i] < room {
            heights[i]
        } else {
            room
        };
        let ghost before = out@;
        if height == 0 {
            out.push(None);
            assert(out@ + placed(heights@.subrange(i + 1, end as int), gap as int, bottom, y) =~= before
                + placed(rest, gap as int, bottom, y));
        } else {
            let next: u16 = if y as u32 + height as u32 + gap as u32 > 65535 {
                65535
            } else {
                y + height + gap
            };
            out.push(Some((y, height)));
            assert(out@ + placed(heights@.subrange(i + 1, end as int), gap as int, bottom, next)
                =~= before + placed(rest, gap as int, bottom, y));
            y = next;
        }
        i = i + 1;
    }
    assert(placed(heights@.subrange(end as int, end as int), gap as int, bottom, y) =~= Seq::<
        Option<(u16, u16)>,
    >::empty());
    assert(out@ =~= out@ + Seq::<Option<(u16, u16)>>::empty());
    out
}

/// `a * b`, or the largest `usize` when that is larger.
pub open spec fn saturated_product(a: int, b: int) -> int {
    if a * b > usize::MAX {
        usize::MAX as int
    } else {
        a * b
    }
}

/// The scroll bar's thumb, as its first row and its height on a track of `track` rows, for
/// `content` rows of which `viewport` are shown from `top_line` on; none when everything is
/// shown or there is no track.
pub open spec fn thumb_of(content: int, viewport: int, track: int, top_line: int) -> Option<(int, int)> {
    if track == 0 || content <= viewport {
        None
    } else {
        let minimum = if track < 2 {
            track
        } else {
            2
        };
        let product = saturated_product(viewport, track);
        let raw = product / content + if product % content != 0 {
            1int
        } else {
            0
        };
        let wanted = if raw < minimum {
            minimum
        } else {
            raw
        };
        let height = if wanted < track {
            wanted
        } else {
            track
        };
        let max_top = content - viewport;
        let travel = track - height;
        let shown_top = if top_line < max_top {
            top_line
        } else {
            max_top
        };
        Some((saturated_product(shown_top, travel) / max_top, height))
    }
}

fn saturating_product(a: usize, b: usize) -> (r: usize)
    ensures
        r == saturated_product(a as int, b as int),
{
    match a.checked_mul(b) {
        Some(p) => p,
        None => usize::MAX,
    }
}

/// Where the scroll bar of a conversation puts its thumb: its first row and height on a track
/// of `track` rows, for `content` rows of which `viewport` are shown from `top_line` on; `None`
/// when everything is shown or there is no track.
pub fn scrollbar_thumb(content: usize, viewport: usize, track: usize, top_line: usize) -> (r: Option<(usize, usize)>)
    ensures
        match r {
            Some((offset, height)) => thumb_of(content as int, viewport as int, track as int, top_line as int)
                == Some((offset as int, height as int)),
            None => thumb_of(content as int, viewport as int, track as int, top_line as int) is None,
        },
{
    if track == 0 || content <= viewport {
        return None;
    }
    let minimum: usize = if track < 2 {
        track
    } else {
        2
    };
    let product = saturating_product(viewport, track);
    assert(product % content != 0 ==> product / content < usize::MAX) by (nonlinear_arith)
        requires
            content >= 1,
            product <= usize::MAX,
    {
        if content >= 2 && product % content != 0 {
            assert(product / content <= product / 2);
        }
    }
    let raw: usize = if product % content != 0 {
        product / content + 1
    } else {
        product / content
    };
    let wanted = if raw < minimum {
        minimum
    } else {
        raw
    };
    let height = if wanted < track {
        wanted
    } else {
        track
    };
    let max_top = content - viewport;
    let travel = track - height;
    let shown_top = if top_line < max_top {
        top_line
    } else {
        max_top
    };
    let offset = saturating_product(shown_top, travel) / max_top;
    Some((offset, height))
}

/// The rows that bubbles `from..to` use, with the rows between them.
pub open spec fn rows_of(h: Seq<u16>, compact: bool, from: int, to: int) -> int {
    total(h.subrange(from, to)) + gaps(to - from, compact)
}

proof fn lemma_total_split(h: Seq<u16>, s: int, e: int)
    requires
        0 <= s <= e <= h.len(),
    ensures
        total(h.take(e)) == total(h.take(s)) + total(h.subrange(s, e)),
        total(h.subrange(s, e)) >= 0,
    decreases e - s,
{
    if e > s {
        lemma_total_split(h, s, e - 1);
        lemma_total_step(h, e - 1);
        assert(h.subrange(s, e).drop_last() =~= h.subrange(s, e - 1));
    } else {
        assert(h.subrange(s, e) =~= Seq::<u16>::empty());
    }
}

proof fn lemma_total_positive(h: Seq<u16>, s: int)
    requires
        0 <= s <= h.len(),
        forall|i: int| 0 <= i < h.len() ==> h[i] > 0,
    ensures
        total(h.take(s)) >= s,
    decreases s,
{
    if s > 0 {
        lemma_total_positive(h, s - 1);
        lemma_total_step(h, s - 1);
    }
}

/// The first page is never fuller than the area, unless it holds a single bubble.
proof fn lemma_first_page_fits(h: Seq<u16>, available: int, compact: bool, i: nat, height: int)
    requires
        i <= h.len(),
        height == rows_of(h, compact, 0, i as int),
        i >= 2 ==> height <= available,
        i >= 1 ==> height < available,
    ensures
        ({
            let k = page_count(h, available, gap_of(compact), i, height);
            k >= 2 ==> rows_of(h, compact, 0, k as int) <= available
        }),
    decreases h.len() - i,
{
    if i < h.len() {
        let required = h[i as int] + if i > 0 {
            gap_of(compact)
        } else {
            0
        };
        lemma_total_step(h, i as int);
        assert(h.subrange(0, i as int) =~= h.take(i as int));
        assert(h.subrange(0, i + 1 as int) =~= h.take(i + 1 as int));
        assert(rows_of(h, compact, 0, i + 1 as int) == height + required);
        if i > 0 && height + required > available {
        } else if height + required >= available {
        } else {
            lemma_first_page_fits(h, available, compact, i + 1, height + required);
        }
    } else {
        assert(page_count(h, available, gap_of(compact), i, height) == i);
    }
}

/// Taking bubbles back from the end of a page that fits, the first bubble is reached.
proof fn lemma_window_reaches_first(h: Seq<u16>, available: int, compact: bool, end: nat, s: nat, height: int)
    requires
        end <= h.len(),
        s <= end,
        forall|i: int| 0 <= i < h.len() ==> h[i] > 0,
        end >= 2 ==> rows_of(h, compact, 0, end as int) <= available,
        s < end ==> height < available,
        height == rows_of(h, compact, s as int, end as int),
    ensures
        window_from(h, available, gap_of(compact), end, s, height).0 == 0,
    decreases s,
{
    if s > 0 {
        let required = h[s - 1] + if s < end {
            gap_of(compact)
        } else {
            0
        };
        lemma_total_split(h, (s - 1) as int, end as int);
        lemma_total_split(h, 0, end as int);
        lemma_total_split(h, 0, (s - 1) as int);
        lemma_total_step(h, (s - 1) as int);
        assert(h.subrange(0, end as int) =~= h.take(end as int));
        assert(total(h.take(s as int)) == total(h.take(s - 1)) + h[s - 1]);
        lemma_total_split(h, (s - 1) as int, s as int);
        lemma_total_split(h, s as int, end as int);
        lemma_total_split(h, 0, s as int);
        assert(h.subrange((s - 1) as int, s as int) =~= seq![h[s - 1]]);
        assert(seq![h[s - 1]].drop_last() =~= Seq::<u16>::empty());
        assert(total(h.subrange((s - 1) as int, end as int)) == h[s - 1] + total(
            h.subrange(s as int, end as int),
        ));
        assert(height + required == rows_of(h, compact, (s - 1) as int, end as int));
        if s - 1 > 0 {
            lemma_total_positive(h, (s - 1) as int);
            assert(rows_of(h, compact, (s - 1) as int, end as int) < rows_of(h, compact, 0, end as int));
        }
        if s < end && height + required > available {
            assert(false);
        } else if height + required >= available {
            assert(s - 1 == 0);
        } else {
            lemma_window_reaches_first(h, available, compact, end, (s - 1) as nat, height + required);
        }
    }
}

/// Scrolling a conversation up as far as it goes shows its first message: the messages that
/// can be scrolled past are exactly those after the first page. (Bubbles are at least one row
/// high.)
pub proof fn lemma_scrolled_to_the_top_shows_the_first_message(
    w: ChatWindow,
    h: Seq<u16>,
    available: int,
    compact: bool,
    scroll: int,
)
    requires
        window_fits(w, h, available, compact, scroll),
        scroll >= w.max_scroll,
        forall|i: int| 0 <= i < h.len() ==> h[i] > 0,
    ensures
        w.start == 0,
{
    let g = gap_of(compact);
    lemma_page_count_bounds(h, available, g, 0, 0);
    assert(h.subrange(0, 0) =~= Seq::<u16>::empty());
    lemma_first_page_fits(h, available, compact, 0, 0);
    let k = page_count(h, available, g, 0, 0);
    assert(w.end == k);
    assert(h.subrange(k as int, k as int) =~= Seq::<u16>::empty());
    lemma_window_reaches_first(h, available, compact, k, k, 0);
}

} // verus!
