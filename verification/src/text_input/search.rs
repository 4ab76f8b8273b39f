//! From a horizontal offset to the caret index nearest to it.
use crate::font::Font;
use crate::text_input::renderer::{measures, Renderer};
use crate::text_input::value::{clamped, Value};
use vstd::prelude::*;

verus! {

/// The width of the first `n` of the clusters, or of all of them where `n`
/// lies beyond the end.
pub open spec fn prefix_width(
    width: spec_fn(Seq<char>, u16, Font) -> u32,
    clusters: Seq<Seq<char>>,
    n: int,
    size: u16,
    font: Font,
) -> int {
    width(clusters.take(clamped(n, clusters.len() as int)).flatten(), size, font) as int
}

/// Where the bisection of the window from `start` to `end` comes to rest.
///
/// Each step measures the prefix that ends in the middle of the window. A
/// prefix wider than `target` leaves the half before the middle, any other
/// the half after it.
pub open spec fn bisected(
    width: spec_fn(Seq<char>, u16, Font) -> u32,
    target: int,
    clusters: Seq<Seq<char>>,
    size: u16,
    start: int,
    end: int,
    font: Font,
) -> int
    decreases end - start,
{
    if start >= end {
        start
    } else {
        let middle = start + (end - start) / 2;
        if prefix_width(width, clusters, middle, size, font) > target {
            bisected(width, target, clusters, size, start, middle, font)
        } else {
            bisected(width, target, clusters, size, middle + 1, end, font)
        }
    }
}

/// Of the caret places `at - 1` and `at`, the one whose prefix ends nearer to
/// `target`; `at` where both are as near, and where `at` is 0.
pub open spec fn nearer(
    width: spec_fn(Seq<char>, u16, Font) -> u32,
    target: int,
    clusters: Seq<Seq<char>>,
    size: u16,
    at: int,
    font: Font,
) -> int {
    if at == 0 {
        0
    } else {
        let prev_width = prefix_width(width, clusters, at - 1, size, font);
        let next_width = prefix_width(width, clusters, at, size, font);
        if next_width - target > target - prev_width {
            at - 1
        } else {
            at
        }
    }
}

/// Finds the caret index for the horizontal offset `target` by bisection of
/// the window from `start` to `end`.
///
/// Whatever the renderer answers, the index lies in the window or just
/// before it. Where the renderer measures as `width` tells, the index is the
/// one that the bisection and the choice between its two neighbors give for
/// `width`.
pub fn find_cursor_position<R: Renderer>(
    renderer: &R,
    target: i64,
    value: &Value,
    size: u16,
    start: usize,
    end: usize,
    font: Font,
) -> (index: usize)
    ensures
        start <= index + 1,
        index <= start || index <= end,
        forall|width: spec_fn(Seq<char>, u16, Font) -> u32| #[trigger]
            measures(renderer, width) ==> index == nearer(
                width,
                target as int,
                value@,
                size,
                bisected(width, target as int, value@, size, start as int, end as int, font),
                font,
            ),
    decreases end - start,
{
    if start >= end {
        if start == 0 {
            return 0;
        }
        let prev = value.until(start - 1);
        let next = value.until(start);
        let prev_width = renderer.measure_value(prev.to_string().as_str(), size, font);
        let next_width = renderer.measure_value(next.to_string().as_str(), size, font);
        if next_width as i128 - target as i128 > target as i128 - prev_width as i128 {
            return start - 1;
        } else {
            return start;
        }
    }
    let index = (end - start) / 2;
    let subvalue = value.until(start + index);
    let width = renderer.measure_value(subvalue.to_string().as_str(), size, font);
    if width as i64 > target {
        find_cursor_position(renderer, target, value, size, start, start + index, font)
    } else {
        find_cursor_position(renderer, target, value, size, start + index + 1, end, font)
    }
}

/// Whether no prefix of the clusters is wider than a longer one.
pub open spec fn widths_never_shrink(
    width: spec_fn(Seq<char>, u16, Font) -> u32,
    clusters: Seq<Seq<char>>,
    size: u16,
    font: Font,
) -> bool {
    forall|i: int, j: int|
        0 <= i <= j <= clusters.len() ==> #[trigger] prefix_width(
            width,
            clusters,
            i,
            size,
            font,
        ) <= #[trigger] prefix_width(width, clusters, j, size, font)
}

/// How far `width` lies from `target`.
pub open spec fn distance(width: int, target: int) -> int {
    if width >= target {
        width - target
    } else {
        target - width
    }
}

/// Where widths never shrink, the bisection comes to rest on the first
/// prefix that is wider than `target`: no prefix before that place is wider,
/// every prefix from it on, short of the whole value, is.
pub proof fn lemma_bisected_splits(
    width: spec_fn(Seq<char>, u16, Font) -> u32,
    target: int,
    clusters: Seq<Seq<char>>,
    size: u16,
    start: int,
    end: int,
    font: Font,
)
    requires
        widths_never_shrink(width, clusters, size, font),
        0 <= start <= end <= clusters.len(),
        forall|i: int|
            0 <= i < start ==> #[trigger] prefix_width(width, clusters, i, size, font) <= target,
        forall|i: int|
            end <= i < clusters.len() ==> #[trigger] prefix_width(width, clusters, i, size, font)
                > target,
    ensures
        start <= bisected(width, target, clusters, size, start, end, font) <= end,
        forall|i: int|
            0 <= i < bisected(width, target, clusters, size, start, end, font)
                ==> #[trigger] prefix_width(width, clusters, i, size, font) <= target,
        forall|i: int|
            bisected(width, target, clusters, size, start, end, font) <= i < clusters.len()
                ==> #[trigger] prefix_width(width, clusters, i, size, font) > target,
    decreases end - start,
{
    if start < end {
        let middle = start + (end - start) / 2;
        if prefix_width(width, clusters, middle, size, font) > target {
            lemma_bisected_splits(width, target, clusters, size, start, middle, font);
        } else {
            lemma_bisected_splits(width, target, clusters, size, middle + 1, end, font);
        }
    }
}

/// Where widths never shrink, the search over the whole value finds a caret
/// place whose prefix ends as near to `target` as that of any `other`
/// place.
pub proof fn lemma_search_finds_nearest(
    width: spec_fn(Seq<char>, u16, Font) -> u32,
    target: int,
    clusters: Seq<Seq<char>>,
    size: u16,
    font: Font,
    other: int,
)
    requires
        widths_never_shrink(width, clusters, size, font),
        0 <= other <= clusters.len(),
    ensures
        ({
            let rest = bisected(width, target, clusters, size, 0, clusters.len() as int, font);
            let found = nearer(width, target, clusters, size, rest, font);
            &&& 0 <= found <= clusters.len()
            &&& distance(prefix_width(width, clusters, found, size, font), target) <= distance(
                prefix_width(width, clusters, other, size, font),
                target,
            )
        }),
{
    let len = clusters.len() as int;
    lemma_bisected_splits(width, target, clusters, size, 0, len, font);
    let rest = bisected(width, target, clusters, size, 0, len, font);
    // The prefixes that the choice weighs, and the whole value, bound the
    // width at `other` from one side or the other.
    let whole = prefix_width(width, clusters, len, size, font);
    if rest > 0 {
        let prev_width = prefix_width(width, clusters, rest - 1, size, font);
        let next_width = prefix_width(width, clusters, rest, size, font);
        assert(prev_width <= next_width <= whole);
    }
}

/// Where widths never shrink, the search for the width of the first `k`
/// clusters comes back to `k` or to the place after it, unless the place
/// two after `k` is no farther to the right than `k` itself.
pub proof fn lemma_search_returns_to_boundary(
    width: spec_fn(Seq<char>, u16, Font) -> u32,
    clusters: Seq<Seq<char>>,
    size: u16,
    font: Font,
    k: int,
)
    requires
        widths_never_shrink(width, clusters, size, font),
        0 <= k <= clusters.len(),
        k + 2 <= clusters.len() ==> prefix_width(width, clusters, k + 2, size, font)
            > prefix_width(width, clusters, k, size, font),
    ensures
        ({
            let target = prefix_width(width, clusters, k, size, font);
            let rest = bisected(width, target, clusters, size, 0, clusters.len() as int, font);
            let found = nearer(width, target, clusters, size, rest, font);
            k <= found <= k + 1
        }),
{
    let len = clusters.len() as int;
    let target = prefix_width(width, clusters, k, size, font);
    lemma_bisected_splits(width, target, clusters, size, 0, len, font);
}

} // verus!
