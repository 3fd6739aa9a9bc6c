//! Hint-grid planning: every two-character label over the hint alphabet gets
//! a point of an evenly spaced grid, in row-major order.
use vstd::prelude::*;

use crate::text::{push_char, starts_with, str_eq};

verus! {

/// A labelled point of the hint overlay.
#[derive(Clone, Debug)]
pub struct HintPoint {
    pub x: i32,
    pub y: i32,
    pub label: String,
}

/// `x` is the least natural number whose square times `den` reaches `num`.
pub open spec fn is_ceil_root(x: int, num: int, den: int) -> bool {
    &&& x >= 0
    &&& x * x * den >= num
    &&& (x == 0 || (x - 1) * (x - 1) * den < num)
}

/// The ceiling of the square root of `num / den`.
pub open spec fn ceil_root(num: int, den: int) -> int {
    choose|x: int| is_ceil_root(x, num, den)
}

/// Columns of the grid: the ceiling of the square root of `total * width / height`.
pub open spec fn grid_cols(total: int, width: int, height: int) -> int {
    ceil_root(total * width, height)
}

/// Rows of the grid: the ceiling of the square root of `total * height / width`.
pub open spec fn grid_rows(total: int, width: int, height: int) -> int {
    ceil_root(total * height, width)
}

/// The label of hint `k` over an alphabet: its two base-`n` digits.
pub open spec fn label_of(chars: Seq<char>, k: int) -> Seq<char> {
    seq![chars[k / chars.len() as int], chars[k % chars.len() as int]]
}

/// `hints` is the grid for `chars` on a `width` by `height` canvas: one point
/// per label, labels in order, hint `k` in row `k / cols` and column
/// `k % cols`, with rows and columns spaced evenly.
pub open spec fn is_hint_grid(hints: Seq<HintPoint>, chars: Seq<char>, width: int, height: int) -> bool {
    let n = chars.len() as int;
    let cols = grid_cols(n * n, width, height);
    let rows = grid_rows(n * n, width, height);
    &&& hints.len() == n * n
    &&& forall|k: int|
        0 <= k < n * n ==> {
            &&& (#[trigger] hints[k]).label@ == label_of(chars, k)
            &&& hints[k].x == (k % cols + 1) * (width / (cols + 1))
            &&& hints[k].y == (k / cols + 1) * (height / (rows + 1))
        }
}

proof fn lemma_ceil_root_unique(x: int, num: int, den: int)
    requires
        is_ceil_root(x, num, den),
        den > 0,
    ensures
        ceil_root(num, den) == x,
{
    let y = ceil_root(num, den);
    assert(is_ceil_root(y, num, den));
    if y < x {
        assert((x - 1) * (x - 1) * den >= y * y * den) by (nonlinear_arith)
            requires
                0 <= y <= x - 1,
                den > 0,
        ;
    } else if y > x {
        assert((y - 1) * (y - 1) * den >= x * x * den) by (nonlinear_arith)
            requires
                0 <= x <= y - 1,
                den > 0,
        ;
    }
}

/// The least `x` with `x * x * den >= num`.
fn ceil_root_exec(num: u128, den: u128) -> (x: u128)
    requires
        0 < den <= 0xFFFF_FFFF,
        num <= 0x1_0000_0000_0000_0000_0000_0000,
    ensures
        is_ceil_root(x as int, num as int, den as int),
        x as int == ceil_root(num as int, den as int),
{
    let mut x: u128 = 0;
    loop
        invariant
            x == 0 || (x - 1) * (x - 1) * den < num,
            x <= num,
            0 < den <= 0xFFFF_FFFF,
            num <= 0x1_0000_0000_0000_0000_0000_0000,
        decreases num - x,
    {
        proof {
            if x >= 1 {
                let a = x - 1;
                assert(a * den <= a * a * den + den) by (nonlinear_arith)
                    requires
                        a >= 0,
                        den > 0,
                ;
                assert(x * x * den == a * a * den + 2 * (a * den) + den) by (nonlinear_arith)
                    requires
                        x == a + 1,
                ;
                assert(a * a * den < num);
                assert(x * x * den < 0x10_0000_0000_0000_0000_0000_0000);
            } else {
                assert(x * x * den == 0) by (nonlinear_arith)
                    requires
                        x == 0,
                ;
            }
            assert(x * x * den < 0x10_0000_0000_0000_0000_0000_0000);
            assert(x <= x * x <= x * x * den) by (nonlinear_arith)
                requires
                    den >= 1,
                    x >= 0,
            ;
        }
        let sq = x * x * den;
        if sq >= num {
            proof {
                lemma_ceil_root_unique(x as int, num as int, den as int);
            }
            return x;
        }
        proof {
            assert((x - 1) * (x - 1) * den < x * x * den || x == 0) by (nonlinear_arith)
                requires
                    den > 0,
                    x >= 0,
            ;
            assert(x * x * den >= x) by (nonlinear_arith)
                requires
                    den > 0,
                    x >= 0,
            ;
        }
        x = x + 1;
    }
}

/// Enough cells: rows times columns reach the number of labels.
proof fn lemma_grid_covers(total: int, w: int, h: int, rows: int, cols: int)
    requires
        total >= 0,
        w > 0,
        h > 0,
        is_ceil_root(cols, total * w, h),
        is_ceil_root(rows, total * h, w),
    ensures
        rows * cols >= total,
{
    let p = rows * cols;
    assert(p * p * (w * h) >= total * total * (w * h)) by (nonlinear_arith)
        requires
            cols * cols * h >= total * w,
            rows * rows * w >= total * h,
            rows >= 0,
            cols >= 0,
            total >= 0,
            w > 0,
            h > 0,
            p == rows * cols,
    ;
    if p < total {
        assert(p * p * (w * h) < total * total * (w * h)) by (nonlinear_arith)
            requires
                0 <= p < total,
                w > 0,
                h > 0,
        ;
    }
}

/// Plans the hint grid for a `width` by `height` canvas: `n * n` points for
/// an alphabet of `n` characters, labelled with every pair of characters in
/// order (`"aa"`, `"ab"`, ...), laid out row-major on a grid whose columns and
/// rows follow the canvas's aspect ratio.
pub fn calculate_hints(width: u32, height: u32, hint_chars: &str, hint_size: u32) -> (r: Vec<
    HintPoint,
>)
    requires
        0 < width <= i32::MAX,
        0 < height <= i32::MAX,
        hint_chars@.len() * hint_chars@.len() <= usize::MAX,
    ensures
        is_hint_grid(r@, hint_chars@, width as int, height as int),
{
    let n = hint_chars.unicode_len();
    let mut chars: Vec<char> = Vec::new();
    let mut i: usize = 0;
    while i < n
        invariant
            n == hint_chars@.len(),
            i <= n,
            chars@ == hint_chars@.take(i as int),
        decreases n - i,
    {
        chars.push(hint_chars.get_char(i));
        proof {
            assert(hint_chars@.take(i + 1) =~= hint_chars@.take(i as int).push(hint_chars@[i as int]));
        }
        i = i + 1;
    }
    proof {
        assert(hint_chars@.take(n as int) =~= hint_chars@);
    }
    let total: usize = n * n;
    proof {
        assert(total * width <= 0x1_0000_0000_0000_0000_0000_0000) by (nonlinear_arith)
            requires
                total <= 0xFFFF_FFFF_FFFF_FFFF,
                width <= 0xFFFF_FFFF,
        ;
        assert(total * height <= 0x1_0000_0000_0000_0000_0000_0000) by (nonlinear_arith)
            requires
                total <= 0xFFFF_FFFF_FFFF_FFFF,
                height <= 0xFFFF_FFFF,
        ;
    }
    let cols = ceil_root_exec(total as u128 * width as u128, height as u128);
    let rows = ceil_root_exec(total as u128 * height as u128, width as u128);
    proof {
        lemma_grid_covers(total as int, width as int, height as int, rows as int, cols as int);
    }
    let mut hints: Vec<HintPoint> = Vec::new();
    if total == 0 {
        return hints;
    }
    proof {
        assert(cols >= 1) by (nonlinear_arith)
            requires
                cols * cols * height >= total * width,
                total >= 1,
                width >= 1,
                cols >= 0,
        ;
        assert(cols <= total * width) by (nonlinear_arith)
            requires
                cols == 0 || (cols - 1) * (cols - 1) * height < total * width,
                height >= 1,
                cols >= 1,
        ;
    }
    proof {
        if rows >= 1 {
            assert(rows <= total * height) by (nonlinear_arith)
                requires
                    (rows - 1) * (rows - 1) * width < total * height,
                    width >= 1,
                    rows >= 1,
            ;
        }
    }
    let spacing_x: u128 = width as u128 / (cols + 1);
    let spacing_y: u128 = height as u128 / (rows + 1);
    let mut k: usize = 0;
    while k < total
        invariant
            n == chars@.len(),
            chars@ == hint_chars@,
            total == n * n,
            total >= 1,
            1 <= cols,
            rows * cols >= total,
            cols as int == grid_cols(total as int, width as int, height as int),
            rows as int == grid_rows(total as int, width as int, height as int),
            spacing_x == width as int / (cols as int + 1),
            spacing_y == height as int / (rows as int + 1),
            0 < width <= i32::MAX,
            0 < height <= i32::MAX,
            k <= total,
            hints@.len() == k,
            forall|j: int|
                0 <= j < k ==> {
                    &&& (#[trigger] hints@[j]).label@ == label_of(hint_chars@, j)
                    &&& hints@[j].x == (j % cols as int + 1) * (width as int / (cols as int + 1))
                    &&& hints@[j].y == (j / cols as int + 1) * (height as int / (rows as int + 1))
                },
        decreases total - k,
    {
        let ku = k as u128;
        let col = ku % cols;
        let row = ku / cols;
        proof {
            assert(row < rows) by (nonlinear_arith)
                requires
                    row == ku / cols,
                    ku < total,
                    rows * cols >= total,
                    cols >= 1,
            ;
            assert((col + 1) * spacing_x <= width) by (nonlinear_arith)
                requires
                    col < cols,
                    spacing_x == width as int / (cols as int + 1),
                    cols >= 1,
            ;
            assert((row + 1) * spacing_y <= height) by (nonlinear_arith)
                requires
                    row < rows,
                    spacing_y == height as int / (rows as int + 1),
            ;
            assert(k / n < n && k % n < n) by (nonlinear_arith)
                requires
                    k < n * n,
                    n >= 1,
            ;
        }
        let x = ((col + 1) * spacing_x) as i32;
        let y = ((row + 1) * spacing_y) as i32;
        let mut label = String::new();
        push_char(&mut label, chars[k / n]);
        push_char(&mut label, chars[k % n]);
        proof {
            assert(label@ =~= label_of(hint_chars@, k as int));
        }
        hints.push(HintPoint { x, y, label });
        k = k + 1;
    }
    hints
}

/// Whether `label` begins with `prefix`.
pub open spec fn has_prefix(label: Seq<char>, prefix: Seq<char>) -> bool {
    prefix.len() <= label.len() && label.subrange(0, prefix.len() as int) == prefix
}

/// The hints whose label begins with `prefix`, in their order.
pub open spec fn with_prefix(hints: Seq<HintPoint>, prefix: Seq<char>) -> Seq<HintPoint> {
    hints.filter(|h: HintPoint| has_prefix(h.label@, prefix))
}

/// All hints whose label begins with `prefix`, in order; empty when none does.
pub fn find_hint_by_prefix<'a>(hints: &'a [HintPoint], prefix: &str) -> (r: Vec<&'a HintPoint>)
    ensures
        r@.len() == with_prefix(hints@, prefix@).len(),
        forall|i: int| 0 <= i < r@.len() ==> *r@[i] == with_prefix(hints@, prefix@)[i],
{
    let mut found: Vec<&'a HintPoint> = Vec::new();
    let mut i: usize = 0;
    while i < hints.len()
        invariant
            i <= hints@.len(),
            found@.len() == with_prefix(hints@.take(i as int), prefix@).len(),
            forall|j: int|
                0 <= j < found@.len() ==> *found@[j] == with_prefix(hints@.take(i as int), prefix@)[j],
        decreases hints@.len() - i,
    {
        let h = &hints[i];
        proof {
            assert(hints@.take(i + 1).drop_last() =~= hints@.take(i as int));
            reveal(Seq::filter);
        }
        if starts_with(h.label.as_str(), prefix) {
            found.push(h);
        }
        i = i + 1;
    }
    proof {
        assert(hints@.take(hints@.len() as int) =~= hints@);
    }
    found
}

/// The first hint whose label is exactly `label`, if any.
pub fn find_hint_exact<'a>(hints: &'a [HintPoint], label: &str) -> (r: Option<&'a HintPoint>)
    ensures
        r is None <==> forall|i: int| 0 <= i < hints@.len() ==> (#[trigger] hints@[i]).label@ != label@,
        r matches Some(h) ==> exists|i: int|
            0 <= i < hints@.len() && *h == hints@[i] && hints@[i].label@ == label@ && forall|j: int|
                0 <= j < i ==> (#[trigger] hints@[j]).label@ != label@,
{
    let mut i: usize = 0;
    while i < hints.len()
        invariant
            i <= hints@.len(),
            forall|j: int| 0 <= j < i ==> (#[trigger] hints@[j]).label@ != label@,
        decreases hints@.len() - i,
    {
        if str_eq(hints[i].label.as_str(), label) {
            return Some(&hints[i]);
        }
        i = i + 1;
    }
    None
}

/// A hint grid over an alphabet of `n` characters has `n * n` points (none
/// for an empty alphabet), and point `k` is labelled with the two characters
/// `k / n` and `k % n` of the alphabet, in row-major scan order.
pub proof fn lemma_labels_have_two_chars(hints: Seq<HintPoint>, chars: Seq<char>, w: int, h: int)
    requires
        is_hint_grid(hints, chars, w, h),
    ensures
        hints.len() == chars.len() * chars.len(),
        chars.len() == 0 ==> hints.len() == 0,
        forall|k: int|
            0 <= k < hints.len() ==> (#[trigger] hints[k]).label@.len() == 2 && hints[k].label@[0]
                == chars[k / chars.len() as int] && hints[k].label@[1] == chars[k % chars.len() as int],
{
    assert(chars.len() == 0 ==> chars.len() * chars.len() == 0);
}

/// Over an alphabet without repeated characters, no two hints of a grid share
/// a label, so an exact match is unique.
pub proof fn lemma_exact_match_unique(hints: Seq<HintPoint>, chars: Seq<char>, w: int, h: int)
    requires
        is_hint_grid(hints, chars, w, h),
        forall|i: int, j: int| 0 <= i < j < chars.len() ==> chars[i] != chars[j],
    ensures
        forall|i: int, j: int|
            0 <= i < hints.len() && 0 <= j < hints.len() && (#[trigger] hints[i]).label@ == (
            #[trigger] hints[j]).label@ ==> i == j,
{
    let n = chars.len() as int;
    assert forall|i: int, j: int|
        0 <= i < hints.len() && 0 <= j < hints.len() && (#[trigger] hints[i]).label@ == (
        #[trigger] hints[j]).label@ implies i == j by {
        assert(hints[i].label@ == label_of(chars, i));
        assert(hints[j].label@ == label_of(chars, j));
        assert(0 <= i / n < n && 0 <= i % n < n && 0 <= j / n < n && 0 <= j % n < n) by (nonlinear_arith)
            requires
                0 <= i < n * n,
                0 <= j < n * n,
                n > 0,
        ;
        assert(label_of(chars, i)[0] == chars[i / n]);
        assert(label_of(chars, j)[0] == chars[j / n]);
        assert(label_of(chars, i)[1] == chars[i % n]);
        assert(label_of(chars, j)[1] == chars[j % n]);
        assert(i / n == j / n);
        assert(i % n == j % n);
        assert(i == n * (i / n) + i % n && j == n * (j / n) + j % n) by (nonlinear_arith)
            requires
                n > 0,
        ;
    }
}

} // verus!
