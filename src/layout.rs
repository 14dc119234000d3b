//! Width breakpoints: panel arrangement, grid columns and the card grid.
use vstd::prelude::*;

verus! {

/// Below this width the filter panel is stacked above the main content,
/// and the card grid has a single column.
pub const STACK_BREAKPOINT: u32 = 600;

/// From this width on the card grid has three columns.
pub const WIDE_BREAKPOINT: u32 = 900;

/// How many demo cards the grid shows.
pub const CARD_COUNT: usize = 6;

/// How panels are arranged for a given width.
#[derive(Clone, Copy, Debug, PartialEq, Eq, Structural)]
pub enum LayoutMode {
    /// Filters above the main content, in one scrollable region.
    Stacked,
    /// Filters in a resizable side region, main content in the central region.
    SidePlusCentral,
}

/// The size class shown next to the scale, by the grid's breakpoints.
#[derive(Clone, Copy, Debug, PartialEq, Eq, Structural)]
pub enum ScaleBucket {
    Small,
    Medium,
    Large,
}

pub open spec fn spec_layout_mode(width: u32) -> LayoutMode {
    if width < STACK_BREAKPOINT {
        LayoutMode::Stacked
    } else {
        LayoutMode::SidePlusCentral
    }
}

pub open spec fn spec_column_count(width: u32) -> usize {
    if width >= WIDE_BREAKPOINT {
        3
    } else if width >= STACK_BREAKPOINT {
        2
    } else {
        1
    }
}

pub open spec fn spec_scale_bucket(width: u32) -> ScaleBucket {
    if width >= WIDE_BREAKPOINT {
        ScaleBucket::Large
    } else if width >= STACK_BREAKPOINT {
        ScaleBucket::Medium
    } else {
        ScaleBucket::Small
    }
}

/// The panel arrangement for `width`.
pub fn layout_mode(width: u32) -> (r: LayoutMode)
    ensures
        r == spec_layout_mode(width),
{
    if width < STACK_BREAKPOINT {
        LayoutMode::Stacked
    } else {
        LayoutMode::SidePlusCentral
    }
}

/// The number of card-grid columns for `width`: one, two or three.
pub fn column_count(width: u32) -> (r: usize)
    ensures
        r == spec_column_count(width),
        1 <= r <= 3,
{
    if width >= WIDE_BREAKPOINT {
        3
    } else if width >= STACK_BREAKPOINT {
        2
    } else {
        1
    }
}

/// The size class for `width`.
pub fn scale_bucket(width: u32) -> (r: ScaleBucket)
    ensures
        r == spec_scale_bucket(width),
{
    if width >= WIDE_BREAKPOINT {
        ScaleBucket::Large
    } else if width >= STACK_BREAKPOINT {
        ScaleBucket::Medium
    } else {
        ScaleBucket::Small
    }
}

/// `columns` deals the cards `0..cards` round-robin over `cols` columns:
/// card `i` goes to column `i % cols`, each column in ascending order,
/// and every card appears.
pub open spec fn is_round_robin(columns: Seq<Seq<usize>>, cards: nat, cols: nat) -> bool {
    &&& columns.len() == cols
    &&& forall|c: int, k: int|
        0 <= c < cols && 0 <= k < columns[c].len() ==> {
            &&& #[trigger] columns[c][k] < cards
            &&& (columns[c][k] as int) % (cols as int) == c
        }
    &&& forall|c: int, k1: int, k2: int|
        0 <= c < cols && 0 <= k1 < k2 < columns[c].len() ==> #[trigger] columns[c][k1]
            < #[trigger] columns[c][k2]
    &&& forall|i: int| 0 <= i < cards ==> #[trigger] columns[i % (cols as int)].contains(i as usize)
}

/// Deals the cards `0..cards` into `cols` columns, card `i` into column
/// `i % cols`, keeping ascending order within each column.
pub fn distribute_cards(cards: usize, cols: usize) -> (r: Vec<Vec<usize>>)
    requires
        cols > 0,
    ensures
        is_round_robin(r@.map_values(|col: Vec<usize>| col@), cards as nat, cols as nat),
{
    let mut columns: Vec<Vec<usize>> = Vec::new();
    let mut c: usize = 0;
    while c < cols
        invariant
            c <= cols,
            columns@.len() == c,
            forall|j: int| 0 <= j < c ==> (#[trigger] columns@[j])@.len() == 0,
        decreases cols - c,
    {
        columns.push(Vec::new());
        c = c + 1;
    }
    let mut i: usize = 0;
    while i < cards
        invariant
            cols > 0,
            i <= cards,
            is_round_robin(columns@.map_values(|col: Vec<usize>| col@), i as nat, cols as nat),
        decreases cards - i,
    {
        let target = i % cols;
        let ghost before = columns@.map_values(|col: Vec<usize>| col@);
        columns[target].push(i);
        let ghost after = columns@.map_values(|col: Vec<usize>| col@);
        let ghost n = cols as int;
        let ghost t = target as int;
        assert(after.len() == n);
        assert(after[t] == before[t].push(i));
        assert(forall|c: int| 0 <= c < n && c != t ==> after[c] == before[c]);
        assert forall|c: int, k: int| 0 <= c < n && 0 <= k < after[c].len() implies {
            &&& #[trigger] after[c][k] < i + 1
            &&& (after[c][k] as int) % n == c
        } by {
            if c != t || k < before[t].len() {
                assert(after[c][k] == before[c][k]);
            }
        }
        assert forall|c: int, k1: int, k2: int|
            0 <= c < n && 0 <= k1 < k2 < after[c].len() implies #[trigger] after[c][k1]
            < #[trigger] after[c][k2] by {
            if c != t || k2 < before[t].len() {
                assert(after[c][k1] == before[c][k1]);
                assert(after[c][k2] == before[c][k2]);
            } else {
                assert(after[c][k1] == before[c][k1]);
                assert(before[c][k1] < i);
            }
        }
        assert forall|j: int| 0 <= j < i + 1 implies #[trigger] after[j % n].contains(j as usize) by {
            if j < i {
                assert(before[j % n].contains(j as usize));
                if j % n == t {
                    let k = choose|k: int|
                        0 <= k < before[t].len() && before[t][k] == j as usize;
                    assert(after[t][k] == j as usize);
                }
            } else {
                assert(after[t][before[t].len() as int] == i);
            }
        }
        i = i + 1;
    }
    columns
}

} // verus!
