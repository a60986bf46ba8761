//! Address-range tracking for a later code-versus-data analysis: a set
//! of 16-bit addresses kept as sorted, disjoint, non-adjacent ranges
//! that merge as inserted addresses bridge them. The analysis itself is
//! not built yet; only the range set is.

use vstd::prelude::*;

verus! {

/// A contiguous run of addresses: `left` inclusive, `left + length`
/// exclusive.
#[derive(Debug, Clone, Copy, PartialEq, Eq, Structural)]
pub struct RangeSetItem {
    left: u16,
    length: u16,
}

impl RangeSetItem {
    /// The first address of the run.
    pub closed spec fn spec_left(self) -> int {
        self.left as int
    }

    /// How many addresses the run covers.
    pub closed spec fn spec_length(self) -> int {
        self.length as int
    }

    /// The first address past the run.
    pub open spec fn spec_right(self) -> int {
        self.spec_left() + self.spec_length()
    }

    /// Whether the run covers the address `x`.
    pub open spec fn spec_covers(self, x: int) -> bool {
        self.spec_left() <= x < self.spec_right()
    }

    /// Whether the two runs touch without a gap on either side. Meant
    /// for runs that do not intersect.
    pub open spec fn spec_adjacent(self, other: RangeSetItem) -> bool {
        if self.spec_left() < other.spec_left() {
            self.spec_right() == other.spec_left()
        } else {
            other.spec_right() == self.spec_left()
        }
    }

    pub fn new(left: u16, length: u16) -> (r: RangeSetItem)
        ensures
            r.spec_left() == left,
            r.spec_length() == length,
    {
        RangeSetItem { left, length }
    }

    /// Whether the run covers the address `other`.
    pub fn contains(&self, other: &u16) -> (r: bool)
        ensures
            r == self.spec_covers(*other as int),
    {
        *other >= self.left && (*other as u32) < (self.left as u32) + (self.length as u32)
    }

    /// Whether the two runs touch without a gap. Assumes the runs do not
    /// intersect.
    pub fn adjacent(&self, other: &Self) -> (r: bool)
        ensures
            r == self.spec_adjacent(*other),
    {
        if self.left < other.left {
            (self.left as u32) + (self.length as u32) == other.left as u32
        } else {
            (other.left as u32) + (other.length as u32) == self.left as u32
        }
    }

    /// Joins two touching runs into one. Assumes the runs are adjacent;
    /// for adjacent runs the result covers exactly the addresses that
    /// either run covers.
    pub fn merge(self, other: Self) -> (r: Self)
        requires
            self.spec_length() + other.spec_length() <= u16::MAX,
        ensures
            r.spec_left() == if self.spec_left() < other.spec_left() {
                self.spec_left()
            } else {
                other.spec_left()
            },
            r.spec_length() == self.spec_length() + other.spec_length(),
            self.spec_adjacent(other) ==> forall|x: int|
                r.spec_covers(x) == (self.spec_covers(x) || other.spec_covers(x)),
    {
        if self.left < other.left {
            RangeSetItem { left: self.left, length: self.length + other.length }
        } else {
            RangeSetItem { left: other.left, length: other.length + self.length }
        }
    }
}

/// Well-formed runs: each is non-empty and stays within the address
/// space, and consecutive runs are separated by at least one uncovered
/// address.
pub open spec fn seq_wf(items: Seq<RangeSetItem>) -> bool {
    &&& forall|i: int| 0 <= i < items.len() ==> (#[trigger] items[i]).spec_length() >= 1
    &&& forall|i: int| 0 <= i < items.len() ==> (#[trigger] items[i]).spec_right() <= 0x10000
    &&& forall|i: int|
        0 <= i < items.len() - 1 ==> (#[trigger] items[i]).spec_right() < items[i + 1].spec_left()
}

/// Whether some run of the sequence covers the address `x`.
pub open spec fn seq_covers(items: Seq<RangeSetItem>, x: int) -> bool {
    exists|i: int| 0 <= i < items.len() && (#[trigger] items[i]).spec_covers(x)
}

/// A set of 16-bit addresses, held as sorted, pairwise disjoint and
/// non-adjacent runs.
pub struct RangeSet {
    inner: Vec<RangeSetItem>,
}

impl RangeSet {
    /// The runs, in order.
    pub closed spec fn spec_items(self) -> Seq<RangeSetItem> {
        self.inner@
    }

    /// Well-formed: see `seq_wf`.
    pub open spec fn spec_wf(self) -> bool {
        seq_wf(self.spec_items())
    }

    /// Whether some run covers the address `x`.
    pub open spec fn spec_covers(self, x: int) -> bool {
        seq_covers(self.spec_items(), x)
    }

    pub fn new() -> (r: RangeSet)
        ensures
            r.spec_wf(),
            forall|x: int| !r.spec_covers(x),
            r.spec_items().len() == 0,
    {
        RangeSet { inner: Vec::new() }
    }

    /// Binary search over the runs: the index of the run covering
    /// `other`, or the index where a run covering it would have to be
    /// inserted.
    fn search_ranges(&self, other: &u16) -> (r: Result<usize, usize>)
        requires
            self.spec_wf(),
        ensures
            (match r {
                Ok(i) => {
                    &&& i < self.spec_items().len()
                    &&& self.spec_items()[i as int].spec_covers(*other as int)
                },
                Err(i) => {
                    &&& i <= self.spec_items().len()
                    &&& !self.spec_covers(*other as int)
                    &&& forall|j: int|
                        0 <= j < i ==> (#[trigger] self.spec_items()[j]).spec_right() <= *other
                    &&& forall|j: int|
                        i <= j < self.spec_items().len() ==> *other < (
                        #[trigger] self.spec_items()[j]).spec_left()
                },
            }),
    {
        let mut lo: usize = 0;
        let mut hi: usize = self.inner.len();
        while lo < hi
            invariant
                lo <= hi <= self.spec_items().len(),
                self.spec_wf(),
                forall|j: int|
                    0 <= j < lo ==> (#[trigger] self.spec_items()[j]).spec_right() <= *other,
                forall|j: int|
                    hi <= j < self.spec_items().len() ==> *other < (
                    #[trigger] self.spec_items()[j]).spec_left(),
            decreases hi - lo,
        {
            let mid: usize = lo + (hi - lo) / 2;
            let item = self.inner[mid];
            if *other < item.left {
                proof {
                    assert forall|j: int|
                        mid <= j < self.spec_items().len() implies *other < (
                    #[trigger] self.spec_items()[j]).spec_left() by {
                        lemma_sorted_left_mono(self.spec_items(), mid as int, j);
                    }
                }
                hi = mid;
            } else {
                if item.contains(other) {
                    return Ok(mid);
                }
                proof {
                    assert forall|j: int| 0 <= j <= mid implies (
                    #[trigger] self.spec_items()[j]).spec_right() <= *other by {
                        lemma_sorted_right_mono(self.spec_items(), j, mid as int);
                    }
                }
                lo = mid + 1;
            }
        }
        Err(lo)
    }

    /// Whether the set holds the address `other`.
    pub fn contains(&self, other: &u16) -> (r: bool)
        requires
            self.spec_wf(),
        ensures
            r == self.spec_covers(*other as int),
    {
        self.search_ranges(other).is_ok()
    }

    /// Adds the address `other` to the set: a fresh run of one address,
    /// widened into a neighbouring run wherever they touch. Returns
    /// whether the address was new. At least one other address must
    /// remain uncovered, so that no run outgrows its representation.
    pub fn insert(&mut self, other: u16) -> (r: bool)
        requires
            old(self).spec_wf(),
            exists|y: u16| y != other && !old(self).spec_covers(y as int),
        ensures
            final(self).spec_wf(),
            r == !old(self).spec_covers(other as int),
            forall|x: int|
                final(self).spec_covers(x) == (old(self).spec_covers(x) || x == other as int),
    {
        let ghost s = self.spec_items();
        if self.inner.is_empty() {
            self.inner.push(RangeSetItem::new(other, 1));
            proof {
                assert forall|x: int|
                    self.spec_covers(x) == (old(self).spec_covers(x) || x == other as int) by {
                    if seq_covers(self.spec_items(), x) {
                        let i = choose|i: int|
                            0 <= i < self.spec_items().len() && (
                            #[trigger] self.spec_items()[i]).spec_covers(x);
                        assert(x == other as int);
                    }
                    if x == other as int {
                        assert(self.spec_items()[0].spec_covers(x));
                    }
                }
            }
            return true;
        }
        let found = self.search_ranges(&other);
        match found {
            Ok(_) => false,
            Err(idx) => {
                let new_range = RangeSetItem::new(other, 1);
                let overlaps_right = idx < self.inner.len() && new_range.adjacent(&self.inner[idx]);
                let overlaps_left = idx >= 1 && new_range.adjacent(&self.inner[idx - 1]);
                proof {
                    if overlaps_left {
                        lemma_left_neighbour_touches(s, idx as int, other, new_range);
                    }
                    if overlaps_right {
                        lemma_right_neighbour_touches(s, idx as int, other, new_range);
                    }
                }
                if overlaps_left && overlaps_right {
                    proof {
                        lemma_merge_both_fits(s, idx as int, other);
                    }
                    let right_range = self.inner.remove(idx);
                    let left_range = self.inner.remove(idx - 1);
                    let merged = left_range.merge(new_range).merge(right_range);
                    self.inner.insert(idx - 1, merged);
                    proof {
                        lemma_insert_both(s, idx as int, other, merged, self.spec_items());
                    }
                    true
                } else if overlaps_left {
                    proof {
                        lemma_merge_left_fits(s, idx as int, other);
                    }
                    let left_range = self.inner.remove(idx - 1);
                    let merged = left_range.merge(new_range);
                    self.inner.insert(idx - 1, merged);
                    proof {
                        lemma_insert_left(s, idx as int, other, merged, self.spec_items());
                    }
                    true
                } else if overlaps_right {
                    proof {
                        lemma_merge_right_fits(s, idx as int, other);
                    }
                    let right_range = self.inner.remove(idx);
                    let merged = right_range.merge(new_range);
                    self.inner.insert(idx, merged);
                    proof {
                        lemma_insert_right(s, idx as int, other, merged, self.spec_items());
                    }
                    true
                } else {
                    self.inner.insert(idx, new_range);
                    proof {
                        lemma_insert_fresh(s, idx as int, other, new_range, self.spec_items());
                    }
                    true
                }
            },
        }
    }
}

/// The facts that the failed search leaves at the insertion index: runs
/// before it end at or before the address, runs from it on begin past
/// it.
spec fn gap_at(s: Seq<RangeSetItem>, idx: int, other: u16) -> bool {
    &&& 0 <= idx <= s.len()
    &&& forall|j: int| 0 <= j < idx ==> (#[trigger] s[j]).spec_right() <= other
    &&& forall|j: int| idx <= j < s.len() ==> other < (#[trigger] s[j]).spec_left()
}

/// In a well-formed set, the left ends of the runs grow with the index.
proof fn lemma_sorted_left_mono(s: Seq<RangeSetItem>, i: int, j: int)
    requires
        seq_wf(s),
        0 <= i <= j < s.len(),
    ensures
        s[i].spec_left() <= s[j].spec_left(),
    decreases j - i,
{
    if i < j {
        lemma_sorted_left_mono(s, i + 1, j);
    }
}

/// In a well-formed set, the right ends of the runs grow with the index.
proof fn lemma_sorted_right_mono(s: Seq<RangeSetItem>, i: int, j: int)
    requires
        seq_wf(s),
        0 <= i <= j < s.len(),
    ensures
        s[i].spec_right() <= s[j].spec_right(),
    decreases j - i,
{
    if i < j {
        lemma_sorted_right_mono(s, i, j - 1);
    }
}

/// A one-address run at `other` touches the run before the insertion
/// index exactly when that run ends at `other`.
proof fn lemma_left_neighbour_touches(s: Seq<RangeSetItem>, idx: int, other: u16, v: RangeSetItem)
    requires
        seq_wf(s),
        gap_at(s, idx, other),
        1 <= idx <= s.len(),
        v.spec_left() == other,
        v.spec_length() == 1,
        v.spec_adjacent(s[idx - 1]),
    ensures
        s[idx - 1].spec_right() == other,
        s[idx - 1].spec_left() < other,
{
}

/// A one-address run at `other` touches the run at the insertion index
/// exactly when that run begins one past `other`.
proof fn lemma_right_neighbour_touches(s: Seq<RangeSetItem>, idx: int, other: u16, v: RangeSetItem)
    requires
        seq_wf(s),
        gap_at(s, idx, other),
        0 <= idx < s.len(),
        v.spec_left() == other,
        v.spec_length() == 1,
        v.spec_adjacent(s[idx]),
    ensures
        s[idx].spec_left() == other + 1,
{
}

/// With an address other than `other` still uncovered, the run ending
/// at `other` has room to grow by one.
proof fn lemma_merge_left_fits(s: Seq<RangeSetItem>, idx: int, other: u16)
    requires
        seq_wf(s),
        gap_at(s, idx, other),
        1 <= idx <= s.len(),
        s[idx - 1].spec_right() == other,
        exists|y: u16| y != other && !seq_covers(s, y as int),
    ensures
        s[idx - 1].spec_length() + 1 <= u16::MAX,
{
    if s[idx - 1].spec_length() + 1 > u16::MAX {
        let y = choose|y: u16| y != other && !seq_covers(s, y as int);
        assert(s[idx - 1].spec_left() == 0 && other == 0xffff);
        assert(s[idx - 1].spec_covers(y as int));
    }
}

/// With an address other than `other` still uncovered, the run starting
/// one past `other` has room to grow by one.
proof fn lemma_merge_right_fits(s: Seq<RangeSetItem>, idx: int, other: u16)
    requires
        seq_wf(s),
        gap_at(s, idx, other),
        0 <= idx < s.len(),
        s[idx].spec_left() == other + 1,
        exists|y: u16| y != other && !seq_covers(s, y as int),
    ensures
        s[idx].spec_length() + 1 <= u16::MAX,
{
    if s[idx].spec_length() + 1 > u16::MAX {
        let y = choose|y: u16| y != other && !seq_covers(s, y as int);
        assert(other == 0 && s[idx].spec_right() == 0x10000);
        assert(s[idx].spec_covers(y as int));
    }
}

/// With an address other than `other` still uncovered, the two runs
/// beside `other` and the address itself together fit one run.
proof fn lemma_merge_both_fits(s: Seq<RangeSetItem>, idx: int, other: u16)
    requires
        seq_wf(s),
        gap_at(s, idx, other),
        1 <= idx < s.len(),
        s[idx - 1].spec_right() == other,
        s[idx].spec_left() == other + 1,
        exists|y: u16| y != other && !seq_covers(s, y as int),
    ensures
        s[idx - 1].spec_length() + 1 + s[idx].spec_length() <= u16::MAX,
        s[idx - 1].spec_length() + 1 <= u16::MAX,
{
    if s[idx - 1].spec_length() + 1 + s[idx].spec_length() > u16::MAX {
        let y = choose|y: u16| y != other && !seq_covers(s, y as int);
        assert(s[idx - 1].spec_left() == 0 && s[idx].spec_right() == 0x10000);
        if (y as int) < other {
            assert(s[idx - 1].spec_covers(y as int));
        } else {
            assert(s[idx].spec_covers(y as int));
        }
    }
}

/// Inserting a fresh one-address run that touches neither neighbour
/// keeps the set well-formed and adds exactly that address.
proof fn lemma_insert_fresh(
    s: Seq<RangeSetItem>,
    idx: int,
    other: u16,
    v: RangeSetItem,
    t: Seq<RangeSetItem>,
)
    requires
        seq_wf(s),
        gap_at(s, idx, other),
        v.spec_left() == other,
        v.spec_length() == 1,
        idx >= 1 ==> s[idx - 1].spec_right() != other,
        idx < s.len() ==> s[idx].spec_left() != other + 1,
        t == s.insert(idx, v),
    ensures
        seq_wf(t),
        forall|x: int| seq_covers(t, x) == (seq_covers(s, x) || x == other as int),
{
    assert forall|x: int| seq_covers(t, x) == (seq_covers(s, x) || x == other as int) by {
        if seq_covers(t, x) {
            let i = choose|i: int| 0 <= i < t.len() && (#[trigger] t[i]).spec_covers(x);
            if i < idx {
                assert(s[i].spec_covers(x));
            } else if i > idx {
                assert(s[i - 1].spec_covers(x));
            }
        }
        if seq_covers(s, x) {
            let i = choose|i: int| 0 <= i < s.len() && (#[trigger] s[i]).spec_covers(x);
            if i < idx {
                assert(t[i].spec_covers(x));
            } else {
                assert(t[i + 1].spec_covers(x));
            }
        }
        if x == other as int {
            assert(t[idx].spec_covers(x));
        }
    }
}

/// Replacing the run at `k` by one that covers it and `other`, and still
/// fits between its neighbours, keeps the set well-formed and adds
/// exactly that address.
proof fn lemma_update_covers(
    s: Seq<RangeSetItem>,
    k: int,
    other: u16,
    m: RangeSetItem,
    t: Seq<RangeSetItem>,
)
    requires
        seq_wf(s),
        0 <= k < s.len(),
        forall|x: int| m.spec_covers(x) == (s[k].spec_covers(x) || x == other as int),
        m.spec_length() >= 1,
        m.spec_right() <= 0x10000,
        k >= 1 ==> s[k - 1].spec_right() < m.spec_left(),
        k + 1 < s.len() ==> m.spec_right() < s[k + 1].spec_left(),
        t == s.update(k, m),
    ensures
        seq_wf(t),
        forall|x: int| seq_covers(t, x) == (seq_covers(s, x) || x == other as int),
{
    assert forall|x: int| seq_covers(t, x) == (seq_covers(s, x) || x == other as int) by {
        if seq_covers(t, x) {
            let i = choose|i: int| 0 <= i < t.len() && (#[trigger] t[i]).spec_covers(x);
            if i != k {
                assert(s[i].spec_covers(x));
            }
        }
        if seq_covers(s, x) {
            let i = choose|i: int| 0 <= i < s.len() && (#[trigger] s[i]).spec_covers(x);
            if i != k {
                assert(t[i].spec_covers(x));
            } else {
                assert(t[k].spec_covers(x));
            }
        }
        if x == other as int {
            assert(t[k].spec_covers(x));
        }
    }
}

/// The merge of the left neighbour with the fresh run, in place of the
/// left neighbour.
proof fn lemma_insert_left(
    s: Seq<RangeSetItem>,
    idx: int,
    other: u16,
    m: RangeSetItem,
    t: Seq<RangeSetItem>,
)
    requires
        seq_wf(s),
        gap_at(s, idx, other),
        1 <= idx <= s.len(),
        s[idx - 1].spec_right() == other,
        idx < s.len() ==> s[idx].spec_left() != other + 1,
        m.spec_left() == s[idx - 1].spec_left(),
        m.spec_length() == s[idx - 1].spec_length() + 1,
        t == s.remove(idx - 1).insert(idx - 1, m),
    ensures
        seq_wf(t),
        forall|x: int| seq_covers(t, x) == (seq_covers(s, x) || x == other as int),
{
    assert(t =~= s.update(idx - 1, m));
    lemma_update_covers(s, idx - 1, other, m, t);
}

/// The merge of the right neighbour with the fresh run, in place of the
/// right neighbour.
proof fn lemma_insert_right(
    s: Seq<RangeSetItem>,
    idx: int,
    other: u16,
    m: RangeSetItem,
    t: Seq<RangeSetItem>,
)
    requires
        seq_wf(s),
        gap_at(s, idx, other),
        0 <= idx < s.len(),
        s[idx].spec_left() == other + 1,
        idx >= 1 ==> s[idx - 1].spec_right() != other,
        m.spec_left() == other,
        m.spec_length() == s[idx].spec_length() + 1,
        t == s.remove(idx).insert(idx, m),
    ensures
        seq_wf(t),
        forall|x: int| seq_covers(t, x) == (seq_covers(s, x) || x == other as int),
{
    assert(t =~= s.update(idx, m));
    lemma_update_covers(s, idx, other, m, t);
}

/// The merge of both neighbours with the fresh run, in place of the
/// pair.
proof fn lemma_insert_both(
    s: Seq<RangeSetItem>,
    idx: int,
    other: u16,
    m: RangeSetItem,
    t: Seq<RangeSetItem>,
)
    requires
        seq_wf(s),
        gap_at(s, idx, other),
        1 <= idx < s.len(),
        s[idx - 1].spec_right() == other,
        s[idx].spec_left() == other + 1,
        m.spec_left() == s[idx - 1].spec_left(),
        m.spec_length() == s[idx - 1].spec_length() + 1 + s[idx].spec_length(),
        t == s.remove(idx).remove(idx - 1).insert(idx - 1, m),
    ensures
        seq_wf(t),
        forall|x: int| seq_covers(t, x) == (seq_covers(s, x) || x == other as int),
{
    assert(m.spec_right() == s[idx].spec_right());
    assert forall|x: int| seq_covers(t, x) == (seq_covers(s, x) || x == other as int) by {
        if seq_covers(t, x) {
            let i = choose|i: int| 0 <= i < t.len() && (#[trigger] t[i]).spec_covers(x);
            if i < idx - 1 {
                assert(s[i].spec_covers(x));
            } else if i == idx - 1 {
                if x < other as int {
                    assert(s[idx - 1].spec_covers(x));
                } else if x > other as int {
                    assert(s[idx].spec_covers(x));
                }
            } else {
                assert(s[i + 1].spec_covers(x));
            }
        }
        if seq_covers(s, x) {
            let i = choose|i: int| 0 <= i < s.len() && (#[trigger] s[i]).spec_covers(x);
            if i < idx - 1 {
                assert(t[i].spec_covers(x));
            } else if i == idx - 1 || i == idx {
                assert(t[idx - 1].spec_covers(x));
            } else {
                assert(t[i - 1].spec_covers(x));
            }
        }
        if x == other as int {
            assert(t[idx - 1].spec_covers(x));
        }
    }
}

/// The still-unfinished tracer: which addresses a traced program has
/// read and written.
pub struct TraceContext {
    read_range: RangeSet,
    write_range: RangeSet,
}

} // verus!
