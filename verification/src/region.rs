//! Named regions of a card and the ordered store that keeps them.

use crate::geometry::Rect;
use vstd::prelude::*;

verus! {

/// A named rectangle in the pixel space of a card. Names need not be unique.
#[derive(Debug, PartialEq, Eq)]
pub struct Region {
    pub name: String,
    pub x: usize,
    pub y: usize,
    pub width: usize,
    pub height: usize,
}

/// What a region is: its name as a sequence of characters, and its rectangle.
pub struct RegionView {
    pub name: Seq<char>,
    pub rect: Rect,
}

impl View for Region {
    type V = RegionView;

    open spec fn view(&self) -> RegionView {
        RegionView {
            name: self.name@,
            rect: Rect { x: self.x, y: self.y, width: self.width, height: self.height },
        }
    }
}

impl Clone for Region {
    fn clone(&self) -> (copy: Region)
        ensures
            copy@ == self@,
    {
        Region {
            name: self.name.clone(),
            x: self.x,
            y: self.y,
            width: self.width,
            height: self.height,
        }
    }
}

impl Region {
    /// Names a rectangle.
    pub fn new(name: String, rect: Rect) -> (region: Region)
        ensures
            region@ == (RegionView { name: name@, rect }),
    {
        Region { name, x: rect.x, y: rect.y, width: rect.width, height: rect.height }
    }

    /// The rectangle that the region covers.
    pub fn rect(&self) -> (rect: Rect)
        ensures
            rect == self@.rect,
    {
        Rect { x: self.x, y: self.y, width: self.width, height: self.height }
    }
}

/// The views of a list of regions, in order.
pub open spec fn region_views(regions: Seq<Region>) -> Seq<RegionView> {
    regions.map_values(|r: Region| r@)
}

/// Position of the first rectangle, in order, that contains the point.
pub open spec fn first_hit(regions: Seq<RegionView>, px: usize, py: usize) -> Option<int>
    decreases regions.len(),
{
    if regions.len() == 0 {
        None
    } else if regions[0].rect.contains(px, py) {
        Some(0)
    } else {
        match first_hit(regions.drop_first(), px, py) {
            Some(i) => Some(i + 1),
            None => None,
        }
    }
}

/// `first_hit` finds a region that contains the point, none before it
/// contains the point, and it finds one whenever there is one.
pub proof fn lemma_first_hit(regions: Seq<RegionView>, px: usize, py: usize)
    ensures
        match first_hit(regions, px, py) {
            Some(i) => 0 <= i < regions.len() && regions[i].rect.contains(px, py) && forall|j: int|
                0 <= j < i ==> !(#[trigger] regions[j]).rect.contains(px, py),
            None => forall|j: int|
                0 <= j < regions.len() ==> !(#[trigger] regions[j]).rect.contains(px, py),
        },
    decreases regions.len(),
{
    if regions.len() > 0 && !regions[0].rect.contains(px, py) {
        let rest = regions.drop_first();
        lemma_first_hit(rest, px, py);
        assert(forall|j: int| 0 <= j < rest.len() ==> rest[j] == regions[j + 1]);
        match first_hit(rest, px, py) {
            Some(i) => {
                assert forall|j: int| 0 <= j < i + 1 implies !(#[trigger] regions[j]).rect.contains(
                    px,
                    py,
                ) by {
                    if j > 0 {
                        assert(rest[j - 1] == regions[j]);
                    }
                }
            },
            None => {
                assert forall|j: int| 0 <= j < regions.len() implies !(#[trigger] regions[j]).rect.contains(
                    px,
                    py,
                ) by {
                    if j > 0 {
                        assert(rest[j - 1] == regions[j]);
                    }
                }
            },
        }
    }
}

/// A position that contains the point and has no earlier one that does is
/// the one that `first_hit` gives.
pub proof fn lemma_first_hit_unique(regions: Seq<RegionView>, px: usize, py: usize, i: int)
    requires
        0 <= i < regions.len(),
        regions[i].rect.contains(px, py),
        forall|j: int| 0 <= j < i ==> !(#[trigger] regions[j]).rect.contains(px, py),
    ensures
        first_hit(regions, px, py) == Some(i),
{
    lemma_first_hit(regions, px, py);
}

/// Where no position contains the point, `first_hit` gives none.
pub proof fn lemma_first_hit_none(regions: Seq<RegionView>, px: usize, py: usize)
    requires
        forall|j: int| 0 <= j < regions.len() ==> !(#[trigger] regions[j]).rect.contains(px, py),
    ensures
        first_hit(regions, px, py) is None,
{
    lemma_first_hit(regions, px, py);
}

/// Of two regions that both hold the point, the one added later is never
/// the hit: the hit is the earlier one or one before it.
pub proof fn lemma_overlap_first_wins(
    regions: Seq<RegionView>,
    px: usize,
    py: usize,
    earlier: int,
    later: int,
)
    requires
        0 <= earlier < later < regions.len(),
        regions[earlier].rect.contains(px, py),
        regions[later].rect.contains(px, py),
    ensures
        first_hit(regions, px, py) matches Some(hit) && hit <= earlier,
        earlier == 0 ==> first_hit(regions, px, py) == Some(0int),
{
    lemma_first_hit(regions, px, py);
}

/// The regions of the card in hand, in the order in which they were added.
#[derive(Debug, PartialEq, Eq)]
pub struct RegionStore {
    regions: Vec<Region>,
}

impl View for RegionStore {
    type V = Seq<RegionView>;

    closed spec fn view(&self) -> Seq<RegionView> {
        region_views(self.regions@)
    }
}

impl RegionStore {
    /// An empty store.
    pub fn new() -> (store: RegionStore)
        ensures
            store@ == Seq::<RegionView>::empty(),
    {
        RegionStore { regions: Vec::new() }
    }

    /// A store that holds the given regions in their order.
    pub fn from_regions(regions: Vec<Region>) -> (store: RegionStore)
        ensures
            store@ == region_views(regions@),
    {
        RegionStore { regions }
    }

    /// Number of regions.
    pub fn len(&self) -> (n: usize)
        ensures
            n == self@.len(),
    {
        self.regions.len()
    }

    /// The region at a position, if the position exists.
    pub fn get(&self, index: usize) -> (region: Option<&Region>)
        ensures
            index < self@.len() ==> (region matches Some(r) && r@ == self@[index as int]),
            index >= self@.len() ==> region is None,
    {
        if index < self.regions.len() {
            Some(&self.regions[index])
        } else {
            None
        }
    }

    /// Copies of the regions, in order.
    pub fn to_vec(&self) -> (regions: Vec<Region>)
        ensures
            region_views(regions@) == self@,
    {
        let mut out: Vec<Region> = Vec::new();
        let mut i: usize = 0;
        while i < self.regions.len()
            invariant
                i <= self.regions@.len(),
                out@.len() == i,
                forall|j: int| 0 <= j < i ==> (#[trigger] out@[j])@ == self.regions@[j]@,
            decreases self.regions@.len() - i,
        {
            out.push(self.regions[i].clone());
            i = i + 1;
        }
        assert(region_views(out@) =~= region_views(self.regions@));
        out
    }

    /// Appends a region and gives its position. Always succeeds.
    pub fn add(&mut self, region: Region) -> (index: usize)
        ensures
            final(self)@ == old(self)@.push(region@),
            index == old(self)@.len(),
    {
        let index = self.regions.len();
        self.regions.push(region);
        assert(region_views(self.regions@) =~= region_views(old(self).regions@).push(region@));
        index
    }

    /// Removes the region at a position; the regions behind it move up by one.
    /// A position that does not exist leaves the store as it is.
    pub fn delete(&mut self, index: usize)
        ensures
            index < old(self)@.len() ==> final(self)@ == old(self)@.remove(index as int),
            index >= old(self)@.len() ==> final(self)@ == old(self)@,
    {
        if index < self.regions.len() {
            self.regions.remove(index);
            assert(region_views(self.regions@) =~= region_views(old(self).regions@).remove(
                index as int,
            ));
        }
    }

    /// Removes every region.
    pub fn clear(&mut self)
        ensures
            final(self)@ == Seq::<RegionView>::empty(),
    {
        self.regions.clear();
        assert(region_views(self.regions@) =~= Seq::<RegionView>::empty());
    }

    /// Position of the first region, in the order of insertion, whose
    /// rectangle contains the point. Where regions overlap, the one that was
    /// added first wins.
    pub fn hit_test(&self, px: usize, py: usize) -> (hit: Option<usize>)
        ensures
            hit is Some <==> first_hit(self@, px, py) is Some,
            hit matches Some(i) ==> first_hit(self@, px, py) == Some(i as int),
    {
        let mut i: usize = 0;
        while i < self.regions.len()
            invariant
                i <= self.regions@.len(),
                forall|j: int| 0 <= j < i ==> !(#[trigger] self@[j]).rect.contains(px, py),
            decreases self.regions@.len() - i,
        {
            if self.regions[i].rect().contains(px, py) {
                proof {
                    lemma_first_hit_unique(self@, px, py, i as int);
                }
                return Some(i);
            }
            i = i + 1;
        }
        proof {
            lemma_first_hit_none(self@, px, py);
        }
        None
    }
}

} // verus!
