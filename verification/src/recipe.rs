use crate::flour::{Flour, FlourView};
use crate::quantity::{lemma_product_bound, lemma_times, Quantity};
use crate::yeast::{Yeast, YeastView};
use vstd::prelude::*;

verus! {

/// A bread recipe. A base recipe, as [`Recipe::new`] makes it, holds baker's
/// percentages: every amount counts against a flour total of 100. A recipe made by
/// [`Recipe::remap`] holds grams.
#[derive(Debug, Clone)]
pub struct Recipe {
    pub name: &'static str,
    pub flour: Vec<Flour>,
    pub salt: Quantity,
    pub water: Quantity,
    pub yeast: Yeast,
    pub enrichments: Option<Vec<(&'static str, Quantity)>>,
    /// Whether the amounts are baker's percentages.
    pub base: bool,
}

/// A recipe with every amount as a number.
pub struct RecipeView {
    pub name: Seq<char>,
    pub flour: Seq<FlourView>,
    pub salt: real,
    pub water: real,
    pub yeast: YeastView,
    pub enrichments: Option<Seq<(Seq<char>, real)>>,
    /// Whether the amounts are baker's percentages.
    pub base: bool,
}

/// A percentage `q` of `grams` of flour.
pub open spec fn scale_rule(q: real, grams: real) -> real {
    q * grams / 100real
}

/// The flours of a list with their amounts as numbers.
pub open spec fn flour_views(list: Seq<Flour>) -> Seq<FlourView> {
    list.map_values(|f: Flour| f@)
}

/// The enrichments of a list with their names as text and their amounts as
/// numbers.
pub open spec fn enrichment_views(list: Seq<(&'static str, Quantity)>) -> Seq<(Seq<char>, real)> {
    list.map_values(|e: (&'static str, Quantity)| (e.0@, e.1@))
}

/// Whether every flour of a list has a compact amount.
pub open spec fn compact_flours(list: Seq<Flour>) -> bool {
    forall|i: int| 0 <= i < list.len() ==> (#[trigger] list[i]).stored().compact()
}

/// Whether every enrichment of a list has a compact amount.
pub open spec fn compact_enrichments(list: Seq<(&'static str, Quantity)>) -> bool {
    forall|i: int| 0 <= i < list.len() ==> (#[trigger] list[i]).1.compact()
}

impl RecipeView {
    /// The recipe for `grams` of flour: every amount is taken as a percentage of
    /// `grams`; the names stay, and the result holds grams.
    pub open spec fn scaled(self, grams: real) -> RecipeView {
        RecipeView {
            name: self.name,
            flour: self.flour.map_values(
                |f: FlourView| f.with_amount(scale_rule(f.amount(), grams)),
            ),
            salt: scale_rule(self.salt, grams),
            water: scale_rule(self.water, grams),
            yeast: self.yeast.with_amount(scale_rule(self.yeast.amount(), grams)),
            enrichments: match self.enrichments {
                None => None,
                Some(list) => Some(
                    list.map_values(|e: (Seq<char>, real)| (e.0, scale_rule(e.1, grams))),
                ),
            },
            base: false,
        }
    }
}

impl View for Recipe {
    type V = RecipeView;

    open spec fn view(&self) -> RecipeView {
        RecipeView {
            name: self.name@,
            flour: flour_views(self.flour@),
            salt: self.salt@,
            water: self.water@,
            yeast: self.yeast@,
            enrichments: match self.enrichments {
                None => None,
                Some(list) => Some(enrichment_views(list@)),
            },
            base: self.base,
        }
    }
}

/// A percentage `q` of `grams`, both compact.
pub fn scale_quantity(q: Quantity, grams: Quantity) -> (r: Quantity)
    requires
        q.compact(),
        grams.compact(),
    ensures
        r@ == scale_rule(q@, grams@),
{
    let n: i128 = q.numer();
    let d: u128 = q.denom();
    let gn: i128 = grams.numer();
    let gd: u128 = grams.denom();
    proof {
        lemma_product_bound(n as int, gn as int, 0x8000_0000_0000_0000, 0x8000_0000_0000_0000);
        lemma_product_bound(d as int, gd as int, 0xffff_ffff, 0xffff_ffff);
        lemma_times(n as int, d as int, gn as int, gd as int);
        lemma_times(n * gn, d * gd, 1, 100);
    }
    Quantity::ratio(n * gn, d * gd * 100)
}

impl Recipe {
    /// Whether every amount of the recipe is compact.
    pub open spec fn compact(self) -> bool {
        &&& compact_flours(self.flour@)
        &&& self.salt.compact()
        &&& self.water.compact()
        &&& self.yeast.stored().compact()
        &&& self.enrichments matches Some(list) ==> compact_enrichments(list@)
    }

    /// A base recipe: every amount is a baker's percentage, and the flours add
    /// up to 100.
    pub fn new(
        name: &'static str,
        flour: Vec<Flour>,
        salt: Quantity,
        water: Quantity,
        yeast: Yeast,
        enrichments: Option<Vec<(&'static str, Quantity)>>,
    ) -> (r: Self)
        ensures
            r.name == name,
            r.flour == flour,
            r.salt == salt,
            r.water == water,
            r.yeast == yeast,
            r.enrichments == enrichments,
            r.base,
    {
        Self { name, flour, salt, water, yeast, enrichments, base: true }
    }

    /// Whether every amount of the recipe is compact.
    pub fn is_compact(&self) -> (b: bool)
        ensures
            b == self.compact(),
    {
        let mut i: usize = 0;
        while i < self.flour.len()
            invariant
                i <= self.flour.len(),
                forall|j: int| 0 <= j < i ==> (#[trigger] self.flour@[j]).stored().compact(),
            decreases self.flour.len() - i,
        {
            if !self.flour[i].quantity().is_compact() {
                return false;
            }
            i += 1;
        }
        if !(self.salt.is_compact() && self.water.is_compact()
            && self.yeast.quantity().is_compact()) {
            return false;
        }
        match &self.enrichments {
            None => true,
            Some(list) => {
                let mut k: usize = 0;
                while k < list.len()
                    invariant
                        k <= list.len(),
                        self.enrichments == Some(*list),
                        forall|j: int| 0 <= j < k ==> (#[trigger] list@[j]).1.compact(),
                    decreases list.len() - k,
                {
                    if !list[k].1.is_compact() {
                        assert(!list@[k as int].1.compact());
                        return false;
                    }
                    k += 1;
                }
                true
            },
        }
    }

    /// The recipe for `grams` of flour. The recipe itself stays as it is.
    pub fn remap(&self, grams: Quantity) -> (r: Recipe)
        requires
            self.compact(),
            grams.compact(),
        ensures
            r@ == self@.scaled(grams@),
    {
        let mut flour: Vec<Flour> = Vec::new();
        let mut i: usize = 0;
        while i < self.flour.len()
            invariant
                i <= self.flour.len(),
                flour.len() == i,
                compact_flours(self.flour@),
                grams.compact(),
                forall|j: int|
                    0 <= j < i ==> (#[trigger] flour@[j])@ == self.flour@[j]@.with_amount(
                        scale_rule(self.flour@[j]@.amount(), grams@),
                    ),
            decreases self.flour.len() - i,
        {
            let f = &self.flour[i];
            flour.push(f.with_quantity(scale_quantity(f.quantity(), grams)));
            i += 1;
        }
        let yeast = self.yeast.with_quantity(scale_quantity(self.yeast.quantity(), grams));
        let enrichments: Option<Vec<(&'static str, Quantity)>> = match &self.enrichments {
            None => None,
            Some(list) => {
                let mut out: Vec<(&'static str, Quantity)> = Vec::new();
                let mut k: usize = 0;
                while k < list.len()
                    invariant
                        k <= list.len(),
                        out.len() == k,
                        compact_enrichments(list@),
                        grams.compact(),
                        forall|j: int|
                            0 <= j < k ==> (#[trigger] out@[j]).0@ == list@[j].0@ && out@[j].1@
                                == scale_rule(list@[j].1@, grams@),
                    decreases list.len() - k,
                {
                    let e = &list[k];
                    out.push((e.0, scale_quantity(e.1, grams)));
                    k += 1;
                }
                assert(enrichment_views(out@) =~= enrichment_views(list@).map_values(
                    |e: (Seq<char>, real)| (e.0, scale_rule(e.1, grams@)),
                ));
                Some(out)
            },
        };
        let r = Recipe {
            name: self.name,
            flour,
            salt: scale_quantity(self.salt, grams),
            water: scale_quantity(self.water, grams),
            yeast,
            enrichments,
            base: false,
        };
        assert(r@.flour =~= self@.scaled(grams@).flour);
        r
    }
}

/// Scaling is linear: in the recipe for `grams` of flour the salt, the water,
/// the yeast, each flour and each enrichment is its old amount times `grams`
/// over 100, under its old name and kind.
pub proof fn lemma_scaled_amounts(r: RecipeView, grams: real)
    ensures
        r.scaled(grams).name == r.name,
        r.scaled(grams).salt == r.salt * grams / 100real,
        r.scaled(grams).water == r.water * grams / 100real,
        r.scaled(grams).yeast == r.yeast.with_amount(r.yeast.amount() * grams / 100real),
        r.scaled(grams).flour.len() == r.flour.len(),
        forall|i: int|
            0 <= i < r.flour.len() ==> #[trigger] r.scaled(grams).flour[i] == r.flour[i].with_amount(
                r.flour[i].amount() * grams / 100real,
            ),
        r.enrichments is None <==> r.scaled(grams).enrichments is None,
        r.enrichments matches Some(list) ==> {
            &&& r.scaled(grams).enrichments.unwrap().len() == list.len()
            &&& forall|i: int|
                0 <= i < list.len() ==> #[trigger] r.scaled(grams).enrichments.unwrap()[i] == (
                    list[i].0,
                    list[i].1 * grams / 100real,
                )
        },
{
}

/// For 100 grams of flour every amount of the recipe is its percentage.
pub proof fn lemma_scaled_to_hundred(r: RecipeView)
    ensures
        r.scaled(100real) == (RecipeView { base: false, ..r }),
{
    let s = r.scaled(100real);
    assert forall|q: real| scale_rule(q, 100real) == q by {}
    assert(s.flour =~= r.flour);
    match r.enrichments {
        None => {},
        Some(list) => {
            assert(s.enrichments.unwrap() =~= list);
        },
    }
}

} // verus!
