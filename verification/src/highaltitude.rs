use crate::quantity::{
    floor_div, lemma_floor, lemma_plus, lemma_product_bound, lemma_times, Quantity,
};
use crate::flour::{Flour, FlourView};
use crate::recipe::{
    compact_enrichments, compact_flours, enrichment_views, flour_views, Recipe, RecipeView,
};
use crate::yeast::{Yeast, YeastView};
use vstd::prelude::*;

verus! {

/// A recipe in grams that was adjusted for baking at an altitude.
#[derive(Debug)]
pub struct HighAltiudeRecipe {
    pub name: &'static str,
    pub flour: Vec<Flour>,
    pub salt: Quantity,
    pub water: Quantity,
    pub yeast: Yeast,
    pub enrichments: Option<Vec<(&'static str, Quantity)>>,
    /// The altitude in feet that the amounts were adjusted for.
    pub altitude: Quantity,
    /// Whether the amounts are baker's percentages: they never are.
    pub base: bool,
}

/// An adjusted recipe with every amount as a number.
pub struct HighAltiudeRecipeView {
    pub name: Seq<char>,
    pub flour: Seq<FlourView>,
    pub salt: real,
    pub water: real,
    pub yeast: YeastView,
    pub enrichments: Option<Seq<(Seq<char>, real)>>,
    pub altitude: real,
    pub base: bool,
}

impl View for HighAltiudeRecipe {
    type V = HighAltiudeRecipeView;

    open spec fn view(&self) -> HighAltiudeRecipeView {
        HighAltiudeRecipeView {
            name: self.name@,
            flour: flour_views(self.flour@),
            salt: self.salt@,
            water: self.water@,
            yeast: self.yeast@,
            enrichments: match self.enrichments {
                None => None,
                Some(list) => Some(enrichment_views(list@)),
            },
            altitude: self.altitude@,
            base: self.base,
        }
    }
}

/// The number of whole bands of `width` feet that `altitude` lies above 3000
/// feet; negative below 3000 feet.
pub open spec fn whole_bands(altitude: real, width: real) -> int {
    ((altitude - 3000real) / width).floor()
}

/// Flour at altitude: one spoonful of 7.8 more, and one more for each whole
/// 1500 feet above 3000.
pub open spec fn flour_rule(flour: real, altitude: real) -> real {
    flour + 78real / 10real + whole_bands(altitude, 1500real) as real * (78real / 10real)
}

/// Liquid at altitude: 14.8 more, and 7.5 more for each whole 1000 feet above
/// 3000.
pub open spec fn liquid_rule(liquid: real, altitude: real) -> real {
    liquid + 148real / 10real + whole_bands(altitude, 1000real) as real * (75real / 10real)
}

/// Yeast or starter at altitude: a quarter less, whatever the altitude.
pub open spec fn yeast_rule(yeast: real) -> real {
    yeast * (3real / 4real)
}

/// Eggs at altitude: 49.8 more, whatever the altitude.
pub open spec fn egg_rule(x: real) -> real {
    x + 498real / 10real
}

/// Sweetener at altitude: 12.5 less for each whole 200 in the amount.
pub open spec fn sweetener_rule(x: real) -> real {
    x - (125real / 10real) * ((x / 200real).floor() as real)
}

/// The band of a chemical leavener: its amount in hundredths of a teaspoon of
/// 4.6, rounded down.
pub open spec fn leavener_index(x: real) -> int {
    ((x / (46real / 10real)) * 100real).floor()
}

/// A chemical leavener times the factor of the altitude's band: `low` from 3000
/// to 5000 feet, `med` from 5001 to 6500, `high` from 6501 to 8000, counted in
/// whole feet. Elsewhere the amount stays.
pub open spec fn leaven_rule(x: real, altitude: real, low: real, med: real, high: real) -> real {
    let feet = altitude.floor();
    if 3000 <= feet <= 5000 {
        x * low
    } else if 5001 <= feet <= 6500 {
        x * med
    } else if 6501 <= feet <= 8000 {
        x * high
    } else {
        x
    }
}

/// A chemical leavener at altitude: the three factors go by the amount's band,
/// and an amount outside every band stays.
pub open spec fn chem_leavener_rule(x: real, altitude: real) -> real {
    let idx = leavener_index(x);
    if 0 <= idx <= 10 {
        leaven_rule(x, altitude, 7real / 8real, 1real / 2real, 1real / 4real)
    } else if 11 <= idx <= 20 {
        leaven_rule(x, altitude, 3real / 4real, 1real / 2real, 1real / 3real)
    } else if 21 <= idx <= 30 {
        leaven_rule(x, altitude, 2real / 3real, 5real / 12real, 1real / 3real)
    } else if 31 <= idx <= 40 {
        leaven_rule(x, altitude, 5real / 8real, 3real / 8real, 1real / 4real)
    } else {
        x
    }
}

/// An enrichment at altitude: the rule goes by the exact name, and an amount
/// under any other name stays.
pub open spec fn enrichment_rule(name: Seq<char>, x: real, altitude: real) -> real {
    if name == "eggs"@ {
        egg_rule(x)
    } else if name == "sweetener"@ {
        sweetener_rule(x)
    } else if name == "fat"@ || name == "milk"@ || name == "liquid"@ {
        liquid_rule(x, altitude)
    } else if name == "baking soda"@ || name == "baking powder"@ {
        chem_leavener_rule(x, altitude)
    } else {
        x
    }
}

/// Subtracting a whole number from a fraction and dividing by another.
proof fn lemma_shift_divide(a: int, b: int, s: int, w: int)
    by (nonlinear_arith)
    requires
        b > 0,
        w > 0,
    ensures
        (a as real / b as real - s as real) / (w as real) == (a - s * b) as real / (w * b) as real,
{
}

/// The quotient by a divisor of at least 1 is no larger than the dividend.
proof fn lemma_quotient_bound(a: int, b: int, m: int)
    by (nonlinear_arith)
    requires
        b >= 1,
        -m <= a <= m,
    ensures
        -m <= a / b <= m,
{
}

/// `whole_bands` of a compact altitude, for a width of 1000 or 1500 feet.
fn bands_above(altitude: Quantity, width: i128) -> (k: i128)
    requires
        altitude.compact(),
        width == 1000 || width == 1500,
    ensures
        k == whole_bands(altitude@, width as int as real),
        -0x1_0000_0000_0000_0000 <= k <= 0x1_0000_0000_0000_0000,
{
    let n: i128 = altitude.numer();
    let d: i128 = altitude.denom() as i128;
    proof {
        lemma_shift_divide(n as int, d as int, 3000, width as int);
        lemma_floor(n - 3000 * d, width * d);
        lemma_quotient_bound(n - 3000 * d, width * d, 0x1_0000_0000_0000_0000);
    }
    floor_div(n - 3000 * d, width * d)
}

/// An amount of flour at `altitude` feet.
pub fn flour_at_alt(flour: Quantity, altitude: Quantity) -> (r: Quantity)
    requires
        flour.compact(),
        altitude.compact(),
    ensures
        r@ == flour_rule(flour@, altitude@),
{
    let k: i128 = bands_above(altitude, 1500);
    let n: i128 = flour.numer();
    let d: i128 = flour.denom() as i128;
    let steps: i128 = 78 + 78 * k;
    proof {
        lemma_product_bound(steps as int, d as int, 0x80_0000_0000_0000_0000, 0xffff_ffff);
        lemma_plus(n as int, d as int, steps as int, 10);
        assert(steps as int as real / 10 as real == 78real / 10real + k as int as real * (78real
            / 10real));
    }
    Quantity::ratio(10 * n + steps * d, (10 * d) as u128)
}

/// An amount of water, fat, milk or other liquid at `altitude` feet.
pub fn liquid_at_alt(liquid: Quantity, altitude: Quantity) -> (r: Quantity)
    requires
        liquid.compact(),
        altitude.compact(),
    ensures
        r@ == liquid_rule(liquid@, altitude@),
{
    let k: i128 = bands_above(altitude, 1000);
    let n: i128 = liquid.numer();
    let d: i128 = liquid.denom() as i128;
    let steps: i128 = 148 + 75 * k;
    proof {
        lemma_product_bound(steps as int, d as int, 0x80_0000_0000_0000_0000, 0xffff_ffff);
        lemma_plus(n as int, d as int, steps as int, 10);
        assert(steps as int as real / 10 as real == 148real / 10real + k as int as real * (75real
            / 10real));
    }
    Quantity::ratio(10 * n + steps * d, (10 * d) as u128)
}

/// An amount of yeast or starter at any altitude.
pub fn yeast_at_alt(yeast: Quantity) -> (r: Quantity)
    requires
        yeast.compact(),
    ensures
        r@ == yeast_rule(yeast@),
{
    let n: i128 = yeast.numer();
    let d: u128 = yeast.denom();
    proof {
        lemma_times(n as int, d as int, 3, 4);
    }
    Quantity::ratio(n * 3, d * 4)
}

/// An amount of eggs at any altitude.
pub fn egg_at_alt(x: Quantity) -> (r: Quantity)
    requires
        x.compact(),
    ensures
        r@ == egg_rule(x@),
{
    let n: i128 = x.numer();
    let d: i128 = x.denom() as i128;
    proof {
        lemma_plus(n as int, d as int, 498, 10);
    }
    Quantity::ratio(10 * n + 498 * d, (10 * d) as u128)
}

/// An amount of sweetener at any altitude.
pub fn sweetener_at_alt(x: Quantity) -> (r: Quantity)
    requires
        x.compact(),
    ensures
        r@ == sweetener_rule(x@),
{
    let n: i128 = x.numer();
    let d: i128 = x.denom() as i128;
    let wide: i128 = 200 * d;
    proof {
        lemma_shift_divide(n as int, d as int, 0, 200);
        lemma_floor(n as int, wide as int);
        lemma_quotient_bound(n as int, wide as int, 0x8000_0000_0000_0000);
    }
    let steps: i128 = floor_div(n, wide);
    assert(-0x8000_0000_0000_0000 <= steps <= 0x8000_0000_0000_0000);
    let less: i128 = 0 - 25 * steps;
    proof {
        lemma_product_bound(less as int, d as int, 0x20_0000_0000_0000_0000, 0xffff_ffff);
        lemma_plus(n as int, d as int, less as int, 2);
        assert(less as int as real / 2 as real == 0real - (125real / 10real) * (steps as int
            as real));
    }
    Quantity::ratio(2 * n + less * d, (2 * d) as u128)
}

/// The amount of a chemical leavener in hundredths of a teaspoon.
proof fn lemma_index(a: int, b: int)
    by (nonlinear_arith)
    requires
        b > 0,
    ensures
        ((a as real / b as real) / (46real / 10real)) * 100real == (1000 * a) as real / (46
            * b) as real,
{
}

/// `leavener_index` of a compact amount.
fn leavener_band(x: Quantity) -> (idx: i128)
    requires
        x.compact(),
    ensures
        idx == leavener_index(x@),
{
    let n: i128 = x.numer();
    let d: i128 = x.denom() as i128;
    proof {
        lemma_index(n as int, d as int);
        lemma_floor(1000 * n, 46 * d);
    }
    floor_div(1000 * n, 46 * d)
}

/// A chemical leavener times `low`, `med` or `high`, by the band of `alt` feet.
pub fn calc_leaven(x: Quantity, alt: Quantity, low: Quantity, med: Quantity, high: Quantity) -> (r:
    Quantity)
    requires
        x.compact(),
        alt.compact(),
        low.compact(),
        med.compact(),
        high.compact(),
    ensures
        r@ == leaven_rule(x@, alt@, low@, med@, high@),
{
    proof {
        lemma_floor(alt.num(), alt.den());
    }
    let feet: i128 = floor_div(alt.numer(), alt.denom() as i128);
    if 3000 <= feet && feet <= 5000 {
        x.times(low)
    } else if 5001 <= feet && feet <= 6500 {
        x.times(med)
    } else if 6501 <= feet && feet <= 8000 {
        x.times(high)
    } else {
        x
    }
}

/// An amount of baking soda or baking powder at `alt` feet.
pub fn chem_leavener_at_alt(x: Quantity, alt: Quantity) -> (r: Quantity)
    requires
        x.compact(),
        alt.compact(),
    ensures
        r@ == chem_leavener_rule(x@, alt@),
{
    let idx: i128 = leavener_band(x);
    if 0 <= idx && idx <= 10 {
        calc_leaven(x, alt, Quantity::ratio(7, 8), Quantity::ratio(1, 2), Quantity::ratio(1, 4))
    } else if 11 <= idx && idx <= 20 {
        calc_leaven(x, alt, Quantity::ratio(3, 4), Quantity::ratio(1, 2), Quantity::ratio(1, 3))
    } else if 21 <= idx && idx <= 30 {
        calc_leaven(x, alt, Quantity::ratio(2, 3), Quantity::ratio(5, 12), Quantity::ratio(1, 3))
    } else if 31 <= idx && idx <= 40 {
        calc_leaven(x, alt, Quantity::ratio(5, 8), Quantity::ratio(3, 8), Quantity::ratio(1, 4))
    } else {
        x
    }
}

/// Whether two names are the same text, compared as owned strings.
fn same_name(a: &str, b: &str) -> (r: bool)
    ensures
        r == (a@ == b@),
{
    a.to_owned() == b.to_owned()
}

/// The amount `x` of the enrichment `name` at `alt` feet.
pub fn en_at_alt(name: &str, x: Quantity, alt: Quantity) -> (r: Quantity)
    requires
        x.compact(),
        alt.compact(),
    ensures
        r@ == enrichment_rule(name@, x@, alt@),
{
    if same_name(name, "eggs") {
        egg_at_alt(x)
    } else if same_name(name, "sweetener") {
        sweetener_at_alt(x)
    } else if same_name(name, "fat") || same_name(name, "milk") || same_name(name, "liquid") {
        liquid_at_alt(x, alt)
    } else if same_name(name, "baking soda") || same_name(name, "baking powder") {
        chem_leavener_at_alt(x, alt)
    } else {
        x
    }
}

/// The recipe `r` at `altitude` feet: each flour by the flour rule, the water by
/// the liquid rule, the yeast by the yeast rule, each enrichment by the rule of
/// its name. The salt and the names stay.
pub open spec fn adjusted(r: RecipeView, altitude: real) -> HighAltiudeRecipeView {
    HighAltiudeRecipeView {
        name: r.name,
        flour: r.flour.map_values(
            |f: FlourView| f.with_amount(flour_rule(f.amount(), altitude)),
        ),
        salt: r.salt,
        water: liquid_rule(r.water, altitude),
        yeast: r.yeast.with_amount(yeast_rule(r.yeast.amount())),
        enrichments: match r.enrichments {
            None => None,
            Some(list) => Some(
                list.map_values(|e: (Seq<char>, real)| (e.0, enrichment_rule(e.0, e.1, altitude))),
            ),
        },
        altitude,
        base: false,
    }
}

impl HighAltiudeRecipe {
    /// The recipe adjusted for `altitude` feet. No altitude is refused: below
    /// 3000 feet the same rules count the bands downwards.
    pub fn new(altitude: Quantity, recipe: Recipe) -> (r: Self)
        requires
            recipe.compact(),
            altitude.compact(),
        ensures
            r@ == adjusted(recipe@, altitude@),
    {
        let mut flour: Vec<Flour> = Vec::new();
        let mut i: usize = 0;
        while i < recipe.flour.len()
            invariant
                i <= recipe.flour.len(),
                flour.len() == i,
                compact_flours(recipe.flour@),
                altitude.compact(),
                forall|j: int|
                    0 <= j < i ==> (#[trigger] flour@[j])@ == recipe.flour@[j]@.with_amount(
                        flour_rule(recipe.flour@[j]@.amount(), altitude@),
                    ),
            decreases recipe.flour.len() - i,
        {
            let f = &recipe.flour[i];
            flour.push(f.with_quantity(flour_at_alt(f.quantity(), altitude)));
            i += 1;
        }
        let water = liquid_at_alt(recipe.water, altitude);
        let yeast = recipe.yeast.with_quantity(yeast_at_alt(recipe.yeast.quantity()));
        let enrichments: Option<Vec<(&'static str, Quantity)>> = match &recipe.enrichments {
            None => None,
            Some(list) => {
                let mut out: Vec<(&'static str, Quantity)> = Vec::new();
                let mut k: usize = 0;
                while k < list.len()
                    invariant
                        k <= list.len(),
                        out.len() == k,
                        compact_enrichments(list@),
                        altitude.compact(),
                        forall|j: int|
                            0 <= j < k ==> (#[trigger] out@[j]).0@ == list@[j].0@ && out@[j].1@
                                == enrichment_rule(list@[j].0@, list@[j].1@, altitude@),
                    decreases list.len() - k,
                {
                    let e = &list[k];
                    out.push((e.0, en_at_alt(e.0, e.1, altitude)));
                    k += 1;
                }
                assert(enrichment_views(out@) =~= enrichment_views(list@).map_values(
                    |e: (Seq<char>, real)| (e.0, enrichment_rule(e.0, e.1, altitude@)),
                ));
                Some(out)
            },
        };
        let r = Self {
            name: recipe.name,
            flour,
            salt: recipe.salt,
            water,
            yeast,
            enrichments,
            altitude,
            base: false,
        };
        assert(r@.flour =~= adjusted(recipe@, altitude@).flour);
        r
    }
}

/// The yeast of an adjusted recipe does not depend on the altitude: at every
/// altitude it is three quarters of what it was.
pub proof fn lemma_yeast_at_any_altitude(r: RecipeView, altitude: real)
    ensures
        adjusted(r, altitude).yeast.amount() == r.yeast.amount() * (3real / 4real),
{
}

/// Eggs gain 49.8 at every altitude.
pub proof fn lemma_eggs_at_any_altitude(x: real, altitude: real)
    ensures
        enrichment_rule("eggs"@, x, altitude) == x + 498real / 10real,
{
}

} // verus!
