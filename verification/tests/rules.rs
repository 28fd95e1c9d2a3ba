use bakers_percent::highaltitude::{
    calc_leaven, chem_leavener_at_alt, egg_at_alt, en_at_alt, flour_at_alt, liquid_at_alt,
    sweetener_at_alt, yeast_at_alt,
};
use bakers_percent::quantity::Quantity;

fn q(num: i64, den: u32) -> Quantity {
    Quantity::new(num, den).unwrap()
}

fn whole(n: i64) -> Quantity {
    Quantity::from_int(n)
}

fn float(x: &Quantity) -> f64 {
    x.numer() as f64 / x.denom() as f64
}

fn assert_is(x: Quantity, num: i64, den: u32) {
    assert!(x.is_compact());
    assert!(
        x.same_value(&q(num, den)),
        "{}/{} is not {}/{}",
        x.numer(),
        x.denom(),
        num,
        den
    );
}

#[test]
fn flour_280_at_7000_feet() {
    let r = flour_at_alt(whole(280), whole(7000));
    assert_is(r, 3034, 10);
    assert!((float(&r) - 303.4).abs() < 1e-9);
}

#[test]
fn flour_gains_one_step_per_whole_1500_feet() {
    assert_is(flour_at_alt(whole(100), whole(3000)), 1078, 10);
    assert_is(flour_at_alt(whole(100), whole(4499)), 1078, 10);
    assert_is(flour_at_alt(whole(100), whole(4500)), 1156, 10);
    assert_is(flour_at_alt(whole(100), q(44999, 10)), 1078, 10);
    assert_is(flour_at_alt(whole(100), whole(6000)), 1234, 10);
}

#[test]
fn flour_below_3000_feet_counts_bands_downwards() {
    assert_is(flour_at_alt(whole(100), whole(2999)), 100, 1);
    assert_is(flour_at_alt(whole(100), whole(1500)), 100, 1);
    assert_is(flour_at_alt(whole(100), whole(1499)), 922, 10);
    assert_is(flour_at_alt(whole(100), whole(0)), 922, 10);
    assert_is(flour_at_alt(whole(100), whole(-1)), 844, 10);
}

#[test]
fn water_200_at_7000_feet() {
    let r = liquid_at_alt(whole(200), whole(7000));
    assert_is(r, 2448, 10);
    assert!((float(&r) - 244.8).abs() < 1e-9);
}

#[test]
fn liquid_gains_one_step_per_whole_1000_feet() {
    assert_is(liquid_at_alt(whole(10), whole(3000)), 248, 10);
    assert_is(liquid_at_alt(whole(10), whole(3999)), 248, 10);
    assert_is(liquid_at_alt(whole(10), whole(4000)), 323, 10);
    assert_is(liquid_at_alt(whole(10), whole(2999)), 173, 10);
    assert_is(liquid_at_alt(whole(10), whole(0)), 23, 10);
}

#[test]
fn yeast_loses_a_quarter() {
    assert_is(yeast_at_alt(whole(5)), 375, 100);
    assert_is(yeast_at_alt(whole(0)), 0, 1);
    assert_is(yeast_at_alt(whole(-4)), -3, 1);
}

#[test]
fn eggs_gain_a_flat_amount() {
    assert_is(egg_at_alt(whole(20)), 698, 10);
    assert_is(egg_at_alt(whole(0)), 498, 10);
    assert_is(egg_at_alt(q(-498, 10)), 0, 1);
}

#[test]
fn sweetener_250() {
    let r = sweetener_at_alt(whole(250));
    assert_is(r, 2375, 10);
    assert!((float(&r) - 237.5).abs() < 1e-9);
}

#[test]
fn sweetener_steps_every_200() {
    assert_is(sweetener_at_alt(whole(40)), 40, 1);
    assert_is(sweetener_at_alt(whole(199)), 199, 1);
    assert_is(sweetener_at_alt(whole(200)), 1875, 10);
    assert_is(sweetener_at_alt(whole(400)), 375, 1);
    assert_is(sweetener_at_alt(whole(-1)), 115, 10);
}

#[test]
fn baking_soda_outside_every_band_stays() {
    assert_is(chem_leavener_at_alt(q(23, 10), whole(7000)), 23, 10);
    assert_is(en_at_alt("baking soda", q(23, 10), whole(7000)), 23, 10);
}

#[test]
fn baking_soda_in_the_lowest_band() {
    let r = chem_leavener_at_alt(q(46, 100), whole(4000));
    assert_is(r, 4025, 10000);
    assert!((float(&r) - 0.4025).abs() < 1e-12);
    assert_is(en_at_alt("baking soda", q(46, 100), whole(4000)), 4025, 10000);
    assert_is(en_at_alt("baking powder", q(46, 100), whole(4000)), 4025, 10000);
}

#[test]
fn chemical_leavener_factors_by_band() {
    // amounts with index 10, 11, 20, 21, 30, 31, 40 and 41
    let low = whole(4000);
    let med = whole(6000);
    let high = whole(7000);
    assert_is(chem_leavener_at_alt(q(46, 100), med), 23, 100);
    assert_is(chem_leavener_at_alt(q(46, 100), high), 115, 1000);
    assert_is(chem_leavener_at_alt(q(506, 1000), low), 3795, 10000);
    assert_is(chem_leavener_at_alt(q(506, 1000), med), 253, 1000);
    assert_is(chem_leavener_at_alt(q(506, 1000), high), 506, 3000);
    assert_is(chem_leavener_at_alt(q(92, 100), low), 69, 100);
    assert_is(chem_leavener_at_alt(q(966, 1000), low), 644, 1000);
    assert_is(chem_leavener_at_alt(q(966, 1000), med), 4025, 10000);
    assert_is(chem_leavener_at_alt(q(966, 1000), high), 322, 1000);
    assert_is(chem_leavener_at_alt(q(138, 100), low), 92, 100);
    assert_is(chem_leavener_at_alt(q(1426, 1000), low), 89125, 100000);
    assert_is(chem_leavener_at_alt(q(1426, 1000), med), 53475, 100000);
    assert_is(chem_leavener_at_alt(q(1426, 1000), high), 3565, 10000);
    assert_is(chem_leavener_at_alt(q(184, 100), low), 115, 100);
    assert_is(chem_leavener_at_alt(q(1886, 1000), low), 1886, 1000);
    assert_is(chem_leavener_at_alt(whole(0), low), 0, 1);
}

#[test]
fn chemical_leavener_below_zero_stays() {
    assert_is(chem_leavener_at_alt(q(-1, 100), whole(4000)), -1, 100);
    assert_is(chem_leavener_at_alt(q(-46, 100), whole(4000)), -46, 100);
}

#[test]
fn leavener_altitude_bands() {
    let x = whole(8);
    let low = q(1, 2);
    let med = q(1, 4);
    let high = q(1, 8);
    assert_is(calc_leaven(x, whole(2999), low, med, high), 8, 1);
    assert_is(calc_leaven(x, q(29999, 10), low, med, high), 8, 1);
    assert_is(calc_leaven(x, whole(3000), low, med, high), 4, 1);
    assert_is(calc_leaven(x, whole(5000), low, med, high), 4, 1);
    assert_is(calc_leaven(x, q(50005, 10), low, med, high), 4, 1);
    assert_is(calc_leaven(x, whole(5001), low, med, high), 2, 1);
    assert_is(calc_leaven(x, whole(6500), low, med, high), 2, 1);
    assert_is(calc_leaven(x, whole(6501), low, med, high), 1, 1);
    assert_is(calc_leaven(x, whole(8000), low, med, high), 1, 1);
    assert_is(calc_leaven(x, q(80009, 10), low, med, high), 1, 1);
    assert_is(calc_leaven(x, whole(8001), low, med, high), 8, 1);
    assert_is(calc_leaven(x, whole(-4000), low, med, high), 8, 1);
}

#[test]
fn enrichment_rule_goes_by_exact_name() {
    let alt = whole(7000);
    assert_is(en_at_alt("eggs", whole(20), alt), 698, 10);
    assert_is(en_at_alt("sweetener", whole(250), alt), 2375, 10);
    assert_is(en_at_alt("fat", whole(40), alt), 848, 10);
    assert_is(en_at_alt("milk", whole(30), alt), 748, 10);
    assert_is(en_at_alt("liquid", whole(30), alt), 748, 10);
    assert_is(en_at_alt("powdered milk", whole(30), alt), 30, 1);
    assert_is(en_at_alt("Eggs", whole(20), alt), 20, 1);
    assert_is(en_at_alt("egg", whole(20), alt), 20, 1);
    assert_is(en_at_alt("", whole(20), alt), 20, 1);
    assert_is(en_at_alt("seeds", whole(20), alt), 20, 1);
}

#[test]
fn eggs_and_sweetener_ignore_the_altitude() {
    for feet in [-500, 0, 2999, 3000, 5500, 7000, 12000] {
        assert_is(en_at_alt("eggs", whole(4), whole(feet)), 538, 10);
        assert_is(en_at_alt("sweetener", whole(450), whole(feet)), 425, 1);
        assert_is(yeast_at_alt(whole(5)), 375, 100);
    }
}
