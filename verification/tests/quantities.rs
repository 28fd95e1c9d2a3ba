use bakers_percent::flour::Flour;
use bakers_percent::quantity::Quantity;
use bakers_percent::yeast::Yeast;

#[test]
fn zero_denominator_is_no_quantity() {
    assert!(Quantity::new(1, 0).is_none());
    assert!(Quantity::new(0, 0).is_none());
    assert!(Quantity::new(0, 1).is_some());
}

#[test]
fn parts_are_stored_as_given() {
    let x = Quantity::new(-6, 4).unwrap();
    assert_eq!(x.numer(), -6);
    assert_eq!(x.denom(), 4);
    let y = Quantity::from_int(58);
    assert_eq!(y.numer(), 58);
    assert_eq!(y.denom(), 1);
}

#[test]
fn same_value_compares_the_numbers() {
    let half = Quantity::new(1, 2).unwrap();
    assert!(half.same_value(&Quantity::new(5, 10).unwrap()));
    assert!(half.same_value(&half));
    assert!(!half.same_value(&Quantity::new(-1, 2).unwrap()));
    assert!(!half.same_value(&Quantity::new(2, 1).unwrap()));
    assert!(Quantity::from_int(0).same_value(&Quantity::new(0, 7).unwrap()));
    assert!(Quantity::new(i64::MIN, u32::MAX)
        .unwrap()
        .same_value(&Quantity::new(i64::MIN, u32::MAX).unwrap()));
    assert!(!Quantity::new(i64::MAX, u32::MAX)
        .unwrap()
        .same_value(&Quantity::new(i64::MAX, u32::MAX - 1).unwrap()));
}

#[test]
fn made_quantities_are_compact() {
    assert!(Quantity::new(i64::MAX, u32::MAX).unwrap().is_compact());
    assert!(Quantity::new(i64::MIN, 1).unwrap().is_compact());
    assert!(Quantity::from_int(i64::MIN).is_compact());
}

#[test]
fn flour_keeps_kind_and_amount() {
    let f = Flour::WW(Quantity::from_int(30));
    assert!(f.quantity().same_value(&Quantity::from_int(30)));
    assert_eq!(f.label(), "whole wheat flour");
    assert_eq!(Flour::AP(Quantity::from_int(1)).label(), "ap flour");
    assert_eq!(Flour::Bread(Quantity::from_int(1)).label(), "bread flour");
    let g = f.with_quantity(Quantity::from_int(7));
    assert!(matches!(g, Flour::WW(_)));
    assert_eq!(g.quantity().numer(), 7);
    assert!(matches!(
        Flour::AP(Quantity::from_int(1)).with_quantity(Quantity::from_int(2)),
        Flour::AP(_)
    ));
    assert!(matches!(
        Flour::Bread(Quantity::from_int(1)).with_quantity(Quantity::from_int(2)),
        Flour::Bread(_)
    ));
}

#[test]
fn yeast_keeps_kind_and_amount() {
    let y = Yeast::Starter(Quantity::from_int(20));
    assert_eq!(y.label(), "sourdough starter");
    assert_eq!(Yeast::Instant(Quantity::from_int(1)).label(), "instant yeast");
    assert_eq!(y.quantity().numer(), 20);
    let z = y.with_quantity(Quantity::from_int(3));
    assert!(matches!(z, Yeast::Starter(_)));
    assert_eq!(z.quantity().numer(), 3);
    assert!(matches!(
        Yeast::Instant(Quantity::from_int(1)).with_quantity(Quantity::from_int(2)),
        Yeast::Instant(_)
    ));
}
