use crate::quantity::Quantity;
use vstd::prelude::*;

verus! {

/// A flour of the recipe with its amount.
#[derive(Debug, Clone, Copy)]
pub enum Flour {
    AP(Quantity),
    Bread(Quantity),
    WW(Quantity),
}

/// A flour with its amount as a number.
pub enum FlourView {
    AP(real),
    Bread(real),
    WW(real),
}

impl FlourView {
    /// The amount of flour.
    pub open spec fn amount(self) -> real {
        match self {
            FlourView::AP(x) => x,
            FlourView::Bread(x) => x,
            FlourView::WW(x) => x,
        }
    }

    /// The same kind of flour in the amount `x`.
    pub open spec fn with_amount(self, x: real) -> FlourView {
        match self {
            FlourView::AP(_) => FlourView::AP(x),
            FlourView::Bread(_) => FlourView::Bread(x),
            FlourView::WW(_) => FlourView::WW(x),
        }
    }
}

impl View for Flour {
    type V = FlourView;

    open spec fn view(&self) -> FlourView {
        match self {
            Flour::AP(x) => FlourView::AP(x@),
            Flour::Bread(x) => FlourView::Bread(x@),
            Flour::WW(x) => FlourView::WW(x@),
        }
    }
}

impl Flour {
    /// The stored amount.
    pub open spec fn stored(self) -> Quantity {
        match self {
            Flour::AP(x) => x,
            Flour::Bread(x) => x,
            Flour::WW(x) => x,
        }
    }

    /// The amount of flour.
    pub fn quantity(&self) -> (q: Quantity)
        ensures
            q == self.stored(),
            q@ == self@.amount(),
    {
        match self {
            Flour::AP(x) => *x,
            Flour::Bread(x) => *x,
            Flour::WW(x) => *x,
        }
    }

    /// The same kind of flour in the amount `x`.
    pub fn with_quantity(&self, x: Quantity) -> (f: Flour)
        ensures
            f.stored() == x,
            f@ == self@.with_amount(x@),
    {
        match self {
            Flour::AP(_) => Flour::AP(x),
            Flour::Bread(_) => Flour::Bread(x),
            Flour::WW(_) => Flour::WW(x),
        }
    }

    /// The name under which the flour is listed.
    pub fn label(&self) -> (s: &'static str)
        ensures
            s@ == match self@ {
                FlourView::AP(_) => "ap flour"@,
                FlourView::Bread(_) => "bread flour"@,
                FlourView::WW(_) => "whole wheat flour"@,
            },
    {
        match self {
            Flour::AP(_) => "ap flour",
            Flour::Bread(_) => "bread flour",
            Flour::WW(_) => "whole wheat flour",
        }
    }
}

} // verus!
