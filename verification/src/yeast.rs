use crate::quantity::Quantity;
use vstd::prelude::*;

verus! {

/// The leavening agent of the recipe with its amount.
#[derive(Debug, Clone, Copy)]
pub enum Yeast {
    Instant(Quantity),
    Starter(Quantity),
}

/// A leavening agent with its amount as a number.
pub enum YeastView {
    Instant(real),
    Starter(real),
}

impl YeastView {
    /// The amount of the agent.
    pub open spec fn amount(self) -> real {
        match self {
            YeastView::Instant(x) => x,
            YeastView::Starter(x) => x,
        }
    }

    /// The same agent in the amount `x`.
    pub open spec fn with_amount(self, x: real) -> YeastView {
        match self {
            YeastView::Instant(_) => YeastView::Instant(x),
            YeastView::Starter(_) => YeastView::Starter(x),
        }
    }
}

impl View for Yeast {
    type V = YeastView;

    open spec fn view(&self) -> YeastView {
        match self {
            Yeast::Instant(x) => YeastView::Instant(x@),
            Yeast::Starter(x) => YeastView::Starter(x@),
        }
    }
}

impl Yeast {
    /// The stored amount.
    pub open spec fn stored(self) -> Quantity {
        match self {
            Yeast::Instant(x) => x,
            Yeast::Starter(x) => x,
        }
    }

    /// The amount of the agent.
    pub fn quantity(&self) -> (q: Quantity)
        ensures
            q == self.stored(),
            q@ == self@.amount(),
    {
        match self {
            Yeast::Instant(x) => *x,
            Yeast::Starter(x) => *x,
        }
    }

    /// The same agent in the amount `x`.
    pub fn with_quantity(&self, x: Quantity) -> (y: Yeast)
        ensures
            y.stored() == x,
            y@ == self@.with_amount(x@),
    {
        match self {
            Yeast::Instant(_) => Yeast::Instant(x),
            Yeast::Starter(_) => Yeast::Starter(x),
        }
    }

    /// The name under which the agent is listed.
    pub fn label(&self) -> (s: &'static str)
        ensures
            s@ == match self@ {
                YeastView::Instant(_) => "instant yeast"@,
                YeastView::Starter(_) => "sourdough starter"@,
            },
    {
        match self {
            Yeast::Instant(_) => "instant yeast",
            Yeast::Starter(_) => "sourdough starter",
        }
    }
}

} // verus!
