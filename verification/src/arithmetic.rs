//! The rounding arithmetic that the synthesis engine is built on.
//!
//! The engine fixes which operations are applied to which values and in
//! which order; what an operation yields is the business of whoever
//! implements `Arithmetic`. The trait promises nothing of a result, so every
//! contract in this library holds for every implementation. A contract
//! names a computed value by its `Formula` and says that the arithmetic
//! `yields` the value for it: each operation of the formula was asked of the
//! arithmetic, on the values that its operands yielded.

use vstd::prelude::*;
use crate::single::{single, Single};

verus! {

/// Single-precision arithmetic on bit patterns.
pub trait Arithmetic {
    /// `a + b`.
    fn sum(&self, a: Single, b: Single) -> Single;

    /// `a - b`.
    fn difference(&self, a: Single, b: Single) -> Single;

    /// `a * b`.
    fn product(&self, a: Single, b: Single) -> Single;

    /// `a / b`.
    fn quotient(&self, a: Single, b: Single) -> Single;

    /// The square root of `a`.
    fn square_root(&self, a: Single) -> Single;

    /// The sine of `a`, an angle in radians.
    fn sine(&self, a: Single) -> Single;

    /// The cosine of `a`, an angle in radians.
    fn cosine(&self, a: Single) -> Single;

    /// `base` raised to `exponent`.
    fn power(&self, base: Single, exponent: Single) -> Single;
}

/// An expression over single-precision values. The first eight kinds of
/// node after `Value` stand for the operations of `Arithmetic`; negation
/// and clamping are exact and done on the bits.
pub enum Formula {
    Value(Single),
    Sum(Box<Formula>, Box<Formula>),
    Difference(Box<Formula>, Box<Formula>),
    Product(Box<Formula>, Box<Formula>),
    Quotient(Box<Formula>, Box<Formula>),
    SquareRoot(Box<Formula>),
    Sine(Box<Formula>),
    Cosine(Box<Formula>),
    Power(Box<Formula>, Box<Formula>),
    Negated(Box<Formula>),
    Clamped(Box<Formula>, Single, Single),
}

/// The formula that is the value `v`.
pub open spec fn value(v: Single) -> Formula {
    Formula::Value(v)
}

/// The formula that is the value with the pattern `bits`.
pub open spec fn constant(bits: u32) -> Formula {
    Formula::Value(single(bits))
}

/// Whether `r` is `x` restricted to `[lo, hi]`.
pub open spec fn clamps_to(x: Single, lo: Single, hi: Single, r: Single) -> bool {
    r == x.clamped(lo, hi)
}

impl Formula {
    /// `self + other`.
    pub open spec fn plus(self, other: Formula) -> Formula {
        Formula::Sum(Box::new(self), Box::new(other))
    }

    /// `self - other`.
    pub open spec fn minus(self, other: Formula) -> Formula {
        Formula::Difference(Box::new(self), Box::new(other))
    }

    /// `self * other`.
    pub open spec fn times(self, other: Formula) -> Formula {
        Formula::Product(Box::new(self), Box::new(other))
    }

    /// `self / other`.
    pub open spec fn over(self, other: Formula) -> Formula {
        Formula::Quotient(Box::new(self), Box::new(other))
    }

    /// The square root of `self`.
    pub open spec fn root(self) -> Formula {
        Formula::SquareRoot(Box::new(self))
    }

    /// The sine of `self`.
    pub open spec fn sine(self) -> Formula {
        Formula::Sine(Box::new(self))
    }

    /// The cosine of `self`.
    pub open spec fn cosine(self) -> Formula {
        Formula::Cosine(Box::new(self))
    }

    /// `self` raised to `exponent`.
    pub open spec fn raised(self, exponent: Formula) -> Formula {
        Formula::Power(Box::new(self), Box::new(exponent))
    }

    /// `-self`.
    pub open spec fn negated(self) -> Formula {
        Formula::Negated(Box::new(self))
    }

    /// `self` restricted to `[lo, hi]`.
    pub open spec fn clamped(self, lo: Single, hi: Single) -> Formula {
        Formula::Clamped(Box::new(self), lo, hi)
    }

    /// Whether `r` is a value that `ops` may give for the formula: a value
    /// yields itself; an operation yields what `ops` may return for it on
    /// values that its operands yield; a negation or a clamp yields the
    /// negated or clamped value of what its operand yields.
    pub open spec fn yields<A: Arithmetic>(self, ops: &A, r: Single) -> bool
        decreases self,
    {
        match self {
            Formula::Value(v) => r == v,
            Formula::Sum(a, b) => exists|x: Single, y: Single|
                #![trigger call_ensures(A::sum, (ops, x, y), r)]
                a.yields(ops, x) && b.yields(ops, y) && call_ensures(A::sum, (ops, x, y), r),
            Formula::Difference(a, b) => exists|x: Single, y: Single|
                #![trigger call_ensures(A::difference, (ops, x, y), r)]
                a.yields(ops, x) && b.yields(ops, y) && call_ensures(
                    A::difference,
                    (ops, x, y),
                    r,
                ),
            Formula::Product(a, b) => exists|x: Single, y: Single|
                #![trigger call_ensures(A::product, (ops, x, y), r)]
                a.yields(ops, x) && b.yields(ops, y) && call_ensures(A::product, (ops, x, y), r),
            Formula::Quotient(a, b) => exists|x: Single, y: Single|
                #![trigger call_ensures(A::quotient, (ops, x, y), r)]
                a.yields(ops, x) && b.yields(ops, y) && call_ensures(A::quotient, (ops, x, y), r),
            Formula::SquareRoot(a) => exists|x: Single|
                #![trigger call_ensures(A::square_root, (ops, x), r)]
                a.yields(ops, x) && call_ensures(A::square_root, (ops, x), r),
            Formula::Sine(a) => exists|x: Single|
                #![trigger call_ensures(A::sine, (ops, x), r)]
                a.yields(ops, x) && call_ensures(A::sine, (ops, x), r),
            Formula::Cosine(a) => exists|x: Single|
                #![trigger call_ensures(A::cosine, (ops, x), r)]
                a.yields(ops, x) && call_ensures(A::cosine, (ops, x), r),
            Formula::Power(a, b) => exists|x: Single, y: Single|
                #![trigger call_ensures(A::power, (ops, x, y), r)]
                a.yields(ops, x) && b.yields(ops, y) && call_ensures(A::power, (ops, x, y), r),
            Formula::Negated(a) => a.yields(ops, r.negated()),
            Formula::Clamped(a, lo, hi) => exists|x: Single|
                #![trigger clamps_to(x, lo, hi, r)]
                a.yields(ops, x) && clamps_to(x, lo, hi, r),
        }
    }
}

/// A computed value together with the formula that it was computed by.
#[derive(Clone, Copy)]
pub struct Term {
    pub value: Single,
    pub formula: Ghost<Formula>,
}

impl Term {
    /// Whether `ops` yields the term's value for the term's formula.
    pub open spec fn sound<A: Arithmetic>(self, ops: &A) -> bool {
        self.formula@.yields(ops, self.value)
    }

    /// The term of a given value.
    pub fn of(v: Single) -> (t: Term)
        ensures
            t.value == v,
            t.formula@ == value(v),
    {
        Term { value: v, formula: Ghost(value(v)) }
    }

    /// The term of the value with the given pattern.
    pub fn bits(bits: u32) -> (t: Term)
        ensures
            t.value.bits == bits,
            t.formula@ == constant(bits),
    {
        Term { value: Single::from_bits(bits), formula: Ghost(constant(bits)) }
    }

    /// `self + other`.
    pub fn plus<A: Arithmetic>(self, ops: &A, other: Term) -> (t: Term)
        requires
            self.sound(ops),
            other.sound(ops),
        ensures
            t.sound(ops),
            t.formula@ == self.formula@.plus(other.formula@),
    {
        let r = ops.sum(self.value, other.value);
        Term { value: r, formula: Ghost(self.formula@.plus(other.formula@)) }
    }

    /// `self - other`.
    pub fn minus<A: Arithmetic>(self, ops: &A, other: Term) -> (t: Term)
        requires
            self.sound(ops),
            other.sound(ops),
        ensures
            t.sound(ops),
            t.formula@ == self.formula@.minus(other.formula@),
    {
        let r = ops.difference(self.value, other.value);
        Term { value: r, formula: Ghost(self.formula@.minus(other.formula@)) }
    }

    /// `self * other`.
    pub fn times<A: Arithmetic>(self, ops: &A, other: Term) -> (t: Term)
        requires
            self.sound(ops),
            other.sound(ops),
        ensures
            t.sound(ops),
            t.formula@ == self.formula@.times(other.formula@),
    {
        let r = ops.product(self.value, other.value);
        Term { value: r, formula: Ghost(self.formula@.times(other.formula@)) }
    }

    /// `self / other`.
    pub fn over<A: Arithmetic>(self, ops: &A, other: Term) -> (t: Term)
        requires
            self.sound(ops),
            other.sound(ops),
        ensures
            t.sound(ops),
            t.formula@ == self.formula@.over(other.formula@),
    {
        let r = ops.quotient(self.value, other.value);
        Term { value: r, formula: Ghost(self.formula@.over(other.formula@)) }
    }

    /// The square root of `self`.
    pub fn root<A: Arithmetic>(self, ops: &A) -> (t: Term)
        requires
            self.sound(ops),
        ensures
            t.sound(ops),
            t.formula@ == self.formula@.root(),
    {
        let r = ops.square_root(self.value);
        Term { value: r, formula: Ghost(self.formula@.root()) }
    }

    /// The sine of `self`.
    pub fn sine<A: Arithmetic>(self, ops: &A) -> (t: Term)
        requires
            self.sound(ops),
        ensures
            t.sound(ops),
            t.formula@ == self.formula@.sine(),
    {
        let r = ops.sine(self.value);
        Term { value: r, formula: Ghost(self.formula@.sine()) }
    }

    /// The cosine of `self`.
    pub fn cosine<A: Arithmetic>(self, ops: &A) -> (t: Term)
        requires
            self.sound(ops),
        ensures
            t.sound(ops),
            t.formula@ == self.formula@.cosine(),
    {
        let r = ops.cosine(self.value);
        Term { value: r, formula: Ghost(self.formula@.cosine()) }
    }

    /// `self` raised to `exponent`.
    pub fn raised<A: Arithmetic>(self, ops: &A, exponent: Term) -> (t: Term)
        requires
            self.sound(ops),
            exponent.sound(ops),
        ensures
            t.sound(ops),
            t.formula@ == self.formula@.raised(exponent.formula@),
    {
        let r = ops.power(self.value, exponent.value);
        Term { value: r, formula: Ghost(self.formula@.raised(exponent.formula@)) }
    }

    /// `-self`.
    pub fn negated<A: Arithmetic>(self, ops: &A) -> (t: Term)
        requires
            self.sound(ops),
        ensures
            t.sound(ops),
            t.formula@ == self.formula@.negated(),
            t.value == self.value.negated(),
    {
        let r = self.value.neg();
        Term { value: r, formula: Ghost(self.formula@.negated()) }
    }

    /// `self` restricted to `[lo, hi]`.
    pub fn clamped<A: Arithmetic>(self, ops: &A, lo: Single, hi: Single) -> (t: Term)
        requires
            self.sound(ops),
            !lo.nan(),
            !hi.nan(),
            lo.rank() <= hi.rank(),
        ensures
            t.sound(ops),
            t.formula@ == self.formula@.clamped(lo, hi),
            t.value == self.value.clamped(lo, hi),
    {
        let r = self.value.clamp(lo, hi);
        proof {
            let outer = self.formula@.clamped(lo, hi);
            assert(clamps_to(self.value, outer->Clamped_1, outer->Clamped_2, r));
        }
        Term { value: r, formula: Ghost(self.formula@.clamped(lo, hi)) }
    }
}

/// Whether `ops` is a function: no operation may give two different results
/// for the same operands.
pub open spec fn is_function<A: Arithmetic>(ops: &A) -> bool {
    &&& forall|x: Single, y: Single, r: Single, s: Single|
        #![trigger
            call_ensures(A::sum, (ops, x, y), r),
            call_ensures(A::sum, (ops, x, y), s)
        ]
        call_ensures(A::sum, (ops, x, y), r) && call_ensures(A::sum, (ops, x, y), s)
            ==> r == s
    &&& forall|x: Single, y: Single, r: Single, s: Single|
        #![trigger
            call_ensures(A::difference, (ops, x, y), r),
            call_ensures(A::difference, (ops, x, y), s)
        ]
        call_ensures(A::difference, (ops, x, y), r) && call_ensures(A::difference, (ops, x, y), s)
            ==> r == s
    &&& forall|x: Single, y: Single, r: Single, s: Single|
        #![trigger
            call_ensures(A::product, (ops, x, y), r),
            call_ensures(A::product, (ops, x, y), s)
        ]
        call_ensures(A::product, (ops, x, y), r) && call_ensures(A::product, (ops, x, y), s)
            ==> r == s
    &&& forall|x: Single, y: Single, r: Single, s: Single|
        #![trigger
            call_ensures(A::quotient, (ops, x, y), r),
            call_ensures(A::quotient, (ops, x, y), s)
        ]
        call_ensures(A::quotient, (ops, x, y), r) && call_ensures(A::quotient, (ops, x, y), s)
            ==> r == s
    &&& forall|x: Single, r: Single, s: Single|
        #![trigger
            call_ensures(A::square_root, (ops, x), r),
            call_ensures(A::square_root, (ops, x), s)
        ]
        call_ensures(A::square_root, (ops, x), r) && call_ensures(A::square_root, (ops, x), s)
            ==> r == s
    &&& forall|x: Single, r: Single, s: Single|
        #![trigger call_ensures(A::sine, (ops, x), r), call_ensures(A::sine, (ops, x), s)]
        call_ensures(A::sine, (ops, x), r) && call_ensures(A::sine, (ops, x), s)
            ==> r == s
    &&& forall|x: Single, r: Single, s: Single|
        #![trigger call_ensures(A::cosine, (ops, x), r), call_ensures(A::cosine, (ops, x), s)]
        call_ensures(A::cosine, (ops, x), r) && call_ensures(A::cosine, (ops, x), s)
            ==> r == s
    &&& forall|x: Single, y: Single, r: Single, s: Single|
        #![trigger
            call_ensures(A::power, (ops, x, y), r),
            call_ensures(A::power, (ops, x, y), s)
        ]
        call_ensures(A::power, (ops, x, y), r) && call_ensures(A::power, (ops, x, y), s)
            ==> r == s
}

/// Under an arithmetic that is a function, a formula yields one value at
/// most.
pub proof fn lemma_yields_one_value<A: Arithmetic>(ops: &A, f: Formula, r: Single, s: Single)
    requires
        is_function(ops),
        f.yields(ops, r),
        f.yields(ops, s),
    ensures
        r == s,
    decreases f,
{
    match f {
        Formula::Value(_) => {},
        Formula::Sum(a, b) => {
            let (x1, y1) = choose|x: Single, y: Single|
                #![trigger call_ensures(A::sum, (ops, x, y), r)]
                a.yields(ops, x) && b.yields(ops, y) && call_ensures(A::sum, (ops, x, y), r);
            let (x2, y2) = choose|x: Single, y: Single|
                #![trigger call_ensures(A::sum, (ops, x, y), s)]
                a.yields(ops, x) && b.yields(ops, y) && call_ensures(A::sum, (ops, x, y), s);
            lemma_yields_one_value(ops, *a, x1, x2);
            lemma_yields_one_value(ops, *b, y1, y2);
        },
        Formula::Difference(a, b) => {
            let (x1, y1) = choose|x: Single, y: Single|
                #![trigger call_ensures(A::difference, (ops, x, y), r)]
                a.yields(ops, x) && b.yields(ops, y) && call_ensures(A::difference, (ops, x, y), r);
            let (x2, y2) = choose|x: Single, y: Single|
                #![trigger call_ensures(A::difference, (ops, x, y), s)]
                a.yields(ops, x) && b.yields(ops, y) && call_ensures(A::difference, (ops, x, y), s);
            lemma_yields_one_value(ops, *a, x1, x2);
            lemma_yields_one_value(ops, *b, y1, y2);
        },
        Formula::Product(a, b) => {
            let (x1, y1) = choose|x: Single, y: Single|
                #![trigger call_ensures(A::product, (ops, x, y), r)]
                a.yields(ops, x) && b.yields(ops, y) && call_ensures(A::product, (ops, x, y), r);
            let (x2, y2) = choose|x: Single, y: Single|
                #![trigger call_ensures(A::product, (ops, x, y), s)]
                a.yields(ops, x) && b.yields(ops, y) && call_ensures(A::product, (ops, x, y), s);
            lemma_yields_one_value(ops, *a, x1, x2);
            lemma_yields_one_value(ops, *b, y1, y2);
        },
        Formula::Quotient(a, b) => {
            let (x1, y1) = choose|x: Single, y: Single|
                #![trigger call_ensures(A::quotient, (ops, x, y), r)]
                a.yields(ops, x) && b.yields(ops, y) && call_ensures(A::quotient, (ops, x, y), r);
            let (x2, y2) = choose|x: Single, y: Single|
                #![trigger call_ensures(A::quotient, (ops, x, y), s)]
                a.yields(ops, x) && b.yields(ops, y) && call_ensures(A::quotient, (ops, x, y), s);
            lemma_yields_one_value(ops, *a, x1, x2);
            lemma_yields_one_value(ops, *b, y1, y2);
        },
        Formula::Power(a, b) => {
            let (x1, y1) = choose|x: Single, y: Single|
                #![trigger call_ensures(A::power, (ops, x, y), r)]
                a.yields(ops, x) && b.yields(ops, y) && call_ensures(A::power, (ops, x, y), r);
            let (x2, y2) = choose|x: Single, y: Single|
                #![trigger call_ensures(A::power, (ops, x, y), s)]
                a.yields(ops, x) && b.yields(ops, y) && call_ensures(A::power, (ops, x, y), s);
            lemma_yields_one_value(ops, *a, x1, x2);
            lemma_yields_one_value(ops, *b, y1, y2);
        },
        Formula::SquareRoot(a) => {
            let x1 = choose|x: Single|
                #![trigger call_ensures(A::square_root, (ops, x), r)]
                a.yields(ops, x) && call_ensures(A::square_root, (ops, x), r);
            let x2 = choose|x: Single|
                #![trigger call_ensures(A::square_root, (ops, x), s)]
                a.yields(ops, x) && call_ensures(A::square_root, (ops, x), s);
            lemma_yields_one_value(ops, *a, x1, x2);
        },
        Formula::Sine(a) => {
            let x1 = choose|x: Single|
                #![trigger call_ensures(A::sine, (ops, x), r)]
                a.yields(ops, x) && call_ensures(A::sine, (ops, x), r);
            let x2 = choose|x: Single|
                #![trigger call_ensures(A::sine, (ops, x), s)]
                a.yields(ops, x) && call_ensures(A::sine, (ops, x), s);
            lemma_yields_one_value(ops, *a, x1, x2);
        },
        Formula::Cosine(a) => {
            let x1 = choose|x: Single|
                #![trigger call_ensures(A::cosine, (ops, x), r)]
                a.yields(ops, x) && call_ensures(A::cosine, (ops, x), r);
            let x2 = choose|x: Single|
                #![trigger call_ensures(A::cosine, (ops, x), s)]
                a.yields(ops, x) && call_ensures(A::cosine, (ops, x), s);
            lemma_yields_one_value(ops, *a, x1, x2);
        },
        Formula::Negated(a) => {
            lemma_yields_one_value(ops, *a, r.negated(), s.negated());
        },
        Formula::Clamped(a, lo, hi) => {
            let x1 = choose|x: Single|
                #![trigger clamps_to(x, lo, hi, r)]
                a.yields(ops, x) && clamps_to(x, lo, hi, r);
            let x2 = choose|x: Single|
                #![trigger clamps_to(x, lo, hi, s)]
                a.yields(ops, x) && clamps_to(x, lo, hi, s);
            lemma_yields_one_value(ops, *a, x1, x2);
        },
    }
}

} // verus!
