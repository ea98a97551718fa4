use vstd::prelude::*;

verus! {

/// Whether an integer fits in an `i128`.
pub open spec fn fits_i128(v: int) -> bool {
    i128::MIN <= v <= i128::MAX
}

/// The mathematical value of a fraction, `num / den`.
pub struct Rational {
    pub num: int,
    pub den: int,
}

impl Rational {
    /// A fraction with a positive denominator.
    pub open spec fn wf(self) -> bool {
        self.den > 0
    }

    /// Both parts fit in an `i128`.
    pub open spec fn fits(self) -> bool {
        fits_i128(self.num) && fits_i128(self.den)
    }

    /// The two fractions denote the same number.
    pub open spec fn same_value(self, other: Rational) -> bool {
        self.num * other.den == other.num * self.den
    }

    /// The value multiplied by `p / q`.
    pub open spec fn scale(self, p: int, q: int) -> Rational {
        Rational { num: self.num * p, den: self.den * q }
    }

    /// The value plus the integer `k`.
    pub open spec fn add_int(self, k: int) -> Rational {
        Rational { num: self.num + k * self.den, den: self.den }
    }
}

/// An exact rational quantity stored as an `i128` fraction.
#[derive(Clone, Copy, Debug)]
pub struct Ratio {
    num: i128,
    den: i128,
}

impl View for Ratio {
    type V = Rational;

    closed spec fn view(&self) -> Rational {
        Rational { num: self.num as int, den: self.den as int }
    }
}

impl Ratio {
    /// A well-formed quantity: its denominator is positive.
    pub open spec fn wf(&self) -> bool {
        self@.wf()
    }

    /// The fraction `num / den`; `None` where `den` is not positive.
    pub fn new(num: i128, den: i128) -> (r: Option<Ratio>)
        ensures
            match r {
                Some(v) => den > 0 && v.wf() && v@ == (Rational { num: num as int, den: den as int }),
                None => den <= 0,
            },
    {
        if den > 0 {
            Some(Ratio { num, den })
        } else {
            None
        }
    }

    /// The integer `n`, as the fraction `n / 1`.
    pub fn from_integer(n: i128) -> (r: Ratio)
        ensures
            r.wf(),
            r@ == (Rational { num: n as int, den: 1 }),
    {
        Ratio { num: n, den: 1 }
    }

    pub fn numerator(&self) -> (r: i128)
        ensures
            r == self@.num,
    {
        self.num
    }

    pub fn denominator(&self) -> (r: i128)
        ensures
            r == self@.den,
    {
        self.den
    }

    /// Multiplies the quantity by `p / q`.
    pub fn scale(&self, p: i128, q: i128) -> (r: Ratio)
        requires
            self.wf(),
            q > 0,
            self@.scale(p as int, q as int).fits(),
        ensures
            r.wf(),
            r@ == self@.scale(p as int, q as int),
    {
        proof {
            assert(self.den * q > 0) by (nonlinear_arith)
                requires
                    self.den > 0,
                    q > 0,
            ;
        }
        Ratio { num: self.num * p, den: self.den * q }
    }

    /// Adds the integer `k` to the quantity.
    pub fn add_integer(&self, k: i128) -> (r: Ratio)
        requires
            self.wf(),
            fits_i128(k * self@.den),
            self@.add_int(k as int).fits(),
        ensures
            r.wf(),
            r@ == self@.add_int(k as int),
    {
        Ratio { num: self.num + k * self.den, den: self.den }
    }

    /// Whether the two quantities denote the same number.
    pub fn same_value(&self, other: &Ratio) -> (r: bool)
        requires
            fits_i128(self@.num * other@.den),
            fits_i128(other@.num * self@.den),
        ensures
            r == self@.same_value(other@),
    {
        self.num * other.den == other.num * self.den
    }
}

/// Scaling by `p / q` and then by `q / p` gives back the same number.
pub proof fn lemma_scale_inverse(x: Rational, p: int, q: int)
    requires
        x.wf(),
        p > 0,
        q > 0,
    ensures
        x.scale(p, q).scale(q, p).same_value(x),
        x.scale(p, q).scale(q, p).wf(),
{
    assert((x.num * p * q) * x.den == x.num * (x.den * q * p)) by (nonlinear_arith);
    assert(x.den * q * p > 0) by (nonlinear_arith)
        requires
            x.den > 0,
            p > 0,
            q > 0,
    ;
}

/// Adding `k` and then `-k` gives back the same fraction.
pub proof fn lemma_add_int_cancel(x: Rational, k: int)
    ensures
        x.add_int(k).add_int(-k) == x,
{
    assert((-k) * x.den == -(k * x.den)) by (nonlinear_arith);
}

/// Adding the same integer to two equal numbers gives equal numbers.
pub proof fn lemma_add_int_same_value(a: Rational, b: Rational, k: int)
    requires
        a.same_value(b),
    ensures
        a.add_int(k).same_value(b.add_int(k)),
{
    assert((a.num + k * a.den) * b.den == (b.num + k * b.den) * a.den) by (nonlinear_arith)
        requires
            a.num * b.den == b.num * a.den,
    ;
}

} // verus!
