use vstd::prelude::*;

verus! {

/// A width and height in pixels.
#[derive(Clone, Copy, Debug, PartialEq, Eq, Structural)]
pub struct Size {
    pub width: u32,
    pub height: u32,
}

impl Size {
    /// Whether both sides are positive, which a size must be to be applied.
    pub open spec fn drawable(self) -> bool {
        self.width > 0 && self.height > 0
    }

    pub fn is_drawable(&self) -> (r: bool)
        ensures
            r == self.drawable(),
    {
        self.width > 0 && self.height > 0
    }
}

/// Greatest common divisor by Euclid's rule.
pub open spec fn gcd(a: nat, b: nat) -> nat
    decreases b,
{
    if b == 0 {
        a
    } else {
        gcd(b, a % b)
    }
}

/// Whether `d` divides `n` evenly.
pub open spec fn divides(d: nat, n: nat) -> bool {
    exists|k: nat| #[trigger] (d * k) == n
}

proof fn lemma_divides_mod(d: nat, a: nat, b: nat)
    requires
        b > 0,
        divides(d, b),
        divides(d, a % b),
    ensures
        divides(d, a),
{
    let kb = choose|k: nat| #[trigger] (d * k) == b;
    let km = choose|k: nat| #[trigger] (d * k) == a % b;
    vstd::arithmetic::div_mod::lemma_fundamental_div_mod(a as int, b as int);
    let q: nat = (a / b) as nat;
    assert(a == b * q + a % b);
    assert(d * (kb * q + km) == a) by (nonlinear_arith)
        requires
            d * kb == b,
            d * km == a % b,
            a == b * q + a % b,
    ;
}

/// The greatest common divisor divides both arguments.
pub proof fn lemma_gcd_divides(a: nat, b: nat)
    ensures
        divides(gcd(a, b), a),
        divides(gcd(a, b), b),
    decreases b,
{
    if b == 0 {
        assert(a * 1 == a);
        assert(a * 0 == 0);
    } else {
        lemma_gcd_divides(b, a % b);
        lemma_divides_mod(gcd(b, a % b), a, b);
    }
}

/// A positive argument gives a positive greatest common divisor.
pub proof fn lemma_gcd_positive(a: nat, b: nat)
    requires
        a > 0 || b > 0,
    ensures
        gcd(a, b) > 0,
    decreases b,
{
    if b > 0 {
        lemma_gcd_positive(b, a % b);
    }
}

/// The greatest common divisor of two integers, computed by Euclid's rule.
pub fn gcd_u32(a: u32, b: u32) -> (r: u32)
    ensures
        r == gcd(a as nat, b as nat),
{
    let mut x: u32 = a;
    let mut y: u32 = b;
    while y != 0
        invariant
            gcd(x as nat, y as nat) == gcd(a as nat, b as nat),
        decreases y,
    {
        let t: u32 = x % y;
        x = y;
        y = t;
    }
    x
}

} // verus!
