//! Colour schemes: pure maps from an iteration count and the iteration cap to
//! an RGB triple, and a registry that cycles through them.
//!
//! Every scheme paints points that reached the cap (`c >= max_iters`) with one
//! fixed colour, so each map is total, also for a cap of zero.

use vstd::prelude::*;
use vstd::arithmetic::div_mod::{lemma_div_is_ordered, lemma_div_by_multiple};

verus! {

/// A colour scheme: maps an iteration count `c` under the cap `max_iters`
/// to a colour.
pub trait MandelRGB {
    /// The colour that `rgb` returns.
    spec fn color_of(&self, c: nat, max_iters: nat) -> (u8, u8, u8);

    fn rgb(&self, c: usize, max_iters: usize) -> (r: (u8, u8, u8))
        ensures
            r == self.color_of(c as nat, max_iters as nat),
    ;
}

/// `floor(255 * num / den)`, the shade of a fraction `num / den` of full scale.
pub open spec fn shade(num: int, den: int) -> int {
    255 * num / den
}

/// The shade for `c` out of the cap `m`.
pub open spec fn linear_shade(c: nat, m: nat) -> u8 {
    shade(c as int, m as int) as u8
}

/// The shade that saturates as `c` grows: `255 * c / (c + 8)`.
pub open spec fn soft_shade(c: nat) -> u8 {
    shade(c as int, c + 8int) as u8
}

/// `|255 * (2c / m) - 1|`, truncated and clamped to a byte.
pub open spec fn folded_shade(c: nat, m: nat) -> u8 {
    let q: int = (510 * c) as int / (m as int);
    if c == 0 {
        1
    } else if 510 * c < m {
        0
    } else if q - 1 > 255 {
        255
    } else {
        (q - 1) as u8
    }
}

/// `255 * |2c / m - 1|`, truncated: bright at both ends of the range.
pub open spec fn mirrored_shade(c: nat, m: nat) -> u8 {
    let d: int = if 2 * c >= m { 2 * c - m } else { m - 2 * c };
    shade(d, m as int) as u8
}

/// The colour that the scheme `s` gives to `c` under the cap `m`.
pub open spec fn scheme_color(s: ColorScheme, c: nat, m: nat) -> (u8, u8, u8) {
    if c >= m {
        match s {
            ColorScheme::GreyeyLight => (255, 255, 255),
            _ => (0, 0, 0),
        }
    } else {
        match s {
            ColorScheme::Bluey => (linear_shade(c, m), soft_shade(c), 255),
            ColorScheme::Greeny => (linear_shade(c, m), 255, soft_shade(c)),
            ColorScheme::Purply => (linear_shade(c, m), linear_shade(c, m), soft_shade(c)),
            ColorScheme::Weirdy => (folded_shade(c, m), linear_shade(c, m), soft_shade(c)),
            ColorScheme::GreyeyDark => (linear_shade(c, m), linear_shade(c, m), linear_shade(c, m)),
            ColorScheme::GreyeyLight => (
                mirrored_shade(c, m),
                mirrored_shade(c, m),
                mirrored_shade(c, m),
            ),
            ColorScheme::Hulky => if 2 * c > m {
                (linear_shade(c, m), 255, linear_shade(c, m))
            } else {
                (0, linear_shade(c, m), 0)
            },
            ColorScheme::Wiky => if 25 * c < 4 * m {
                (0, 7, 100)
            } else if 50 * c < 21 * m {
                (32, 107, 203)
            } else if 25 * c < 16 * m {
                (237, 255, 255)
            } else if 50 * c < 43 * m {
                (255, 170, 0)
            } else {
                (0, 2, 0)
            },
        }
    }
}

/// The colour schemes that this library offers.
#[derive(Clone, Copy, Debug, PartialEq, Eq, Structural)]
pub enum ColorScheme {
    Bluey,
    Greeny,
    Purply,
    Weirdy,
    GreyeyDark,
    GreyeyLight,
    Hulky,
    Wiky,
}

proof fn lemma_shade_fits(num: int, den: int)
    requires
        0 <= num <= den,
        0 < den,
    ensures
        0 <= shade(num, den) <= 255,
{
    lemma_div_is_ordered(255 * num, 255 * den, den);
    lemma_div_is_ordered(0, 255 * num, den);
    lemma_div_by_multiple(255, den);
    assert(255 * den == 255 * den);
    assert(0int / den == 0);
}

/// `floor(255 * num / den)` for `num <= den`.
fn shade_of(num: usize, den: usize) -> (r: u8)
    requires
        num <= den,
        0 < den,
    ensures
        r as int == shade(num as int, den as int),
{
    proof {
        lemma_shade_fits(num as int, den as int);
    }
    let v: u128 = 255u128 * (num as u128) / (den as u128);
    v as u8
}

/// Shade for `c` out of `m`; `c < m`.
fn linear(c: usize, m: usize) -> (r: u8)
    requires
        c < m,
    ensures
        r == linear_shade(c as nat, m as nat),
{
    proof {
        lemma_shade_fits(c as int, m as int);
    }
    shade_of(c, m)
}

/// Shade `255 * c / (c + 8)`.
fn soft(c: usize) -> (r: u8)
    ensures
        r == soft_shade(c as nat),
{
    let den: u128 = c as u128 + 8;
    proof {
        lemma_shade_fits(c as int, c + 8int);
    }
    let v: u128 = 255u128 * (c as u128) / den;
    v as u8
}

fn folded(c: usize, m: usize) -> (r: u8)
    requires
        c < m,
    ensures
        r == folded_shade(c as nat, m as nat),
{
    if c == 0 {
        1
    } else if 510u128 * (c as u128) < m as u128 {
        0
    } else {
        let q: u128 = 510u128 * (c as u128) / (m as u128);
        proof {
            lemma_div_is_ordered(m as int, 510 * c, m as int);
            lemma_div_by_multiple(1, m as int);
        }
        if q - 1 > 255 {
            255
        } else {
            (q - 1) as u8
        }
    }
}

fn mirrored(c: usize, m: usize) -> (r: u8)
    requires
        c < m,
    ensures
        r == mirrored_shade(c as nat, m as nat),
{
    let c2: u128 = 2 * (c as u128);
    let d: u128 = if c2 >= m as u128 { c2 - m as u128 } else { m as u128 - c2 };
    proof {
        lemma_shade_fits(d as int, m as int);
    }
    let v: u128 = 255u128 * d / (m as u128);
    v as u8
}

impl MandelRGB for ColorScheme {
    open spec fn color_of(&self, c: nat, max_iters: nat) -> (u8, u8, u8) {
        scheme_color(*self, c, max_iters)
    }

    fn rgb(&self, c: usize, max_iters: usize) -> (r: (u8, u8, u8)) {
        if c >= max_iters {
            return match self {
                ColorScheme::GreyeyLight => (255, 255, 255),
                _ => (0, 0, 0),
            };
        }
        match self {
            ColorScheme::Bluey => (linear(c, max_iters), soft(c), 255),
            ColorScheme::Greeny => (linear(c, max_iters), 255, soft(c)),
            ColorScheme::Purply => {
                let s = linear(c, max_iters);
                (s, s, soft(c))
            },
            ColorScheme::Weirdy => (folded(c, max_iters), linear(c, max_iters), soft(c)),
            ColorScheme::GreyeyDark => {
                let s = linear(c, max_iters);
                (s, s, s)
            },
            ColorScheme::GreyeyLight => {
                let s = mirrored(c, max_iters);
                (s, s, s)
            },
            ColorScheme::Hulky => {
                let s = linear(c, max_iters);
                if 2 * (c as u128) > max_iters as u128 {
                    (s, 255, s)
                } else {
                    (0, s, 0)
                }
            },
            ColorScheme::Wiky => {
                let c: u128 = c as u128;
                let m: u128 = max_iters as u128;
                if 25 * c < 4 * m {
                    (0, 7, 100)
                } else if 50 * c < 21 * m {
                    (32, 107, 203)
                } else if 25 * c < 16 * m {
                    (237, 255, 255)
                } else if 50 * c < 43 * m {
                    (255, 170, 0)
                } else {
                    (0, 2, 0)
                }
            },
        }
    }
}

/// The order in which `ColorSchemes` offers the schemes.
pub open spec fn scheme_cycle() -> Seq<ColorScheme> {
    seq![
        ColorScheme::Bluey,
        ColorScheme::Greeny,
        ColorScheme::Purply,
        ColorScheme::Weirdy,
        ColorScheme::GreyeyDark,
        ColorScheme::GreyeyLight,
        ColorScheme::Hulky,
        ColorScheme::Wiky,
    ]
}

/// Number of schemes in the cycle.
pub const SCHEME_COUNT: usize = 8;

/// The schemes in a fixed order, with a cursor on the one in use.
#[derive(Debug)]
pub struct ColorSchemes {
    color_schemes: Vec<ColorScheme>,
    index_current: usize,
}

impl ColorSchemes {
    #[verifier::type_invariant]
    spec fn well_formed(&self) -> bool {
        &&& self.color_schemes@ == scheme_cycle()
        &&& self.index_current < SCHEME_COUNT
    }

    /// Position of the scheme in use within `scheme_cycle()`.
    pub closed spec fn index(&self) -> nat {
        self.index_current as nat
    }

    /// The scheme in use.
    pub open spec fn current(&self) -> ColorScheme {
        scheme_cycle()[self.index() as int]
    }

    /// The registry with the first scheme selected.
    pub fn new() -> (r: ColorSchemes)
        ensures
            r.index() == 0,
            r.current() == ColorScheme::Bluey,
    {
        let color_schemes = vec![
            ColorScheme::Bluey,
            ColorScheme::Greeny,
            ColorScheme::Purply,
            ColorScheme::Weirdy,
            ColorScheme::GreyeyDark,
            ColorScheme::GreyeyLight,
            ColorScheme::Hulky,
            ColorScheme::Wiky,
        ];
        assert(color_schemes@ == scheme_cycle());
        ColorSchemes { color_schemes, index_current: 0 }
    }

    /// The scheme in use.
    pub fn get(&self) -> (r: &ColorScheme)
        ensures
            self.index() < SCHEME_COUNT,
            *r == self.current(),
    {
        proof {
            use_type_invariant(self);
        }
        &self.color_schemes[self.index_current]
    }

    /// Moves to the next scheme, wrapping from the last to the first.
    pub fn next(&mut self)
        ensures
            old(self).index() < SCHEME_COUNT,
            final(self).index() == (old(self).index() + 1) % (SCHEME_COUNT as nat),
    {
        proof {
            use_type_invariant(&*self);
        }
        if self.index_current == self.color_schemes.len() - 1 {
            self.index_current = 0;
        } else {
            self.index_current += 1;
        }
    }
}

impl Clone for ColorSchemes {
    /// A registry with the same scheme selected.
    fn clone(&self) -> (r: ColorSchemes)
        ensures
            r.index() == self.index(),
    {
        proof {
            use_type_invariant(self);
        }
        let mut r = ColorSchemes::new();
        proof {
            use_type_invariant(&r);
        }
        r.index_current = self.index_current;
        r
    }
}

} // verus!
