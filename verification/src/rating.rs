//! Course ratings: which values are accepted, and the running mean of the
//! accepted ones.
//!
//! A rating is held in whole units of `1 / 8_388_608`. Every single-precision
//! number between 1 and 5 is a whole number of such units, so nothing is lost
//! when one is read from its bits.

use vstd::prelude::*;

verus! {

/// The number of units in one star: `2^23`.
pub const UNITS_PER_STAR: u32 = 0x80_0000;

/// The lowest rating, one star, in units.
pub const LOWEST_UNITS: u32 = 0x80_0000;

/// The highest rating, five stars, in units.
pub const HIGHEST_UNITS: u32 = 0x280_0000;

/// A rating between one and five stars, in units of `1 / UNITS_PER_STAR`.
#[derive(Clone, Copy, Debug, PartialEq, Eq, Structural)]
pub struct Rating {
    pub units: u32,
}

/// The rating that the bits of a single-precision number stand for, if the
/// number lies between 1 and 5.
///
/// `bits / 2^23` is the sign bit followed by the biased exponent, and
/// `bits % 2^23` the fraction. The numbers from 1 up to 8 are those with a
/// clear sign bit and a biased exponent of 127, 128 or 129, and their value is
/// `(2^23 + fraction) * 2^(exponent - 127)` units. Every other pattern (a
/// number below 1, one from 8 on, a negative one, an infinity or a
/// not-a-number) stands for no rating.
pub open spec fn rating_of_bits(bits: u32) -> Option<Rating> {
    let exponent = bits as nat / 0x80_0000;
    let significand = 0x80_0000 + bits as nat % 0x80_0000;
    if exponent == 127 {
        Some(Rating { units: significand as u32 })
    } else if exponent == 128 {
        Some(Rating { units: (2 * significand) as u32 })
    } else if exponent == 129 && 4 * significand <= HIGHEST_UNITS {
        Some(Rating { units: (4 * significand) as u32 })
    } else {
        None
    }
}

/// `numerator / denominator`, rounded to the nearest whole number, halves
/// upwards.
pub open spec fn rounded_quotient(numerator: nat, denominator: nat) -> nat
    recommends
        denominator > 0,
{
    (2 * numerator + denominator) / (2 * denominator)
}

/// The mean of `count + 1` ratings, given the mean `previous` of the first
/// `count` of them and the last one, `added`: their weighted mean, rounded
/// to the nearest unit.
pub open spec fn mean_units(previous: nat, count: nat, added: nat) -> nat {
    rounded_quotient(previous * count + added, count + 1)
}

impl Rating {
    /// The rating lies between one and five stars.
    pub open spec fn wf(self) -> bool {
        LOWEST_UNITS <= self.units <= HIGHEST_UNITS
    }

    /// Reads a rating from the bits of a single-precision number. `None`
    /// for every number outside 1 to 5, and for what is no number.
    pub fn from_f32_bits(bits: u32) -> (r: Option<Rating>)
        ensures
            r == rating_of_bits(bits),
            r matches Some(rating) ==> rating.wf(),
            r is Some <==> 0x3F80_0000 <= bits <= 0x40A0_0000,
    {
        let exponent: u32 = bits / 0x80_0000;
        let significand: u32 = 0x80_0000 + bits % 0x80_0000;
        if exponent == 127 {
            Some(Rating { units: significand })
        } else if exponent == 128 {
            Some(Rating { units: 2 * significand })
        } else if exponent == 129 && significand <= 0xA0_0000 {
            Some(Rating { units: 4 * significand })
        } else {
            None
        }
    }

    /// The bits of the single-precision number nearest to the rating.
    pub fn to_f32_bits(&self) -> (bits: u32)
        requires
            self.wf(),
        ensures
            bits == bits_of_units(self.units as nat),
            0x3F80_0000 <= bits <= 0x40A0_0000,
    {
        let units: u32 = self.units;
        if units < 0x100_0000 {
            0x3F80_0000 + (units - 0x80_0000)
        } else if units < 0x200_0000 {
            0x4000_0000 + (nearest_even_quotient(units, 2) - 0x80_0000)
        } else {
            0x4080_0000 + (nearest_even_quotient(units, 4) - 0x80_0000)
        }
    }
}

/// `n / d`, rounded to the nearest whole number; a half goes to the even
/// neighbour.
pub open spec fn nearest_even(n: nat, d: nat) -> nat
    recommends
        d > 0,
{
    let q = n / d;
    let r = n % d;
    if 2 * r < d || (2 * r == d && q % 2 == 0) {
        q
    } else {
        q + 1
    }
}

/// The bits of the single-precision number nearest to `units` units, for a
/// rating: a biased exponent of 127, 128 or 129 above the 23 bits of the
/// fraction. From two stars on a number has fewer digits than the units, and
/// the units are rounded to the nearest one, a half to the even neighbour;
/// where that rounds up to the next power of two, the sum carries into the
/// exponent.
pub open spec fn bits_of_units(units: nat) -> u32
    recommends
        LOWEST_UNITS <= units <= HIGHEST_UNITS,
{
    if units < 0x100_0000 {
        (0x3F80_0000 + (units - 0x80_0000)) as u32
    } else if units < 0x200_0000 {
        (0x4000_0000 + (nearest_even(units, 2) - 0x80_0000)) as u32
    } else {
        (0x4080_0000 + (nearest_even(units, 4) - 0x80_0000)) as u32
    }
}

fn nearest_even_quotient(n: u32, d: u32) -> (q: u32)
    requires
        d == 2 || d == 4,
    ensures
        q == nearest_even(n as nat, d as nat),
        d * q <= n + d / 2,
        n <= d * q + d / 2,
{
    let q: u32 = n / d;
    let r: u32 = n % d;
    if 2 * r < d || (2 * r == d && q % 2 == 0) {
        q
    } else {
        q + 1
    }
}

/// A rating that was read from bits is written as the same bits.
pub proof fn lemma_bits_are_kept(bits: u32)
    requires
        rating_of_bits(bits) is Some,
    ensures
        bits_of_units(rating_of_bits(bits)->0.units as nat) == bits,
{
}

/// The bits written for a rating read as a rating again, no further from it
/// than half the step between single-precision numbers there: nothing below
/// two stars, one unit below four, two units from four on.
pub proof fn lemma_bits_are_nearest(rating: Rating)
    requires
        rating.wf(),
    ensures
        rating_of_bits(bits_of_units(rating.units as nat)) matches Some(read) && read.wf() && ({
            let slack: int = if rating.units < 0x100_0000 {
                0
            } else if rating.units < 0x200_0000 {
                1
            } else {
                2
            };
            rating.units - slack <= read.units <= rating.units + slack
        }),
{
}

/// The rating state of a course as the content store holds it: the mean as
/// the bits of a single-precision number, absent until the first rating,
/// and the number of ratings.
#[derive(Clone, Copy, Debug, PartialEq, Eq, Structural)]
pub struct StoredRating {
    pub rating_bits: Option<u32>,
    pub total_rates: u64,
}

/// The rating state of a course: the running mean, absent until the first
/// rating, and the number of ratings.
#[derive(Clone, Copy, Debug, PartialEq, Eq, Structural)]
pub struct RatingState {
    pub rating: Option<Rating>,
    pub total_rates: u64,
}

impl RatingState {
    /// The mean, where there is one, is a rating, and there is one as soon as
    /// a rating was counted.
    pub open spec fn wf(self) -> bool {
        &&& self.rating matches Some(r) ==> r.wf()
        &&& self.total_rates > 0 ==> self.rating is Some
    }

    /// The mean so far in units, 0 where there is none yet.
    pub open spec fn previous_units(self) -> nat {
        match self.rating {
            Some(r) => r.units as nat,
            None => 0,
        }
    }

    /// The mean after `added` is counted in.
    pub open spec fn mean_after(self, added: Rating) -> Rating {
        Rating {
            units: mean_units(
                self.previous_units(),
                self.total_rates as nat,
                added.units as nat,
            ) as u32,
        }
    }

    /// The state that the store's fields stand for, if they stand for one.
    pub open spec fn of_stored(stored: StoredRating) -> Option<RatingState> {
        let state = RatingState {
            rating: match stored.rating_bits {
                Some(bits) => rating_of_bits(bits),
                None => None,
            },
            total_rates: stored.total_rates,
        };
        if (stored.rating_bits matches Some(bits) && rating_of_bits(bits) is None) || !state.wf() {
            None
        } else {
            Some(state)
        }
    }

    /// The state of a course that nobody has rated.
    pub fn unrated() -> (s: RatingState)
        ensures
            s == (RatingState { rating: None, total_rates: 0 }),
            s.wf(),
    {
        RatingState { rating: None, total_rates: 0 }
    }

    /// Reads the state from the store's fields. `None` where the mean is no
    /// rating, or where ratings were counted and the mean is absent.
    pub fn from_stored(stored: StoredRating) -> (r: Option<RatingState>)
        ensures
            r == RatingState::of_stored(stored),
            r matches Some(s) ==> s.wf(),
    {
        let rating = match stored.rating_bits {
            Some(bits) => {
                match Rating::from_f32_bits(bits) {
                    Some(r) => Some(r),
                    None => {
                        return None;
                    },
                }
            },
            None => None,
        };
        if stored.total_rates > 0 && rating.is_none() {
            return None;
        }
        Some(RatingState { rating, total_rates: stored.total_rates })
    }

    /// The new mean once `added` is counted in: the weighted mean of the mean
    /// so far and `added`, to the nearest unit. It lies between the two (and
    /// is `added` itself for the first rating), so it is a rating again.
    pub fn next_mean(&self, added: Rating) -> (mean: Rating)
        requires
            self.wf(),
            added.wf(),
        ensures
            mean == self.mean_after(added),
            mean.wf(),
            self.total_rates == 0 ==> mean == added,
            self.rating matches Some(p) ==> (p.units <= mean.units <= added.units || added.units
                <= mean.units <= p.units),
    {
        let previous: u128 = match self.rating {
            Some(r) => r.units as u128,
            None => 0,
        };
        let count: u128 = self.total_rates as u128;
        let a: u128 = added.units as u128;
        assert(previous * count <= 0x280_0000 * 0xFFFF_FFFF_FFFF_FFFF) by (nonlinear_arith)
            requires
                previous <= 0x280_0000,
                count <= 0xFFFF_FFFF_FFFF_FFFF,
        ;
        let numerator: u128 = previous * count + a;
        let denominator: u128 = count + 1;
        let q: u128 = (2 * numerator + denominator) / (2 * denominator);
        proof {
            if count == 0 {
                assert(previous * count == 0) by (nonlinear_arith)
                    requires
                        count == 0,
                ;
                assert(q == a) by (nonlinear_arith)
                    requires
                        q == (2 * numerator + denominator) / (2 * denominator),
                        numerator == a,
                        denominator == 1,
                ;
                assert(mean_units(previous as nat, count as nat, a as nat) == a);
            } else {
                lemma_mean_between(previous as nat, count as nat, a as nat);
            }
        }
        Rating { units: q as u32 }
    }

    /// The state after `added` is counted in. `None` where the count cannot
    /// grow any more.
    pub fn counted(&self, added: Rating) -> (r: Option<RatingState>)
        requires
            self.wf(),
            added.wf(),
        ensures
            r is Some <==> self.total_rates < u64::MAX,
            r matches Some(s) ==> s.wf() && s.rating == Some(self.mean_after(added))
                && s.total_rates == self.total_rates + 1,
    {
        if self.total_rates == u64::MAX {
            None
        } else {
            Some(
                RatingState {
                    rating: Some(self.next_mean(added)),
                    total_rates: self.total_rates + 1,
                },
            )
        }
    }
}

/// The bits of the mean that the store holds once `added` is counted in.
/// `None` where what the store holds is no rating state.
pub open spec fn stored_mean_after(stored: StoredRating, added: Rating) -> Option<u32> {
    match RatingState::of_stored(stored) {
        Some(state) => Some(bits_of_units(state.mean_after(added).units as nat)),
        None => None,
    }
}

/// Computes `stored_mean_after`.
pub fn next_stored_mean(stored: StoredRating, added: Rating) -> (r: Option<u32>)
    requires
        added.wf(),
    ensures
        r == stored_mean_after(stored, added),
        r matches Some(bits) ==> rating_of_bits(bits) is Some,
{
    match RatingState::from_stored(stored) {
        Some(state) => {
            let mean = state.next_mean(added);
            proof {
                lemma_bits_are_nearest(mean);
            }
            Some(mean.to_f32_bits())
        },
        None => None,
    }
}

/// The rounded weighted mean of two numbers lies between them.
pub proof fn lemma_mean_between(previous: nat, count: nat, added: nat)
    ensures
        previous <= added ==> previous <= mean_units(previous, count, added) <= added,
        added <= previous ==> added <= mean_units(previous, count, added) <= previous,
{
    let n = previous * count + added;
    let d = count + 1;
    let q = mean_units(previous, count, added);
    assert(2 * d * q <= 2 * n + d && 2 * n + d < 2 * d * (q + 1)) by (nonlinear_arith)
        requires
            q == (2 * n + d) / (2 * d),
            d > 0,
    ;
    if previous <= added {
        assert(previous <= q && q <= added) by (nonlinear_arith)
            requires
                2 * d * q <= 2 * n + d,
                2 * n + d < 2 * d * (q + 1),
                n == previous * count + added,
                d == count + 1,
                previous <= added,
        ;
    }
    if added <= previous {
        assert(added <= q && q <= previous) by (nonlinear_arith)
            requires
                2 * d * q <= 2 * n + d,
                2 * n + d < 2 * d * (q + 1),
                n == previous * count + added,
                d == count + 1,
                added <= previous,
        ;
    }
}

/// The rounded mean is within half a unit of the exact one.
pub proof fn lemma_mean_is_nearest(previous: nat, count: nat, added: nat)
    ensures
        2 * (count + 1) * mean_units(previous, count, added) <= 2 * (previous * count + added) + (
        count + 1),
        2 * (previous * count + added) + (count + 1) < 2 * (count + 1) * (mean_units(
            previous,
            count,
            added,
        ) + 1),
{
    let n = previous * count + added;
    let d = count + 1;
    let q = mean_units(previous, count, added);
    assert(2 * d * q <= 2 * n + d && 2 * n + d < 2 * d * (q + 1)) by (nonlinear_arith)
        requires
            q == (2 * n + d) / (2 * d),
            d > 0,
    ;
}

} // verus!
