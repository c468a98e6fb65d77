//! The golden-angle spiral of a Fibonacci sphere, in exact terms.
//!
//! For a requested count `n`, point `k` of the spiral sits at height
//! `z = (n - 1 - 2k) / n` on the polar axis (heights evenly spaced by `2 / n`,
//! half a step inside the poles) and at longitude `k` golden angles. Only the
//! points `k = 0 .. n - 2` are produced, so a count of `n` gives `n - 1`
//! points and a count of zero or one gives none.
use vstd::prelude::*;

verus! {

/// One point of the spiral: its height on the polar axis is
/// `z_numerator / number_points`, its longitude `index` golden angles.
#[derive(Clone, Copy, Debug, PartialEq, Eq)]
pub struct SpiralStep {
    pub index: u16,
    pub z_numerator: i32,
}

/// How many points the spiral holds for a requested count.
pub open spec fn point_count(number_points: u16) -> nat {
    if number_points == 0 {
        0
    } else {
        (number_points - 1) as nat
    }
}

/// Numerator of the height of point `k` of an `n`-point spiral, over `n`.
pub open spec fn lattice_z(n: int, k: int) -> int {
    n - 1 - 2 * k
}

/// The spiral's points in generation order.
pub fn spiral_steps(number_points: u16) -> (r: Vec<SpiralStep>)
    ensures
        r.len() == point_count(number_points),
        forall|k: int|
            0 <= k < r.len() ==> (#[trigger] r[k]).index == k && r[k].z_numerator == lattice_z(
                number_points as int,
                k,
            ),
{
    let count: u16 = if number_points == 0 {
        0
    } else {
        number_points - 1
    };
    let mut steps: Vec<SpiralStep> = Vec::with_capacity(count as usize);
    let mut k: u16 = 0;
    let mut z: i32 = number_points as i32 - 1;
    while k < count
        invariant
            count == point_count(number_points),
            k <= count,
            steps.len() == k,
            z == lattice_z(number_points as int, k as int),
            forall|j: int|
                0 <= j < k ==> (#[trigger] steps[j]).index == j && steps[j].z_numerator == lattice_z(
                    number_points as int,
                    j,
                ),
        decreases count - k,
    {
        steps.push(SpiralStep { index: k, z_numerator: z });
        z = z - 2;
        k = k + 1;
    }
    steps
}

/// Every point of the spiral lies strictly between the poles, consecutive
/// points are one height step (`2 / n`) apart, and the heights are symmetric
/// about the equator: point `k` mirrors the height the unproduced point
/// `n - 1 - k` would have.
pub proof fn lemma_spiral_layout(number_points: u16, k: int)
    requires
        0 <= k < point_count(number_points),
    ensures
        -(number_points as int) < lattice_z(number_points as int, k) < number_points as int,
        k + 1 < point_count(number_points) ==> lattice_z(number_points as int, k) - lattice_z(
            number_points as int,
            k + 1,
        ) == 2,
        lattice_z(number_points as int, k) == -lattice_z(
            number_points as int,
            number_points - 1 - k,
        ),
{
}

} // verus!
