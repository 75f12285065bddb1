//! Link-length configuration and the pure geometric queries derived from it:
//! the Grashof criterion and the mechanism-type classification.
//!
//! Link lengths are kept in fixed-point units of one millionth of a length
//! unit, so that the comparisons and sums behind the Grashof test are exact
//! integer arithmetic.

use vstd::prelude::*;

verus! {

/// Number of fixed-point units in one length unit.
pub const LENGTH_SCALE: u32 = 1_000_000;

/// Names of the four links of the mechanism, in the fixed scan order used
/// when looking for the shortest link.
#[derive(Clone, Copy, PartialEq, Eq, Structural, Debug)]
pub enum Link {
    Ground,
    Crank,
    Coupler,
    Rocker,
}

/// The four link lengths, each in fixed-point units ([`LENGTH_SCALE`] units
/// per length unit).
///
/// All four lengths should be positive for the mechanism to be physically
/// realizable; this is deliberately not enforced, and a degenerate
/// configuration simply fails to solve.
#[derive(Clone, Copy, PartialEq, Eq, Structural, Debug)]
pub struct FourBarConfig {
    /// Ground link length.
    pub r1: u32,
    /// Input crank length.
    pub r2: u32,
    /// Coupler link length.
    pub r3: u32,
    /// Output rocker length.
    pub r4: u32,
}

impl FourBarConfig {
    /// Sum of the four link lengths.
    pub open spec fn total(self) -> int {
        self.r1 + self.r2 + self.r3 + self.r4
    }

    /// Length of the shortest link.
    pub open spec fn shortest(self) -> int {
        vstd::math::min(
            vstd::math::min(self.r1 as int, self.r2 as int),
            vstd::math::min(self.r3 as int, self.r4 as int),
        )
    }

    /// Length of the longest link.
    pub open spec fn longest(self) -> int {
        vstd::math::max(
            vstd::math::max(self.r1 as int, self.r2 as int),
            vstd::math::max(self.r3 as int, self.r4 as int),
        )
    }

    /// The Grashof criterion: the shortest plus the longest link is no
    /// longer than the two remaining links together.
    pub open spec fn grashof(self) -> bool {
        self.shortest() + self.longest() <= self.total() - self.shortest() - self.longest()
    }

    /// The first strict minimum in the fixed scan order Ground, Crank,
    /// Coupler, Rocker: a later link displaces an earlier one only when it
    /// is strictly shorter, so ties keep the earliest link.
    pub open spec fn shortest_link(self) -> Link {
        let after_crank = if self.r2 < self.r1 {
            Link::Crank
        } else {
            Link::Ground
        };
        let after_coupler = if self.r3 < self.link_length(after_crank) {
            Link::Coupler
        } else {
            after_crank
        };
        if self.r4 < self.link_length(after_coupler) {
            Link::Rocker
        } else {
            after_coupler
        }
    }

    /// Length of the named link.
    pub open spec fn link_length(self, link: Link) -> int {
        match link {
            Link::Ground => self.r1 as int,
            Link::Crank => self.r2 as int,
            Link::Coupler => self.r3 as int,
            Link::Rocker => self.r4 as int,
        }
    }

    /// The name of the mechanism type, as decided by the Grashof criterion
    /// and the shortest link.
    pub open spec fn type_label(self) -> Seq<char> {
        if !self.grashof() {
            "Non-Grashof (Double Rocker)"@
        } else {
            match self.shortest_link() {
                Link::Crank => "Crank-Rocker"@,
                Link::Ground => "Double Crank"@,
                Link::Coupler => "Double Rocker"@,
                Link::Rocker => "Rocker-Crank"@,
            }
        }
    }
}

impl Default for FourBarConfig {
    /// The default mechanism: ground 6, crank 2, coupler 5, rocker 5
    /// length units.
    fn default() -> (c: Self)
        ensures
            c.r1 == 6 * LENGTH_SCALE,
            c.r2 == 2 * LENGTH_SCALE,
            c.r3 == 5 * LENGTH_SCALE,
            c.r4 == 5 * LENGTH_SCALE,
    {
        FourBarConfig { r1: 6_000_000, r2: 2_000_000, r3: 5_000_000, r4: 5_000_000 }
    }
}

/// A four-bar linkage mechanism: its link lengths and the iteration budget
/// of the position solver.
///
/// The angles themselves are floating-point data owned by the numerical
/// shell; see [`crate::solver`] for the verified solver control logic that
/// the shell drives.
#[derive(Clone, Copy, PartialEq, Eq, Structural, Debug)]
pub struct FourBar {
    /// The link lengths.
    pub config: FourBarConfig,
    /// Upper bound on Newton-Raphson iterations per solve.
    pub max_iterations: u32,
}

impl FourBar {
    /// A linkage with the default configuration and an iteration budget
    /// of 100.
    pub fn new() -> (fb: Self)
        ensures
            fb.config.r1 == 6 * LENGTH_SCALE,
            fb.config.r2 == 2 * LENGTH_SCALE,
            fb.config.r3 == 5 * LENGTH_SCALE,
            fb.config.r4 == 5 * LENGTH_SCALE,
            fb.max_iterations == 100,
    {
        FourBar { config: FourBarConfig::default(), max_iterations: 100 }
    }

    /// A linkage with a caller-supplied configuration and an iteration
    /// budget of 100.
    pub fn with_config(config: FourBarConfig) -> (fb: Self)
        ensures
            fb.config == config,
            fb.max_iterations == 100,
    {
        FourBar { config, max_iterations: 100 }
    }

    /// Whether the mechanism satisfies the Grashof criterion, so that the
    /// shortest link can rotate fully relative to its neighbours.
    pub fn is_grashof(&self) -> (g: bool)
        ensures
            g == self.config.grashof(),
    {
        let r1: u64 = self.config.r1 as u64;
        let r2: u64 = self.config.r2 as u64;
        let r3: u64 = self.config.r3 as u64;
        let r4: u64 = self.config.r4 as u64;
        let mut s: u64 = r1;
        if r2 < s {
            s = r2;
        }
        if r3 < s {
            s = r3;
        }
        if r4 < s {
            s = r4;
        }
        let mut l: u64 = r1;
        if r2 > l {
            l = r2;
        }
        if r3 > l {
            l = r3;
        }
        if r4 > l {
            l = r4;
        }
        let total: u64 = r1 + r2 + r3 + r4;
        // s + l <= (p + q) where p + q = total - s - l, stated without
        // subtraction.
        (s + l) + (s + l) <= total
    }

    /// The shortest link, with ties broken in favour of the earliest link
    /// in the order Ground, Crank, Coupler, Rocker.
    pub fn shortest_link(&self) -> (k: Link)
        ensures
            k == self.config.shortest_link(),
    {
        let mut best: u32 = self.config.r1;
        let mut k = Link::Ground;
        if self.config.r2 < best {
            best = self.config.r2;
            k = Link::Crank;
        }
        if self.config.r3 < best {
            best = self.config.r3;
            k = Link::Coupler;
        }
        if self.config.r4 < best {
            best = self.config.r4;
            k = Link::Rocker;
        }
        k
    }

    /// The mechanism-type name: non-Grashof chains are double rockers, and
    /// a Grashof chain is classified by which link is shortest.
    pub fn mechanism_type(&self) -> (t: &'static str)
        ensures
            t@ == self.config.type_label(),
    {
        if !self.is_grashof() {
            return "Non-Grashof (Double Rocker)";
        }
        match self.shortest_link() {
            Link::Crank => "Crank-Rocker",
            Link::Ground => "Double Crank",
            Link::Coupler => "Double Rocker",
            Link::Rocker => "Rocker-Crank",
        }
    }
}

impl Default for FourBar {
    /// Same as [`FourBar::new`].
    fn default() -> (fb: Self)
        ensures
            fb.config.r1 == 6 * LENGTH_SCALE,
            fb.config.r2 == 2 * LENGTH_SCALE,
            fb.config.r3 == 5 * LENGTH_SCALE,
            fb.config.r4 == 5 * LENGTH_SCALE,
            fb.max_iterations == 100,
    {
        FourBar::new()
    }
}

} // verus!
