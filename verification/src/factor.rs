//! The quality/scale pair that controls one file's output, and the rule that
//! picks it.

use vstd::prelude::*;

verus! {

/// The scale that leaves a side as it is: scales are counted in
/// ten-thousandths of the original side length.
pub const FULL_SCALE: u16 = 10_000;

/// Target JPEG quality, from 0 to 100, and linear resize ratio, from 0 to
/// `FULL_SCALE` ten-thousandths of the original side length.
#[derive(Clone, Copy, Debug, PartialEq, Eq, Structural)]
pub struct Factor {
    quality: u8,
    scale: u16,
}

/// `value`, or `limit` where it is larger.
pub open spec fn at_most(value: int, limit: int) -> int {
    if value <= limit {
        value
    } else {
        limit
    }
}

impl Factor {
    /// The quality, from 0 to 100.
    pub closed spec fn spec_quality(self) -> int {
        self.quality as int
    }

    /// The resize ratio, in ten-thousandths.
    pub closed spec fn spec_scale(self) -> int {
        self.scale as int
    }

    #[verifier::type_invariant]
    spec fn in_range(self) -> bool {
        self.quality <= 100 && self.scale <= FULL_SCALE
    }

    /// The factor built from the two values. A quality above 100 counts as
    /// 100, and a scale above `FULL_SCALE` as `FULL_SCALE`.
    pub closed spec fn spec_new(quality: u8, scale: u16) -> Factor {
        Factor {
            quality: at_most(quality as int, 100) as u8,
            scale: at_most(scale as int, FULL_SCALE as int) as u16,
        }
    }

    /// What `spec_new` builds.
    pub broadcast proof fn lemma_spec_new(quality: u8, scale: u16)
        ensures
            (#[trigger] Factor::spec_new(quality, scale)).spec_quality() == at_most(
                quality as int,
                100,
            ),
            Factor::spec_new(quality, scale).spec_scale() == at_most(
                scale as int,
                FULL_SCALE as int,
            ),
    {
    }

    /// Builds a factor. A quality above 100 counts as 100, and a scale above
    /// `FULL_SCALE` as `FULL_SCALE`.
    pub fn new(quality: u8, scale: u16) -> (f: Factor)
        ensures
            f == Factor::spec_new(quality, scale),
            f.spec_quality() == at_most(quality as int, 100),
            f.spec_scale() == at_most(scale as int, FULL_SCALE as int),
    {
        Factor {
            quality: if quality <= 100 {
                quality
            } else {
                100
            },
            scale: if scale <= FULL_SCALE {
                scale
            } else {
                FULL_SCALE
            },
        }
    }

    /// The quality, from 0 to 100.
    pub fn quality(&self) -> (q: u8)
        ensures
            q == self.spec_quality(),
            q <= 100,
    {
        proof {
            use_type_invariant(self);
        }
        self.quality
    }

    /// The resize ratio, in ten-thousandths.
    pub fn scale(&self) -> (s: u16)
        ensures
            s == self.spec_scale(),
            s <= FULL_SCALE,
    {
        proof {
            use_type_invariant(self);
        }
        self.scale
    }

    /// The side length that a side of `side` pixels is resized to.
    pub fn target_side(&self, side: u32) -> (t: u32)
        ensures
            t == scaled_side(side as int, self.spec_scale()),
            t <= side,
    {
        proof {
            use_type_invariant(self);
        }
        assert(side * self.scale <= 0xFFFF_FFFF * 10_000) by (nonlinear_arith)
            requires
                side <= 0xFFFF_FFFF,
                self.scale <= 10_000,
        ;
        let wide: u64 = side as u64 * self.scale as u64;
        let t: u64 = wide / 10_000;
        assert(t <= side) by (nonlinear_arith)
            requires
                t == wide / 10_000,
                wide == side * self.scale,
                self.scale <= 10_000,
        ;
        t as u32
    }
}

/// A side of `side` pixels at `scale` ten-thousandths, rounded down.
pub open spec fn scaled_side(side: int, scale: int) -> int {
    side * scale / 10_000
}

/// The default table, as (quality, scale in ten-thousandths): the larger
/// the file, the lower both.
pub open spec fn default_factor(file_size: u64) -> (int, int) {
    if file_size > 5_000_000 {
        (60, 7000)
    } else if file_size > 1_000_000 {
        (65, 7500)
    } else if file_size > 500_000 {
        (70, 8000)
    } else if file_size > 300_000 {
        (75, 8500)
    } else if file_size > 100_000 {
        (80, 9000)
    } else {
        (85, 10_000)
    }
}

/// The default table's factor for a file of `file_size` bytes.
pub open spec fn default_table(file_size: u64) -> Factor {
    Factor::spec_new(default_factor(file_size).0 as u8, default_factor(file_size).1 as u16)
}

/// The default table's factor holds the default table's values.
pub proof fn lemma_default_table(file_size: u64)
    ensures
        default_table(file_size).spec_quality() == default_factor(file_size).0,
        default_table(file_size).spec_scale() == default_factor(file_size).1,
{
    Factor::lemma_spec_new(default_factor(file_size).0 as u8, default_factor(file_size).1 as u16);
}

/// The default rule: the factor depends on the file's size alone.
pub fn default_cal_func(_width: u32, _height: u32, file_size: u64) -> (f: Factor)
    ensures
        f == default_table(file_size),
        f.spec_quality() == default_factor(file_size).0,
        f.spec_scale() == default_factor(file_size).1,
{
    if file_size > 5_000_000 {
        Factor::new(60, 7000)
    } else if file_size > 1_000_000 {
        Factor::new(65, 7500)
    } else if file_size > 500_000 {
        Factor::new(70, 8000)
    } else if file_size > 300_000 {
        Factor::new(75, 8500)
    } else if file_size > 100_000 {
        Factor::new(80, 9000)
    } else {
        Factor::new(85, 10_000)
    }
}

/// Under the default table a larger file never gets a higher quality or a
/// larger scale than a smaller one.
pub proof fn lemma_default_factor_monotone(smaller: u64, larger: u64)
    requires
        smaller <= larger,
    ensures
        default_factor(larger).0 <= default_factor(smaller).0,
        default_factor(larger).1 <= default_factor(smaller).1,
{
}

/// A rule that picks the factor for one file from the decoded width and
/// height and the original size in bytes. A rule is a function: the same
/// arguments give the same factor.
///
/// `spec_factor` is the rule as contracts speak of it, and `factor` computes
/// it. A rule written outside verified code gives both the same body;
/// nothing holds it to that.
pub trait CalFunc: Send + Sync {
    spec fn spec_factor(&self, width: u32, height: u32, file_size: u64) -> Factor;

    fn factor(&self, width: u32, height: u32, file_size: u64) -> (f: Factor)
        ensures
            f == self.spec_factor(width, height, file_size),
    ;
}

/// The default rule: the default table.
#[derive(Clone, Copy, Debug)]
pub struct DefaultCalFunc;

impl CalFunc for DefaultCalFunc {
    open spec fn spec_factor(&self, width: u32, height: u32, file_size: u64) -> Factor {
        default_table(file_size)
    }

    fn factor(&self, width: u32, height: u32, file_size: u64) -> (f: Factor) {
        default_cal_func(width, height, file_size)
    }
}

/// A rule that gives every file the same factor.
#[derive(Clone, Copy, Debug)]
pub struct FixedCalFunc {
    pub factor: Factor,
}

impl CalFunc for FixedCalFunc {
    open spec fn spec_factor(&self, width: u32, height: u32, file_size: u64) -> Factor {
        self.factor
    }

    fn factor(&self, _width: u32, _height: u32, _file_size: u64) -> (f: Factor) {
        self.factor
    }
}

} // verus!
