//! The noise field: a rectangle of fixed-point noise samples.
//!
//! The noise source produces one sample per cell, a value in the interval
//! [-1, 1]. The library keeps each sample in fixed point, in thousandths,
//! so that the classification can read it as a plain integer; whatever
//! builds the field (the noise source lives outside this library) converts
//! its samples to that scale, clamping strays back into the interval.

use vstd::prelude::*;
use crate::grid::{cell_index, lemma_cell_index_bounds, lemma_cell_index_injective};

verus! {

/// The smallest well-formed sample: -1, in thousandths.
pub const NOISE_MIN_MILLIS: i32 = -1000;

/// The largest well-formed sample: 1, in thousandths.
pub const NOISE_MAX_MILLIS: i32 = 1000;

/// One noise sample, in thousandths of the sample interval [-1, 1].
#[derive(Clone, Copy, PartialEq, Eq, Structural, Debug)]
pub struct NoiseValue {
    pub millis: i32,
}

/// `millis` clamped into the well-formed sample range.
pub open spec fn clamp_millis(millis: int) -> int {
    if millis < NOISE_MIN_MILLIS {
        NOISE_MIN_MILLIS as int
    } else if millis > NOISE_MAX_MILLIS {
        NOISE_MAX_MILLIS as int
    } else {
        millis
    }
}

impl NoiseValue {
    /// A sample is well formed when it lies in [-1, 1], in thousandths.
    pub open spec fn wf(&self) -> bool {
        NOISE_MIN_MILLIS <= self.millis <= NOISE_MAX_MILLIS
    }

    /// The magnitude of the sample: how far it lies from zero.
    pub open spec fn abs_spec(&self) -> int {
        if self.millis < 0 {
            -self.millis
        } else {
            self.millis as int
        }
    }

    /// A sample from a value already in thousandths of [-1, 1].
    pub fn new(millis: i32) -> (v: Self)
        requires
            NOISE_MIN_MILLIS <= millis <= NOISE_MAX_MILLIS,
        ensures
            v.wf(),
            v.millis == millis,
    {
        NoiseValue { millis }
    }

    /// A sample from any count of thousandths, clamped into [-1, 1].
    pub fn clamped(millis: i32) -> (v: Self)
        ensures
            v.wf(),
            v.millis == clamp_millis(millis as int),
    {
        if millis < NOISE_MIN_MILLIS {
            NoiseValue { millis: NOISE_MIN_MILLIS }
        } else if millis > NOISE_MAX_MILLIS {
            NoiseValue { millis: NOISE_MAX_MILLIS }
        } else {
            NoiseValue { millis }
        }
    }

    /// The magnitude of the sample.
    pub fn abs(&self) -> (r: i32)
        requires
            self.wf(),
        ensures
            r == self.abs_spec(),
    {
        if self.millis < 0 {
            -self.millis
        } else {
            self.millis
        }
    }
}

/// A rectangle of noise samples, one per cell, stored row by row.
pub struct NoiseField {
    pub width: usize,
    pub height: usize,
    pub values: Vec<NoiseValue>,
}

impl NoiseField {
    /// The field is well formed: one sample per cell, every sample in range.
    pub open spec fn wf(&self) -> bool {
        &&& self.values@.len() == self.width * self.height
        &&& forall|i: int| 0 <= i < self.values@.len() ==> self.values@[i].wf()
    }

    /// The sample stored at cell `(x, y)`.
    pub open spec fn value_at(&self, x: int, y: int) -> NoiseValue {
        self.values@[cell_index(self.width as int, x, y)]
    }

    /// A field of the given size with every sample zero.
    pub fn new(width: usize, height: usize) -> (m: Self)
        requires
            width * height <= usize::MAX,
        ensures
            m.wf(),
            m.width == width,
            m.height == height,
            forall|x: int, y: int|
                0 <= x < width && 0 <= y < height ==> m.value_at(x, y).millis == 0,
    {
        let n = width * height;
        let mut values: Vec<NoiseValue> = Vec::new();
        let mut i: usize = 0;
        while i < n
            invariant
                i <= n,
                values@.len() == i,
                forall|j: int| 0 <= j < i ==> values@[j].millis == 0,
            decreases n - i,
        {
            values.push(NoiseValue { millis: 0 });
            i = i + 1;
        }
        let m = NoiseField { width, height, values };
        proof {
            assert forall|x: int, y: int|
                0 <= x < width && 0 <= y < height implies m.value_at(x, y).millis == 0 by {
                lemma_cell_index_bounds(width as int, height as int, x, y);
            }
        }
        m
    }

    /// The width and height of the field.
    pub fn size(&self) -> (s: (usize, usize))
        requires
            self.wf(),
        ensures
            s.0 == self.width,
            s.1 == self.height,
            self.width * self.height <= usize::MAX,
    {
        let n = self.values.len();
        (self.width, self.height)
    }

    /// The sample at cell `(x, y)`.
    pub fn get_value(&self, x: usize, y: usize) -> (v: NoiseValue)
        requires
            self.wf(),
            x < self.width,
            y < self.height,
        ensures
            v == self.value_at(x as int, y as int),
            v.wf(),
    {
        let n = self.values.len();
        proof {
            lemma_cell_index_bounds(self.width as int, self.height as int, x as int, y as int);
            assert(y * self.width + x < n);
        }
        let i = y * self.width + x;
        self.values[i]
    }

    /// Stores `value` at cell `(x, y)`; every other cell keeps its sample.
    pub fn set_value(&mut self, x: usize, y: usize, value: NoiseValue)
        requires
            old(self).wf(),
            x < old(self).width,
            y < old(self).height,
            value.wf(),
        ensures
            final(self).wf(),
            final(self).width == old(self).width,
            final(self).height == old(self).height,
            final(self).value_at(x as int, y as int) == value,
            forall|xx: int, yy: int|
                0 <= xx < old(self).width && 0 <= yy < old(self).height
                    && !(xx == x as int && yy == y as int)
                    ==> final(self).value_at(xx, yy) == old(self).value_at(xx, yy),
    {
        let n = self.values.len();
        proof {
            lemma_cell_index_bounds(self.width as int, self.height as int, x as int, y as int);
            assert(y * self.width + x < n);
        }
        let i = y * self.width + x;
        self.values.set(i, value);
        proof {
            assert forall|xx: int, yy: int|
                0 <= xx < old(self).width && 0 <= yy < old(self).height
                    && !(xx == x as int && yy == y as int)
                    implies self.value_at(xx, yy) == old(self).value_at(xx, yy) by {
                lemma_cell_index_bounds(self.width as int, self.height as int, xx, yy);
                if cell_index(self.width as int, xx, yy)
                    == cell_index(self.width as int, x as int, y as int) {
                    lemma_cell_index_injective(self.width as int, xx, yy, x as int, y as int);
                }
            }
        }
    }
}

} // verus!
