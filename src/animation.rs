use vstd::prelude::*;

verus! {

/// A value that can be animated: it can be added, subtracted and scaled by a
/// non-negative ratio `num / den`.
pub trait VectorSpace: Sized {
    spec fn spec_add(self, rhs: Self) -> Self;

    spec fn spec_sub(self, rhs: Self) -> Self;

    spec fn spec_scale(self, num: nat, den: nat) -> Self;

    fn add(&self, rhs: &Self) -> (r: Self)
        ensures
            r == self.spec_add(*rhs),
    ;

    fn sub(&self, rhs: &Self) -> (r: Self)
        ensures
            r == self.spec_sub(*rhs),
    ;

    fn scale(&self, num: u64, den: u64) -> (r: Self)
        requires
            den > 0,
        ensures
            r == self.spec_scale(num as nat, den as nat),
    ;
}

/// The easing curve of an interpolator, from progress to blend factor.
#[derive(Clone, Copy, Debug, PartialEq, Eq, Structural)]
pub enum Easing {
    Linear,
}

/// The linear easing: the blend factor is the progress itself. Both are
/// ratios `num / den`.
pub fn linear_interpolation(num: u64, den: u64) -> (r: (u64, u64))
    ensures
        r == (num, den),
{
    (num, den)
}

impl Easing {
    pub open spec fn spec_factor(self, num: u64, den: u64) -> (u64, u64) {
        match self {
            Easing::Linear => (num, den),
        }
    }

    pub fn factor(&self, num: u64, den: u64) -> (r: (u64, u64))
        ensures
            r == self.spec_factor(num, den),
    {
        match self {
            Easing::Linear => linear_interpolation(num, den),
        }
    }
}

/// Blends between an initial and a final value along an easing curve.
pub struct Interpolator<Item> {
    pub interpolator: Easing,
    pub initial_value: Item,
    pub final_value: Item,
}

impl<Item: VectorSpace> Interpolator<Item> {
    /// `(final - initial) * factor(num / den)`.
    pub open spec fn spec_delta(self, num: u64, den: u64) -> Item {
        let f = self.interpolator.spec_factor(num, den);
        self.final_value.spec_sub(self.initial_value).spec_scale(f.0 as nat, f.1 as nat)
    }

    pub fn linear(initial_value: Item, final_value: Item) -> (r: Interpolator<Item>)
        ensures
            r.interpolator == Easing::Linear,
            r.initial_value == initial_value,
            r.final_value == final_value,
    {
        Interpolator { initial_value, final_value, interpolator: Easing::Linear }
    }

    /// The offset from the initial value at progress `num / den`.
    pub fn delta(&self, num: u64, den: u64) -> (r: Item)
        requires
            den > 0,
        ensures
            r == self.spec_delta(num, den),
    {
        let (fnum, fden) = self.interpolator.factor(num, den);
        self.final_value.sub(&self.initial_value).scale(fnum, fden)
    }
}

/// `a + b`, held at `u64::MAX`.
pub open spec fn sat_add_u64(a: u64, b: u64) -> u64 {
    if a + b > u64::MAX {
        u64::MAX
    } else {
        (a + b) as u64
    }
}

/// An interpolation run over a duration, in milliseconds. Progress is
/// `elapsed / duration` and is not clamped at one; a zero duration counts
/// as complete from the start.
pub struct Animation<Item> {
    pub duration: u64,
    pub current_dt: u64,
    pub interpolator: Interpolator<Item>,
}

impl<Item: VectorSpace> Animation<Item> {
    /// Progress as a ratio with a positive denominator.
    pub open spec fn spec_progress(self) -> (u64, u64) {
        if self.duration == 0 {
            (1, 1)
        } else {
            (self.current_dt, self.duration)
        }
    }

    /// The offset at the current progress.
    pub open spec fn spec_delta(self) -> Item {
        let p = self.spec_progress();
        self.interpolator.spec_delta(p.0, p.1)
    }

    /// The animation after `dt` more milliseconds.
    pub open spec fn spec_advanced(self, dt: u64) -> Animation<Item> {
        Animation { current_dt: sat_add_u64(self.current_dt, dt), ..self }
    }

    pub fn new(duration: u64, interpolator: Interpolator<Item>) -> (r: Animation<Item>)
        ensures
            r.duration == duration,
            r.current_dt == 0,
            r.interpolator == interpolator,
    {
        Animation { duration, current_dt: 0, interpolator }
    }

    /// Adds `dt` milliseconds to the elapsed time and returns the offset at
    /// the new progress.
    pub fn advance(&mut self, dt: u64) -> (r: Item)
        ensures
            *final(self) == old(self).spec_advanced(dt),
            r == final(self).spec_delta(),
    {
        self.current_dt = if self.current_dt > u64::MAX - dt { u64::MAX } else { self.current_dt + dt };
        if self.duration == 0 {
            self.interpolator.delta(1, 1)
        } else {
            self.interpolator.delta(self.current_dt, self.duration)
        }
    }
}

/// A value with at most one animation in flight. Each update adds the
/// animation's offset at the new progress to the value: offsets accumulate,
/// and the value keeps moving after the duration has passed.
pub struct AnimateProperty<Item> {
    pub property: Item,
    pub animation: Option<Animation<Item>>,
}

impl<Item: VectorSpace> AnimateProperty<Item> {
    /// The property after one update of `dt` milliseconds.
    pub open spec fn spec_updated(self, dt: u64) -> AnimateProperty<Item> {
        match self.animation {
            None => self,
            Some(a) => AnimateProperty {
                property: self.property.spec_add(a.spec_advanced(dt).spec_delta()),
                animation: Some(a.spec_advanced(dt)),
            },
        }
    }

    pub fn new(property: Item) -> (r: AnimateProperty<Item>)
        ensures
            r.property == property,
            r.animation.is_none(),
    {
        AnimateProperty { property, animation: None }
    }

    /// Starts a fresh animation, replacing any in flight.
    pub fn set_animation(&mut self, duration: u64, interpolator: Interpolator<Item>)
        ensures
            final(self).property == old(self).property,
            final(self).animation == Some(
                Animation { duration, current_dt: 0, interpolator },
            ),
    {
        self.animation = Some(Animation::new(duration, interpolator));
    }

    pub fn update(&mut self, dt: u64)
        ensures
            *final(self) == old(self).spec_updated(dt),
    {
        match &mut self.animation {
            Some(animation) => {
                let delta = animation.advance(dt);
                self.property = self.property.add(&delta);
            },
            None => {},
        }
    }
}

} // verus!
