//! Temperatures as fixed-point counts of tenths of a degree, tagged by unit.

use std::cmp::Ordering;
use std::marker::PhantomData;
use std::ops::{Add, Sub};
use vstd::prelude::*;
use vstd::std_specs::cmp::{PartialEqSpecImpl, PartialOrdSpecImpl};
use vstd::std_specs::ops::{AddSpecImpl, SubSpecImpl};

verus! {

/// Unit tag: degrees Celsius.
#[derive(Debug)]
pub enum C {
    Celsius,
}

/// Unit tag: degrees Fahrenheit.
#[derive(Debug)]
pub enum F {
    Fahrenheit,
}

/// A temperature in tenths of a degree of `Unit`.
///
/// The unit is part of the type: a value is never reinterpreted in another
/// unit, only converted by `to_f` and `to_c`.
#[derive(Debug)]
pub struct Temperature<Unit>(pub i16, pub PhantomData<Unit>);

/// `v` limited to what sixteen signed bits hold.
pub open spec fn clamp_tenths(v: int) -> int {
    if v < i16::MIN {
        i16::MIN as int
    } else if v > i16::MAX {
        i16::MAX as int
    } else {
        v
    }
}

/// The quotient of `a` by a positive `b`, rounded toward zero.
pub open spec fn div_toward_zero(a: int, b: int) -> int
    recommends
        b > 0,
{
    if a >= 0 {
        a / b
    } else {
        -((-a) / b)
    }
}

/// Tenths of a degree Fahrenheit for `c` tenths of a degree Celsius.
pub open spec fn celsius_to_fahrenheit(c: int) -> int {
    div_toward_zero(9 * c + 1600, 5)
}

/// Tenths of a degree Celsius for `f` tenths of a degree Fahrenheit.
pub open spec fn fahrenheit_to_celsius(f: int) -> int {
    div_toward_zero(5 * (f - 320), 9)
}

impl<Unit> View for Temperature<Unit> {
    type V = int;

    /// The number of tenths of a degree.
    open spec fn view(&self) -> int {
        self.0 as int
    }
}

impl<Unit> Temperature<Unit> {
    /// The temperature of `tenths` tenths of a degree, limited to the range of the type.
    fn clamped(tenths: i32) -> (res: Self)
        ensures
            res@ == clamp_tenths(tenths as int),
    {
        if tenths < -32768 {
            Temperature(-32768, PhantomData)
        } else if tenths > 32767 {
            Temperature(32767, PhantomData)
        } else {
            Temperature(tenths as i16, PhantomData)
        }
    }
}

impl<Unit> Copy for Temperature<Unit> {}

impl<Unit> Clone for Temperature<Unit> {
    fn clone(&self) -> (res: Self)
        ensures
            res == *self,
    {
        Temperature(self.0, PhantomData)
    }
}

impl<Unit> PartialEq for Temperature<Unit> {
    fn eq(&self, other: &Self) -> (res: bool) {
        self.0 == other.0
    }
}

impl<Unit> PartialEqSpecImpl for Temperature<Unit> {
    open spec fn obeys_eq_spec() -> bool {
        true
    }

    open spec fn eq_spec(&self, other: &Self) -> bool {
        self.0 == other.0
    }
}

impl<Unit> PartialOrd for Temperature<Unit> {
    fn partial_cmp(&self, other: &Self) -> (res: Option<Ordering>) {
        if self.0 < other.0 {
            Some(Ordering::Less)
        } else if self.0 > other.0 {
            Some(Ordering::Greater)
        } else {
            Some(Ordering::Equal)
        }
    }
}

impl<Unit> PartialOrdSpecImpl for Temperature<Unit> {
    open spec fn obeys_partial_cmp_spec() -> bool {
        true
    }

    open spec fn partial_cmp_spec(&self, other: &Self) -> Option<Ordering> {
        if self.0 < other.0 {
            Some(Ordering::Less)
        } else if self.0 > other.0 {
            Some(Ordering::Greater)
        } else {
            Some(Ordering::Equal)
        }
    }
}

impl<Unit> Add for Temperature<Unit> {
    type Output = Self;

    fn add(self, rhs: Self) -> (res: Self) {
        Temperature(self.0 + rhs.0, PhantomData)
    }
}

impl<Unit> AddSpecImpl for Temperature<Unit> {
    open spec fn obeys_add_spec() -> bool {
        true
    }

    open spec fn add_req(self, rhs: Self) -> bool {
        i16::MIN <= self.0 + rhs.0 <= i16::MAX
    }

    open spec fn add_spec(self, rhs: Self) -> Self {
        Temperature((self.0 + rhs.0) as i16, PhantomData)
    }
}

impl<Unit> Sub for Temperature<Unit> {
    type Output = Self;

    fn sub(self, rhs: Self) -> (res: Self) {
        Temperature(self.0 - rhs.0, PhantomData)
    }
}

impl<Unit> SubSpecImpl for Temperature<Unit> {
    open spec fn obeys_sub_spec() -> bool {
        true
    }

    open spec fn sub_req(self, rhs: Self) -> bool {
        i16::MIN <= self.0 - rhs.0 <= i16::MAX
    }

    open spec fn sub_spec(self, rhs: Self) -> Self {
        Temperature((self.0 - rhs.0) as i16, PhantomData)
    }
}

impl Temperature<C> {
    /// The Celsius temperature of `tenths` tenths of a degree; a count that
    /// sixteen bits cannot hold gives the nearest temperature that they can.
    pub fn in_c(tenths: i32) -> (res: Temperature<C>)
        ensures
            res@ == clamp_tenths(tenths as int),
    {
        Temperature::clamped(tenths)
    }

    /// The same temperature in Fahrenheit, rounded toward zero to a tenth.
    pub fn to_f(&self) -> (res: Temperature<F>)
        ensures
            res@ == clamp_tenths(celsius_to_fahrenheit(self@)),
    {
        let scaled: i32 = 9 * (self.0 as i32) + 1600;
        Temperature::in_f(scaled / 5)
    }
}

impl Temperature<F> {
    /// The Fahrenheit temperature of `tenths` tenths of a degree; a count
    /// that sixteen bits cannot hold gives the nearest temperature that they can.
    pub fn in_f(tenths: i32) -> (res: Temperature<F>)
        ensures
            res@ == clamp_tenths(tenths as int),
    {
        Temperature::clamped(tenths)
    }

    /// The same temperature in Celsius, rounded toward zero to a tenth.
    pub fn to_c(&self) -> (res: Temperature<C>)
        ensures
            res@ == fahrenheit_to_celsius(self@),
    {
        let scaled: i32 = 5 * ((self.0 as i32) - 320);
        Temperature::in_c(scaled / 9)
    }
}

} // verus!
