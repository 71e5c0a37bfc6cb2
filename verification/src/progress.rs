//! Human-readable rendering of byte counts for progress display.
//!
//! A unit is only chosen once the value renders with at least two digits in
//! it: each tier's promotion border is ten times its divisor. The terabyte
//! divisor keeps that ratio too — it is one tenth of the terabyte border by
//! design, mirroring every other tier.
use vstd::prelude::*;

use crate::digits::{dec_rep, u64_to_string};

verus! {

/// The display unit of a formatted byte count.
#[derive(Copy, Clone, Debug, PartialEq, Eq, Structural)]
pub enum Unit {
    Bytes,
    Kilobytes,
    Megabytes,
    Gigabytes,
    Terabytes,
}

pub const KILOBYTE: u64 = 1_000;

pub const KILOBYTE_BORDER: u64 = 10_000;

pub const MEGABYTE: u64 = 1_000_000;

pub const MEGABYTE_BORDER: u64 = 10_000_000;

pub const GIGABYTE: u64 = 1_000_000_000;

pub const GIGABYTE_BORDER: u64 = 10_000_000_000;

pub const TERABYTE: u64 = 100_000_000_000;

pub const TERABYTE_BORDER: u64 = 1_000_000_000_000;

/// The short label a unit is displayed with.
pub open spec fn spec_label(u: Unit) -> Seq<char> {
    match u {
        Unit::Bytes => "Byte"@,
        Unit::Kilobytes => "KB"@,
        Unit::Megabytes => "MB"@,
        Unit::Gigabytes => "GB"@,
        Unit::Terabytes => "TB"@,
    }
}

impl Unit {
    /// The short label this unit is displayed with.
    pub fn label(&self) -> (r: &'static str)
        ensures
            r@ == spec_label(*self),
    {
        match self {
            Unit::Bytes => "Byte",
            Unit::Kilobytes => "KB",
            Unit::Megabytes => "MB",
            Unit::Gigabytes => "GB",
            Unit::Terabytes => "TB",
        }
    }
}

/// The unit a byte count is displayed in: the largest whose promotion
/// border the value has reached.
pub open spec fn spec_unit(value: nat) -> Unit {
    if value >= TERABYTE_BORDER {
        Unit::Terabytes
    } else if value >= GIGABYTE_BORDER {
        Unit::Gigabytes
    } else if value >= MEGABYTE_BORDER {
        Unit::Megabytes
    } else if value >= KILOBYTE_BORDER {
        Unit::Kilobytes
    } else {
        Unit::Bytes
    }
}

/// The divisor a unit scales the raw value down by.
pub open spec fn unit_divisor(u: Unit) -> nat {
    match u {
        Unit::Bytes => 1,
        Unit::Kilobytes => KILOBYTE as nat,
        Unit::Megabytes => MEGABYTE as nat,
        Unit::Gigabytes => GIGABYTE as nat,
        Unit::Terabytes => TERABYTE as nat,
    }
}

/// `value / d`, rounded to the nearest integer with halves rounded up.
pub open spec fn rounded_div(value: nat, d: nat) -> nat
    recommends
        d > 0,
{
    value / d + (if value % d >= d - d / 2 {
        1nat
    } else {
        0nat
    })
}

/// The number a byte count is displayed as: the value scaled by its unit's
/// divisor and rounded to the nearest integer.
pub open spec fn spec_display(value: nat) -> nat {
    rounded_div(value, unit_divisor(spec_unit(value)))
}

/// Formats a raw byte count: the display unit for its magnitude and the
/// rounded scaled value as a plain integer string, no decimals.
pub fn get_unit(value: u64) -> (r: (Unit, String))
    ensures
        r.0 == spec_unit(value as nat),
        r.1@ == dec_rep(spec_display(value as nat)),
{
    let (unit, divisor): (Unit, u64) = if value >= TERABYTE_BORDER {
        (Unit::Terabytes, TERABYTE)
    } else if value >= GIGABYTE_BORDER {
        (Unit::Gigabytes, GIGABYTE)
    } else if value >= MEGABYTE_BORDER {
        (Unit::Megabytes, MEGABYTE)
    } else if value >= KILOBYTE_BORDER {
        (Unit::Kilobytes, KILOBYTE)
    } else {
        (Unit::Bytes, 1)
    };
    let quotient = value / divisor;
    let remainder = value % divisor;
    let display = if remainder >= divisor - divisor / 2 {
        quotient + 1
    } else {
        quotient
    };
    (unit, u64_to_string(display))
}

/// Every value below the kilobyte border is displayed in Bytes, as the
/// value itself.
pub proof fn lemma_bytes_below_border(value: nat)
    requires
        value < KILOBYTE_BORDER,
    ensures
        spec_unit(value) == Unit::Bytes,
        spec_display(value) == value,
{
    assert(value % 1 == 0) by (nonlinear_arith);
    assert(value / 1 == value) by (nonlinear_arith);
}

/// A byte progress pair — how much is loaded of how much in total — kept
/// together with its formatted rendering for display.
#[derive(Clone, Debug, PartialEq)]
pub struct Progress {
    loaded: u64,
    total: u64,
    loaded_string: String,
    total_string: String,
    loaded_unit: Unit,
    total_unit: Unit,
}

impl Progress {
    /// The raw loaded byte count.
    pub closed spec fn spec_loaded(&self) -> u64 {
        self.loaded
    }

    /// The raw total byte count.
    pub closed spec fn spec_total(&self) -> u64 {
        self.total
    }

    /// The cached strings and units agree with the raw values.
    pub closed spec fn wf(&self) -> bool {
        &&& self.loaded_unit == spec_unit(self.loaded as nat)
        &&& self.total_unit == spec_unit(self.total as nat)
        &&& self.loaded_string@ == dec_rep(spec_display(self.loaded as nat))
        &&& self.total_string@ == dec_rep(spec_display(self.total as nat))
    }

    pub fn new(loaded: u64, total: u64) -> (p: Progress)
        ensures
            p.wf(),
            p.spec_loaded() == loaded,
            p.spec_total() == total,
    {
        let (loaded_unit, loaded_string) = get_unit(loaded);
        let (total_unit, total_string) = get_unit(total);
        Progress { loaded, total, loaded_string, total_string, loaded_unit, total_unit }
    }

    pub fn loaded(&self) -> (r: u64)
        ensures
            r == self.spec_loaded(),
    {
        self.loaded
    }

    pub fn loaded_string(&self) -> (r: &String)
        requires
            self.wf(),
        ensures
            r@ == dec_rep(spec_display(self.spec_loaded() as nat)),
    {
        &self.loaded_string
    }

    pub fn loaded_unit(&self) -> (r: Unit)
        requires
            self.wf(),
        ensures
            r == spec_unit(self.spec_loaded() as nat),
    {
        self.loaded_unit
    }

    pub fn set_loaded(&mut self, loaded: u64)
        requires
            old(self).wf(),
        ensures
            final(self).wf(),
            final(self).spec_loaded() == loaded,
            final(self).spec_total() == old(self).spec_total(),
    {
        self.loaded = loaded;
        let (unit, loaded_string) = get_unit(loaded);
        self.loaded_unit = unit;
        self.loaded_string = loaded_string;
    }

    pub fn total(&self) -> (r: u64)
        ensures
            r == self.spec_total(),
    {
        self.total
    }

    pub fn total_string(&self) -> (r: &String)
        requires
            self.wf(),
        ensures
            r@ == dec_rep(spec_display(self.spec_total() as nat)),
    {
        &self.total_string
    }

    pub fn total_unit(&self) -> (r: Unit)
        requires
            self.wf(),
        ensures
            r == spec_unit(self.spec_total() as nat),
    {
        self.total_unit
    }

    pub fn set_total(&mut self, total: u64)
        requires
            old(self).wf(),
        ensures
            final(self).wf(),
            final(self).spec_total() == total,
            final(self).spec_loaded() == old(self).spec_loaded(),
    {
        self.total = total;
        let (unit, total_string) = get_unit(total);
        self.total_unit = unit;
        self.total_string = total_string;
    }
}

} // verus!
