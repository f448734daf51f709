//! Condition codes and their evaluation against the APSR flags.

use crate::register::Psr;
use vstd::prelude::*;

verus! {

/// A four-bit condition field.
#[derive(PartialEq, Eq, Structural, Debug, Copy, Clone)]
pub enum Condition {
    EQ,
    NE,
    CS,
    CC,
    MI,
    PL,
    VS,
    VC,
    HI,
    LS,
    GE,
    LT,
    GT,
    LE,
    AL,
    NV,
}

/// The four-bit encoding of a condition.
pub open spec fn condition_code(c: Condition) -> u8 {
    match c {
        Condition::EQ => 0,
        Condition::NE => 1,
        Condition::CS => 2,
        Condition::CC => 3,
        Condition::MI => 4,
        Condition::PL => 5,
        Condition::VS => 6,
        Condition::VC => 7,
        Condition::HI => 8,
        Condition::LS => 9,
        Condition::GE => 10,
        Condition::LT => 11,
        Condition::GT => 12,
        Condition::LE => 13,
        Condition::AL => 14,
        Condition::NV => 15,
    }
}

/// Whether the flags satisfy the condition with four-bit encoding `code`:
/// the even codes test a predicate, the odd ones below 14 its negation, and
/// 14 and 15 always pass.
pub open spec fn condition_holds(code: u8, psr: Psr) -> bool {
    let base = match code / 2 {
        0 => psr.z,
        1 => psr.c,
        2 => psr.n,
        3 => psr.v,
        4 => psr.c && !psr.z,
        5 => psr.n == psr.v,
        6 => psr.n == psr.v && !psr.z,
        _ => true,
    };
    if code % 2 == 1 && code < 14 {
        !base
    } else {
        base
    }
}

impl Condition {
    /// The condition of a four-bit code (taken modulo 16).
    pub fn from_code(code: u8) -> (r: Condition)
        ensures
            condition_code(r) == code % 16,
    {
        match code % 16 {
            0 => Condition::EQ,
            1 => Condition::NE,
            2 => Condition::CS,
            3 => Condition::CC,
            4 => Condition::MI,
            5 => Condition::PL,
            6 => Condition::VS,
            7 => Condition::VC,
            8 => Condition::HI,
            9 => Condition::LS,
            10 => Condition::GE,
            11 => Condition::LT,
            12 => Condition::GT,
            13 => Condition::LE,
            14 => Condition::AL,
            _ => Condition::NV,
        }
    }

    /// The four-bit encoding.
    pub fn value(&self) -> (r: u8)
        ensures
            r == condition_code(*self),
    {
        match self {
            Condition::EQ => 0,
            Condition::NE => 1,
            Condition::CS => 2,
            Condition::CC => 3,
            Condition::MI => 4,
            Condition::PL => 5,
            Condition::VS => 6,
            Condition::VC => 7,
            Condition::HI => 8,
            Condition::LS => 9,
            Condition::GE => 10,
            Condition::LT => 11,
            Condition::GT => 12,
            Condition::LE => 13,
            Condition::AL => 14,
            Condition::NV => 15,
        }
    }
}

/// Evaluates the condition with encoding `code` against the flags.
pub fn condition_test(code: u8, psr: &Psr) -> (r: bool)
    requires
        code < 16,
    ensures
        r == condition_holds(code, *psr),
{
    let base = match code / 2 {
        0 => psr.z,
        1 => psr.c,
        2 => psr.n,
        3 => psr.v,
        4 => psr.c && !psr.z,
        5 => psr.n == psr.v,
        6 => psr.n == psr.v && !psr.z,
        _ => true,
    };
    if code % 2 == 1 && code < 14 {
        !base
    } else {
        base
    }
}

} // verus!
