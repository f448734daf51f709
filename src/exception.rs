//! Exception identities of the Cortex-M profile and their numbers.

use vstd::prelude::*;

verus! {

/// An exception, identified by the number it has in IPSR when active.
#[derive(PartialEq, Eq, Structural, Debug, Copy, Clone)]
pub enum Exception {
    Reset,
    NMI,
    HardFault,
    MemoryManagementFault,
    BusFault,
    UsageFault,
    Reserved4,
    Reserved5,
    Reserved6,
    DebugMonitor,
    SVCall,
    Reserved8,
    Reserved9,
    PendSV,
    SysTick,
    Interrupt { n: u8 },
}

/// The number of an exception; external interrupt `n` is `16 + n`, modulo 256.
pub open spec fn exception_number(e: Exception) -> u8 {
    match e {
        Exception::Reset => 1,
        Exception::NMI => 2,
        Exception::HardFault => 3,
        Exception::MemoryManagementFault => 4,
        Exception::BusFault => 5,
        Exception::UsageFault => 6,
        Exception::Reserved4 => 7,
        Exception::Reserved5 => 8,
        Exception::Reserved6 => 9,
        Exception::DebugMonitor => 10,
        Exception::SVCall => 11,
        Exception::Reserved8 => 12,
        Exception::Reserved9 => 13,
        Exception::PendSV => 14,
        Exception::SysTick => 15,
        Exception::Interrupt { n } => ((16 + n) % 256) as u8,
    }
}

/// The exception of a number; 16 and above, and 0, are external
/// interrupts `value - 16`, modulo 256.
pub open spec fn exception_of(value: u8) -> Exception {
    if 1 <= value <= 15 {
        match value {
            1 => Exception::Reset,
            2 => Exception::NMI,
            3 => Exception::HardFault,
            4 => Exception::MemoryManagementFault,
            5 => Exception::BusFault,
            6 => Exception::UsageFault,
            7 => Exception::Reserved4,
            8 => Exception::Reserved5,
            9 => Exception::Reserved6,
            10 => Exception::DebugMonitor,
            11 => Exception::SVCall,
            12 => Exception::Reserved8,
            13 => Exception::Reserved9,
            14 => Exception::PendSV,
            _ => Exception::SysTick,
        }
    } else {
        Exception::Interrupt { n: ((value + 256 - 16) % 256) as u8 }
    }
}

impl From<Exception> for u8 {
    fn from(value: Exception) -> (r: u8) {
        match value {
            Exception::Reset => 1,
            Exception::NMI => 2,
            Exception::HardFault => 3,
            Exception::MemoryManagementFault => 4,
            Exception::BusFault => 5,
            Exception::UsageFault => 6,
            Exception::Reserved4 => 7,
            Exception::Reserved5 => 8,
            Exception::Reserved6 => 9,
            Exception::DebugMonitor => 10,
            Exception::SVCall => 11,
            Exception::Reserved8 => 12,
            Exception::Reserved9 => 13,
            Exception::PendSV => 14,
            Exception::SysTick => 15,
            Exception::Interrupt { n } => n.wrapping_add(16),
        }
    }
}

impl vstd::std_specs::convert::FromSpecImpl<Exception> for u8 {
    open spec fn obeys_from_spec() -> bool {
        true
    }

    open spec fn from_spec(v: Exception) -> u8 {
        exception_number(v)
    }
}

impl From<u8> for Exception {
    fn from(value: u8) -> (r: Exception) {
        match value {
            1 => Exception::Reset,
            2 => Exception::NMI,
            3 => Exception::HardFault,
            4 => Exception::MemoryManagementFault,
            5 => Exception::BusFault,
            6 => Exception::UsageFault,
            7 => Exception::Reserved4,
            8 => Exception::Reserved5,
            9 => Exception::Reserved6,
            10 => Exception::DebugMonitor,
            11 => Exception::SVCall,
            12 => Exception::Reserved8,
            13 => Exception::Reserved9,
            14 => Exception::PendSV,
            15 => Exception::SysTick,
            _ => Exception::Interrupt { n: value.wrapping_sub(16) },
        }
    }
}

impl vstd::std_specs::convert::FromSpecImpl<u8> for Exception {
    open spec fn obeys_from_spec() -> bool {
        true
    }

    open spec fn from_spec(v: u8) -> Exception {
        exception_of(v)
    }
}

/// Every number comes back from its exception: `u8::from(Exception::from(n)) == n`.
pub proof fn lemma_number_round_trip(n: u8)
    ensures
        exception_number(exception_of(n)) == n,
{
}

/// Every exception with a number of its own comes back from that number
/// (external interrupts `0..=239`, whose numbers `16..=255` fit a byte).
pub proof fn lemma_exception_round_trip(e: Exception)
    requires
        e matches Exception::Interrupt { n } ==> n < 240,
    ensures
        exception_of(exception_number(e)) == e,
{
}

} // verus!
