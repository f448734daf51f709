//! The semihosting escape: `BKPT #0xAB` asks the host for a service, with
//! the operation number in `r0` and its argument (or argument block) in `r1`.

use crate::bus::{addr_add, byte_at, word_at, Bus};
use crate::cpu::{Core, CoreState};
use crate::register::Reg;
use vstd::prelude::*;

verus! {

/// Open the file named in the block at `r1`: name address, mode, name length.
pub const SYS_OPEN: u32 = 0x01;

/// Close the file whose handle is the word at `r1`.
pub const SYS_CLOSE: u32 = 0x02;

/// Write the character that `r1` points at.
pub const SYS_WRITEC: u32 = 0x03;

/// Write the zero-terminated string that `r1` points at.
pub const SYS_WRITE0: u32 = 0x04;

/// Write to a file; the block at `r1` holds handle, buffer address, length.
pub const SYS_WRITE: u32 = 0x05;

/// Read from a file; the block at `r1` holds handle, buffer address, length.
pub const SYS_READ: u32 = 0x06;

/// Ask whether the handle in the block at `r1` is a terminal.
pub const SYS_ISTTY: u32 = 0x09;

/// Move to a position; the block at `r1` holds handle and position.
pub const SYS_SEEK: u32 = 0x0A;

/// Ask for the length of the file whose handle is in the block at `r1`.
pub const SYS_FLEN: u32 = 0x0C;

/// Ask for the time in seconds.
pub const SYS_TIME: u32 = 0x11;

/// Stop the program, with the reason in `r1`.
pub const SYS_EXIT: u32 = 0x18;

/// The most bytes that one request hands over (a string, a name or a buffer).
pub const MAX_STRING: u32 = 0x1000;

/// A request to the host.
pub enum SemihostingCommand {
    SysWriteC { c: u8 },
    SysWrite0 { data: Vec<u8> },
    SysExit { reason: u32 },
    SysOpen { name: Vec<u8>, mode: u32 },
    SysClose { handle: u32 },
    SysWrite { handle: u32, data: Vec<u8> },
    SysRead { handle: u32, address: u32, len: u32 },
    SysIstty { handle: u32 },
    SysSeek { handle: u32, position: u32 },
    SysFlen { handle: u32 },
    SysTime,
    Other { op: u32, arg: u32 },
}

/// The host's answer.
#[derive(PartialEq, Eq, Structural, Debug, Copy, Clone)]
pub enum SemihostingResponse {
    /// The request completed with this return value for `r0`.
    Done { r0: u32 },
    /// The program is to stop; no register changes.
    Exit,
    /// The host does not offer the operation; `r0` becomes -1.
    Unsupported,
}

/// The host side of semihosting, supplied by whoever runs the core.
pub trait SemihostHandler {
    fn handle(&mut self, command: &SemihostingCommand) -> SemihostingResponse;
}

/// The bytes of the zero-terminated string at `a`, at most `limit` of them.
pub open spec fn c_string(m: Map<u32, u8>, a: u32, limit: nat) -> Seq<u8>
    decreases limit,
{
    if limit == 0 || byte_at(m, a) == 0 {
        Seq::empty()
    } else {
        seq![byte_at(m, a)] + c_string(m, addr_add(a, 1), (limit - 1) as nat)
    }
}

/// The `n` bytes from `a` up.
pub open spec fn bytes_at(m: Map<u32, u8>, a: u32, n: nat) -> Seq<u8>
    decreases n,
{
    if n == 0 {
        Seq::empty()
    } else {
        seq![byte_at(m, a)] + bytes_at(m, addr_add(a, 1), (n - 1) as nat)
    }
}

/// Word `k` of the argument block at `a`.
pub open spec fn arg(m: Map<u32, u8>, a: u32, k: nat) -> u32 {
    word_at(m, addr_add(a, 4 * k))
}

/// The length of a buffer as handed over: at most `MAX_STRING` bytes.
pub open spec fn capped(len: u32) -> nat {
    if len > MAX_STRING { MAX_STRING as nat } else { len as nat }
}

/// Whether `c` is the request made by operation `r0` with argument `r1` over memory `m`.
pub open spec fn is_command(c: SemihostingCommand, r0: u32, r1: u32, m: Map<u32, u8>) -> bool {
    match c {
        SemihostingCommand::SysWriteC { c } => r0 == SYS_WRITEC && c == byte_at(m, r1),
        SemihostingCommand::SysWrite0 { data } => r0 == SYS_WRITE0 && data@ == c_string(
            m,
            r1,
            MAX_STRING as nat,
        ),
        SemihostingCommand::SysExit { reason } => r0 == SYS_EXIT && reason == r1,
        SemihostingCommand::SysOpen { name, mode } => r0 == SYS_OPEN && name@ == bytes_at(
            m,
            arg(m, r1, 0),
            capped(arg(m, r1, 2)),
        ) && mode == arg(m, r1, 1),
        SemihostingCommand::SysClose { handle } => r0 == SYS_CLOSE && handle == arg(m, r1, 0),
        SemihostingCommand::SysWrite { handle, data } => r0 == SYS_WRITE && handle == arg(m, r1, 0)
            && data@ == bytes_at(m, arg(m, r1, 1), capped(arg(m, r1, 2))),
        SemihostingCommand::SysRead { handle, address, len } => r0 == SYS_READ && handle == arg(
            m,
            r1,
            0,
        ) && address == arg(m, r1, 1) && len == arg(m, r1, 2),
        SemihostingCommand::SysIstty { handle } => r0 == SYS_ISTTY && handle == arg(m, r1, 0),
        SemihostingCommand::SysSeek { handle, position } => r0 == SYS_SEEK && handle == arg(
            m,
            r1,
            0,
        ) && position == arg(m, r1, 1),
        SemihostingCommand::SysFlen { handle } => r0 == SYS_FLEN && handle == arg(m, r1, 0),
        SemihostingCommand::SysTime => r0 == SYS_TIME,
        SemihostingCommand::Other { op, arg } => r0 != SYS_WRITEC && r0 != SYS_WRITE0 && r0
            != SYS_EXIT && r0 != SYS_OPEN && r0 != SYS_CLOSE && r0 != SYS_WRITE && r0 != SYS_READ
            && r0 != SYS_ISTTY && r0 != SYS_SEEK && r0 != SYS_FLEN && r0 != SYS_TIME && op == r0
            && arg == r1,
    }
}

/// Reads `len` bytes (at most `MAX_STRING`) from `a` up.
fn read_bytes<B: Bus>(core: &Core<B>, a: u32, len: u32) -> (r: Vec<u8>)
    ensures
        r@ == bytes_at(core.bus.mem(), a, capped(len)),
{
    let ghost m = core.bus.mem();
    let n: u32 = if len > MAX_STRING { MAX_STRING } else { len };
    let mut data: Vec<u8> = Vec::new();
    let mut addr: u32 = a;
    let mut left: u32 = n;
    while left > 0
        invariant
            m == core.bus.mem(),
            data@ + bytes_at(m, addr, left as nat) == bytes_at(m, a, n as nat),
        decreases left,
    {
        let b = core.bus.read8(addr);
        proof {
            assert(data@.push(b) + bytes_at(m, addr_add(addr, 1), (left - 1) as nat) =~= data@
                + bytes_at(m, addr, left as nat));
        }
        data.push(b);
        addr = addr.wrapping_add(1);
        left = left - 1;
    }
    proof {
        assert(data@ + bytes_at(m, addr, 0) =~= data@);
    }
    data
}

/// Reads word `k` of the argument block at `a`.
fn read_arg<B: Bus>(core: &Core<B>, a: u32, k: u32) -> (r: u32)
    requires
        k < 4,
    ensures
        r == arg(core.bus.mem(), a, k as nat),
{
    core.bus.read32(a.wrapping_add(4 * k))
}

/// Reads the request of operation `r0` with argument `r1` from the core's memory.
pub fn decode_semihostcmd<B: Bus>(r0: u32, r1: u32, core: &Core<B>) -> (r: SemihostingCommand)
    ensures
        is_command(r, r0, r1, core.bus.mem()),
{
    if r0 == SYS_WRITEC {
        SemihostingCommand::SysWriteC { c: core.bus.read8(r1) }
    } else if r0 == SYS_WRITE0 {
        let ghost m = core.bus.mem();
        let mut data: Vec<u8> = Vec::new();
        let mut addr: u32 = r1;
        let mut left: u32 = MAX_STRING;
        let mut b: u8 = core.bus.read8(addr);
        while left > 0 && b != 0
            invariant
                m == core.bus.mem(),
                b == byte_at(m, addr),
                data@ + c_string(m, addr, left as nat) == c_string(m, r1, MAX_STRING as nat),
            decreases left,
        {
            proof {
                assert(data@.push(b) + c_string(m, addr_add(addr, 1), (left - 1) as nat) =~= data@
                    + c_string(m, addr, left as nat));
            }
            data.push(b);
            addr = addr.wrapping_add(1);
            left = left - 1;
            b = core.bus.read8(addr);
        }
        proof {
            assert(data@ + c_string(m, addr, left as nat) =~= data@);
        }
        SemihostingCommand::SysWrite0 { data }
    } else if r0 == SYS_EXIT {
        SemihostingCommand::SysExit { reason: r1 }
    } else if r0 == SYS_OPEN {
        let address = read_arg(core, r1, 0);
        let mode = read_arg(core, r1, 1);
        let len = read_arg(core, r1, 2);
        SemihostingCommand::SysOpen { name: read_bytes(core, address, len), mode }
    } else if r0 == SYS_CLOSE {
        SemihostingCommand::SysClose { handle: read_arg(core, r1, 0) }
    } else if r0 == SYS_WRITE {
        let handle = read_arg(core, r1, 0);
        let address = read_arg(core, r1, 1);
        let len = read_arg(core, r1, 2);
        SemihostingCommand::SysWrite { handle, data: read_bytes(core, address, len) }
    } else if r0 == SYS_READ {
        let handle = read_arg(core, r1, 0);
        let address = read_arg(core, r1, 1);
        let len = read_arg(core, r1, 2);
        SemihostingCommand::SysRead { handle, address, len }
    } else if r0 == SYS_ISTTY {
        SemihostingCommand::SysIstty { handle: read_arg(core, r1, 0) }
    } else if r0 == SYS_SEEK {
        let handle = read_arg(core, r1, 0);
        let position = read_arg(core, r1, 1);
        SemihostingCommand::SysSeek { handle, position }
    } else if r0 == SYS_FLEN {
        SemihostingCommand::SysFlen { handle: read_arg(core, r1, 0) }
    } else if r0 == SYS_TIME {
        SemihostingCommand::SysTime
    } else {
        SemihostingCommand::Other { op: r0, arg: r1 }
    }
}

/// The state after the host's answer is written back.
pub open spec fn semihost_return_spec(s: CoreState, response: SemihostingResponse) -> CoreState {
    match response {
        SemihostingResponse::Done { r0 } => s.set_r(Reg::R0, r0),
        SemihostingResponse::Exit => s,
        SemihostingResponse::Unsupported => s.set_r(Reg::R0, 0xFFFF_FFFF),
    }
}

/// Writes the host's answer back into the core.
pub fn semihost_return<B: Bus>(core: &mut Core<B>, response: &SemihostingResponse)
    requires
        old(core).wf(),
    ensures
        final(core).wf(),
        final(core)@ == semihost_return_spec(old(core)@, *response),
{
    match response {
        SemihostingResponse::Done { r0 } => core.set_r(&Reg::R0, *r0),
        SemihostingResponse::Exit => {},
        SemihostingResponse::Unsupported => core.set_r(&Reg::R0, 0xFFFF_FFFF),
    }
}

} // verus!
