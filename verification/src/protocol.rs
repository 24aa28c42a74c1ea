//! Wire protocol: command opcodes, reply codes, and the fixed 5-byte
//! read-command frame `[opcode][start_lo][start_hi][end_lo][end_hi]`
//! with addresses encoded little-endian.

use vstd::prelude::*;

verus! {

/// Commands the device understands. Only `Read` has an encoding and an
/// execution path today; the others reserve their opcodes.
#[derive(Debug, Clone, Copy, PartialEq, Eq, Structural)]
pub enum Cmd {
    Read,
    Write,
    WriteRaw,
    WriteFlash,
    Erase,
}

/// Reply codes the device may send. Reserved vocabulary: the current
/// read path consumes no acknowledgement byte.
#[derive(Debug, Clone, Copy, PartialEq, Eq, Structural)]
pub enum ReplyCmd {
    Ack,
    Nack,
}

/// Opcode byte of a command.
pub open spec fn opcode_spec(c: Cmd) -> u8 {
    match c {
        Cmd::Read => 0,
        Cmd::Write => 1,
        Cmd::WriteRaw => 2,
        Cmd::WriteFlash => 3,
        Cmd::Erase => 4,
    }
}

/// Opcode byte of a command.
pub fn opcode(c: &Cmd) -> (r: u8)
    ensures
        r == opcode_spec(*c),
{
    match c {
        Cmd::Read => 0,
        Cmd::Write => 1,
        Cmd::WriteRaw => 2,
        Cmd::WriteFlash => 3,
        Cmd::Erase => 4,
    }
}

/// The command an opcode byte names, if any.
pub open spec fn cmd_from_opcode_spec(b: u8) -> Option<Cmd> {
    if b == 0 {
        Some(Cmd::Read)
    } else if b == 1 {
        Some(Cmd::Write)
    } else if b == 2 {
        Some(Cmd::WriteRaw)
    } else if b == 3 {
        Some(Cmd::WriteFlash)
    } else if b == 4 {
        Some(Cmd::Erase)
    } else {
        None
    }
}

/// The command an opcode byte names, if any.
pub fn cmd_from_opcode(b: u8) -> (r: Option<Cmd>)
    ensures
        r == cmd_from_opcode_spec(b),
{
    if b == 0 {
        Some(Cmd::Read)
    } else if b == 1 {
        Some(Cmd::Write)
    } else if b == 2 {
        Some(Cmd::WriteRaw)
    } else if b == 3 {
        Some(Cmd::WriteFlash)
    } else if b == 4 {
        Some(Cmd::Erase)
    } else {
        None
    }
}

/// Every command's opcode decodes back to the command itself.
pub proof fn lemma_opcode_round_trip(c: Cmd)
    ensures
        cmd_from_opcode_spec(opcode_spec(c)) == Some(c),
{
}

/// Code byte of a reply.
pub open spec fn reply_code_spec(r: ReplyCmd) -> u8 {
    match r {
        ReplyCmd::Ack => 0,
        ReplyCmd::Nack => 1,
    }
}

/// The reply a code byte names, if any.
pub open spec fn reply_from_code_spec(b: u8) -> Option<ReplyCmd> {
    if b == 0 {
        Some(ReplyCmd::Ack)
    } else if b == 1 {
        Some(ReplyCmd::Nack)
    } else {
        None
    }
}

/// The reply a code byte names, if any.
pub fn reply_from_code(b: u8) -> (r: Option<ReplyCmd>)
    ensures
        r == reply_from_code_spec(b),
{
    if b == 0 {
        Some(ReplyCmd::Ack)
    } else if b == 1 {
        Some(ReplyCmd::Nack)
    } else {
        None
    }
}

/// The fixed 5-byte frame of a read command for the half-open address
/// window `[addr_start, addr_end)`.
pub open spec fn read_frame_spec(addr_start: u16, addr_end: u16) -> Seq<u8> {
    seq![
        opcode_spec(Cmd::Read),
        (addr_start % 256) as u8,
        (addr_start / 256) as u8,
        (addr_end % 256) as u8,
        (addr_end / 256) as u8,
    ]
}

/// Encode a read command for the window `[addr_start, addr_end)` as its
/// 5-byte frame.
pub fn cmd_read(addr_start: u16, addr_end: u16) -> (r: Vec<u8>)
    requires
        addr_start < addr_end,
    ensures
        r@ == read_frame_spec(addr_start, addr_end),
        r@.len() == 5,
{
    let addr_start_lo = (addr_start & 0xff) as u8;
    let addr_start_hi = ((addr_start & 0xff00) >> 8) as u8;
    let addr_end_lo = (addr_end & 0xff) as u8;
    let addr_end_hi = ((addr_end & 0xff00) >> 8) as u8;
    proof {
        assert((addr_start & 0xff) == addr_start % 256) by (bit_vector);
        assert(((addr_start & 0xff00) >> 8) == addr_start / 256) by (bit_vector);
        assert((addr_end & 0xff) == addr_end % 256) by (bit_vector);
        assert(((addr_end & 0xff00) >> 8) == addr_end / 256) by (bit_vector);
    }
    let mut r: Vec<u8> = Vec::new();
    r.push(0);
    r.push(addr_start_lo);
    r.push(addr_start_hi);
    r.push(addr_end_lo);
    r.push(addr_end_hi);
    proof {
        assert(r@ =~= read_frame_spec(addr_start, addr_end));
    }
    r
}

/// The address window a well-formed read frame carries: `Some((start, end))`
/// exactly when the frame is 5 bytes long and opens with the read opcode.
pub open spec fn decode_read_frame_spec(f: Seq<u8>) -> Option<(u16, u16)> {
    if f.len() == 5 && f[0] == opcode_spec(Cmd::Read) {
        Some(((f[1] + 256 * f[2]) as u16, (f[3] + 256 * f[4]) as u16))
    } else {
        None
    }
}

/// Decode a 5-byte read frame back into its address window.
pub fn decode_read_frame(frame: &Vec<u8>) -> (r: Option<(u16, u16)>)
    ensures
        r == decode_read_frame_spec(frame@),
{
    if frame.len() == 5 && frame[0] == 0 {
        let start: u16 = frame[1] as u16 + 256 * (frame[2] as u16);
        let end: u16 = frame[3] as u16 + 256 * (frame[4] as u16);
        Some((start, end))
    } else {
        None
    }
}

/// Round trip: encoding a read command for any valid window and decoding
/// the frame yields the same window back, and the frame is 5 bytes long.
pub proof fn lemma_read_frame_round_trip(addr_start: u16, addr_end: u16)
    requires
        addr_start < addr_end,
    ensures
        read_frame_spec(addr_start, addr_end).len() == 5,
        decode_read_frame_spec(read_frame_spec(addr_start, addr_end)) == Some((
            addr_start,
            addr_end,
        )),
{
    assert(addr_start % 256 + 256 * (addr_start / 256) == addr_start);
    assert(addr_end % 256 + 256 * (addr_end / 256) == addr_end);
}

} // verus!
