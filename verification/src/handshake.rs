//! Handshake: after a board reset the device may emit arbitrary
//! line-delimited noise; the host discards every line until one exactly
//! equals the synchronization token line.

use vstd::prelude::*;

verus! {

/// The synchronization token line, `HELLO` followed by the newline
/// delimiter, byte for byte.
pub open spec fn hello_line() -> Seq<u8> {
    seq![72u8, 69u8, 76u8, 76u8, 79u8, 10u8]
}

/// Whether one received line is exactly the token line. No partial
/// match counts: any other line is opaque noise.
pub fn is_hello_line(line: &Vec<u8>) -> (r: bool)
    ensures
        r == (line@ == hello_line()),
{
    if line.len() != 6 {
        return false;
    }
    let r = line[0] == 72 && line[1] == 69 && line[2] == 76 && line[3] == 76 && line[4] == 79
        && line[5] == 10;
    proof {
        if r {
            assert(line@ =~= hello_line());
        } else {
            assert(line@ != hello_line());
        }
    }
    r
}

} // verus!
