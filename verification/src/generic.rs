//! Generic identifier read: cards outside the FeliCa family get a single
//! standard "get data" command; the response must end in the success status
//! word, and the identifier is everything before it. No retry on this path.

use vstd::prelude::*;

verus! {

/// The standard "get data" command, sent once.
pub open spec fn generic_read_command_spec() -> Seq<u8> {
    seq![0xFFu8, 0xCA, 0x00, 0x00, 0x00]
}

/// The "get data" command as a byte vector.
pub fn generic_read_command() -> (c: Vec<u8>)
    ensures
        c@ == generic_read_command_spec(),
{
    let mut c: Vec<u8> = Vec::new();
    c.push(0xFF);
    c.push(0xCA);
    c.push(0x00);
    c.push(0x00);
    c.push(0x00);
    proof {
        assert(c@ =~= generic_read_command_spec());
    }
    c
}

/// A generic read response is accepted exactly when it is at least 2 bytes
/// long and its last two bytes are the success status word `90 00`.
pub open spec fn generic_response_ok(r: Seq<u8>) -> bool {
    r.len() >= 2 && r[r.len() - 2] == 0x90 && r[r.len() - 1] == 0x00
}

/// The identifier carried by an accepted generic read response: everything
/// before the trailing status word.
pub open spec fn generic_id_spec(r: Seq<u8>) -> Seq<u8> {
    r.subrange(0, r.len() - 2)
}

/// Parses one generic read response: `Some` exactly when the response ends
/// in the success status word, and then the identifier is the response minus
/// its last two bytes. Any other status word is rejected.
pub fn parse_generic_response(resp: &[u8]) -> (r: Option<Vec<u8>>)
    ensures
        r is Some <==> generic_response_ok(resp@),
        r is Some ==> r->Some_0@ == generic_id_spec(resp@),
{
    if resp.len() < 2 {
        return None;
    }
    if resp[resp.len() - 2] != 0x90 || resp[resp.len() - 1] != 0x00 {
        return None;
    }
    let end: usize = resp.len() - 2;
    let mut id: Vec<u8> = Vec::new();
    let mut i: usize = 0;
    while i < end
        invariant
            i <= end,
            end == resp@.len() - 2,
            resp@.len() >= 2,
            id@ == resp@.subrange(0, i as int),
        decreases end - i,
    {
        id.push(resp[i]);
        proof {
            assert(resp@.subrange(0, i + 1) =~= resp@.subrange(0, i as int).push(resp@[i as int]));
        }
        i += 1;
    }
    Some(id)
}

} // verus!
