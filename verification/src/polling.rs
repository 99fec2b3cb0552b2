//! Contactless polling handshake: fixed pseudo-APDU polling commands are sent
//! on a bounded schedule — per round two probes of the transportation system
//! code, then one probe of the wildcard code, for up to five rounds — until a
//! response of exactly 22 bytes yields the 8-byte card identifier.

use vstd::prelude::*;

verus! {

/// Which polling system code a response answered to. Carried for diagnostics
/// only: the balance-extraction protocol does not branch on it.
#[derive(Clone, Copy, PartialEq, Eq, Structural, Debug)]
pub enum SystemCodeType {
    Transportation,
    Other,
}

/// Probes of the transportation system code and the wildcard code per round.
pub const SENDS_PER_ROUND: u8 = 3;

/// Rounds before polling is given up.
pub const POLLING_ROUNDS: u8 = 5;

/// Total transmit attempts in the polling schedule.
pub const POLLING_ATTEMPTS: u8 = POLLING_ROUNDS * SENDS_PER_ROUND;

/// Polling command for the transportation system code (`0x0003`).
pub open spec fn transportation_command_spec() -> Seq<u8> {
    seq![0xFFu8, 0xAB, 0x00, 0x00, 0x05, 0x00, 0x00, 0x03, 0x01, 0x00]
}

/// Polling command for the wildcard ("others") system code (`0x00FE`).
pub open spec fn others_command_spec() -> Seq<u8> {
    seq![0xFFu8, 0xAB, 0x00, 0x00, 0x05, 0x00, 0xFE, 0x00, 0x01, 0x00]
}

/// System code probed at attempt `k` of the schedule: the third send of each
/// round targets the wildcard code, the two before it the transportation code.
pub open spec fn polling_system_at(k: int) -> SystemCodeType {
    if k % 3 == 2 {
        SystemCodeType::Other
    } else {
        SystemCodeType::Transportation
    }
}

/// Command bytes sent at attempt `k` of the schedule.
pub open spec fn polling_command_spec(k: int) -> Seq<u8> {
    if polling_system_at(k) == SystemCodeType::Other {
        others_command_spec()
    } else {
        transportation_command_spec()
    }
}

/// A polling response is accepted exactly when it is 22 bytes long.
pub open spec fn polling_response_ok(r: Seq<u8>) -> bool {
    r.len() == 22
}

/// The card identifier carried by an accepted polling response.
pub open spec fn polling_id_spec(r: Seq<u8>) -> Seq<u8> {
    r.subrange(2, 10)
}

/// Accepts a polling response: `Some` exactly when the response is 22 bytes
/// long, and then the identifier is bytes 2 through 9 inclusive. Content is
/// never inspected beyond the length.
pub fn accept_polling_response(resp: &[u8]) -> (r: Option<Vec<u8>>)
    ensures
        r is Some <==> polling_response_ok(resp@),
        r is Some ==> r->Some_0@ == polling_id_spec(resp@) && r->Some_0@.len() == 8,
{
    if resp.len() != 22 {
        return None;
    }
    let mut id: Vec<u8> = Vec::new();
    let mut i: usize = 2;
    while i < 10
        invariant
            2 <= i <= 10,
            resp@.len() == 22,
            id@ == resp@.subrange(2, i as int),
        decreases 10 - i,
    {
        id.push(resp[i]);
        proof {
            assert(resp@.subrange(2, i + 1) =~= resp@.subrange(2, i as int).push(resp@[i as int]));
        }
        i += 1;
    }
    Some(id)
}

/// Position in the bounded polling schedule: `attempt` counts the transmit
/// attempts already made, so the next send is attempt number `attempt`.
#[derive(Clone, Copy, PartialEq, Eq, Structural, Debug)]
pub struct PollingSession {
    pub attempt: u8,
}

/// What the polling protocol does after one response.
pub enum PollingStep {
    /// A 22-byte response arrived: polling succeeded with this identifier.
    Accepted { system: SystemCodeType, id: Vec<u8> },
    /// The response was rejected and attempts remain.
    Retry(PollingSession),
    /// The response was rejected and the retry budget is spent.
    Exhausted,
}

impl PollingSession {
    /// A fresh schedule, before the first send.
    pub fn start() -> (s: Self)
        ensures
            s.attempt == 0,
    {
        PollingSession { attempt: 0 }
    }

    /// The command to transmit next.
    pub fn command(&self) -> (c: Vec<u8>)
        ensures
            c@ == polling_command_spec(self.attempt as int),
    {
        let mut c: Vec<u8> = Vec::new();
        c.push(0xFF);
        c.push(0xAB);
        c.push(0x00);
        c.push(0x00);
        c.push(0x05);
        c.push(0x00);
        if self.attempt % 3 == 2 {
            c.push(0xFE);
            c.push(0x00);
        } else {
            c.push(0x00);
            c.push(0x03);
        }
        c.push(0x01);
        c.push(0x00);
        proof {
            if self.attempt % 3 == 2 {
                assert(c@ =~= others_command_spec());
            } else {
                assert(c@ =~= transportation_command_spec());
            }
        }
        c
    }

    /// Advances the schedule on one response. A 22-byte response is accepted
    /// at once — its system code is the one just probed, its identifier bytes
    /// 2 through 9 — whatever earlier or later responses hold; any other
    /// response consumes one of the 15 attempts.
    pub fn on_response(self, resp: &[u8]) -> (r: PollingStep)
        ensures
            polling_response_ok(resp@) ==> (r matches PollingStep::Accepted { system, id }
                && system == polling_system_at(self.attempt as int)
                && id@ == polling_id_spec(resp@)),
            !polling_response_ok(resp@) && self.attempt as int + 1 < POLLING_ATTEMPTS as int
                ==> (r matches PollingStep::Retry(s) && s.attempt == self.attempt + 1),
            !polling_response_ok(resp@) && self.attempt as int + 1 >= POLLING_ATTEMPTS as int
                ==> r is Exhausted,
    {
        match accept_polling_response(resp) {
            Some(id) => {
                let system = if self.attempt % 3 == 2 {
                    SystemCodeType::Other
                } else {
                    SystemCodeType::Transportation
                };
                PollingStep::Accepted { system, id }
            },
            None => {
                if self.attempt < POLLING_ATTEMPTS - 1 {
                    PollingStep::Retry(PollingSession { attempt: self.attempt + 1 })
                } else {
                    PollingStep::Exhausted
                }
            },
        }
    }
}

} // verus!
