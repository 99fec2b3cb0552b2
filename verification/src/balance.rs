//! Balance extraction: four e-money schemes are probed in a fixed cycle —
//! suica, edy, nanaco, waon — for up to ten rounds, each probe a "read
//! without encryption" pseudo-APDU built from the card identifier and the
//! scheme's service-code entry. The first response of exactly 31 bytes ending
//! in the success status word yields the balance, decoded little-endian at a
//! scheme-specific offset.

use vstd::prelude::*;

verus! {

/// An e-money scheme whose balance record is probed.
#[derive(Clone, Copy, PartialEq, Eq, Structural, Debug)]
pub enum Scheme {
    Suica,
    Edy,
    Nanaco,
    Waon,
}

/// Schemes probed per round, in the fixed order suica, edy, nanaco, waon.
pub const SCHEMES_PER_ROUND: u8 = 4;

/// Rounds before balance extraction is given up.
pub const BALANCE_ROUNDS: u8 = 10;

/// Total read attempts in the balance-extraction schedule.
pub const BALANCE_ATTEMPTS: u8 = BALANCE_ROUNDS * SCHEMES_PER_ROUND;

impl Scheme {
    /// Output name of the scheme, used verbatim in the result record.
    pub open spec fn name_spec(self) -> Seq<char> {
        match self {
            Scheme::Suica => "suica"@,
            Scheme::Edy => "edy"@,
            Scheme::Nanaco => "nanaco"@,
            Scheme::Waon => "waon"@,
        }
    }

    /// Output name of the scheme as a string slice.
    pub fn name(&self) -> (r: &'static str)
        ensures
            r@ == self.name_spec(),
    {
        match self {
            Scheme::Suica => "suica",
            Scheme::Edy => "edy",
            Scheme::Nanaco => "nanaco",
            Scheme::Waon => "waon",
        }
    }

    /// The scheme's 3-byte service-code entry as it stands in the read
    /// command: block-list marker `1`, then the 2-byte service code
    /// little-endian.
    pub open spec fn service_entry_spec(self) -> Seq<u8> {
        match self {
            Scheme::Suica => seq![1u8, 0x0F, 0x09],
            Scheme::Edy => seq![1u8, 0x0F, 0x17],
            Scheme::Nanaco => seq![1u8, 0x97, 0x55],
            Scheme::Waon => seq![1u8, 0x17, 0x68],
        }
    }

    /// The service-code entry as a byte vector.
    pub fn service_entry(&self) -> (r: Vec<u8>)
        ensures
            r@ == self.service_entry_spec(),
            r@.len() == 3,
    {
        let mut r: Vec<u8> = Vec::new();
        r.push(1);
        match self {
            Scheme::Suica => {
                r.push(0x0F);
                r.push(0x09);
            },
            Scheme::Edy => {
                r.push(0x0F);
                r.push(0x17);
            },
            Scheme::Nanaco => {
                r.push(0x97);
                r.push(0x55);
            },
            Scheme::Waon => {
                r.push(0x17);
                r.push(0x68);
            },
        }
        proof {
            assert(r@ =~= self.service_entry_spec());
        }
        r
    }

    /// Byte offset within the returned data block at which the 2-byte
    /// little-endian balance sits: `0x0E` for suica and edy, `0x00` for
    /// nanaco and waon. The asymmetry follows the vendors' block layouts and
    /// is load-bearing compatibility data.
    pub open spec fn amount_offset_spec(self) -> int {
        match self {
            Scheme::Suica => 0x0E,
            Scheme::Edy => 0x0E,
            Scheme::Nanaco => 0x00,
            Scheme::Waon => 0x00,
        }
    }

    /// The balance offset as a usize.
    pub fn amount_offset(&self) -> (r: usize)
        ensures
            r as int == self.amount_offset_spec(),
    {
        match self {
            Scheme::Suica => 0x0E,
            Scheme::Edy => 0x0E,
            Scheme::Nanaco => 0x00,
            Scheme::Waon => 0x00,
        }
    }
}

/// Scheme probed at attempt `k` of the schedule: the fixed cycle suica, edy,
/// nanaco, waon.
pub open spec fn scheme_at(k: int) -> Scheme {
    if k % 4 == 0 {
        Scheme::Suica
    } else if k % 4 == 1 {
        Scheme::Edy
    } else if k % 4 == 2 {
        Scheme::Nanaco
    } else {
        Scheme::Waon
    }
}

/// Law: the probing schedule is the fixed cycle suica, edy, nanaco, waon,
/// repeated unchanged round after round.
pub proof fn lemma_scheme_cycle(k: int)
    requires
        0 <= k,
    ensures
        scheme_at(0) == Scheme::Suica,
        scheme_at(1) == Scheme::Edy,
        scheme_at(2) == Scheme::Nanaco,
        scheme_at(3) == Scheme::Waon,
        scheme_at(k + 4) == scheme_at(k),
{
}

/// Payload of the "read without encryption" command: opcode `0x06`, the card
/// identifier, the service-code entry, and the fixed block-list trailer.
pub open spec fn felica_read_payload_spec(id: Seq<u8>, entry: Seq<u8>) -> Seq<u8> {
    seq![0x06u8] + id + entry + seq![1u8, 0x80, 0x00]
}

/// The full command: pseudo-APDU header `FF AB 00 00`, the payload length,
/// then the payload.
pub open spec fn felica_read_command_spec(id: Seq<u8>, entry: Seq<u8>) -> Seq<u8> {
    seq![0xFFu8, 0xAB, 0x00, 0x00, felica_read_payload_spec(id, entry).len() as u8]
        + felica_read_payload_spec(id, entry)
}

/// Builds the read command for an 8-byte card identifier and a 3-byte
/// service-code entry.
pub fn felica_read_command(id: &Vec<u8>, service_entry: &Vec<u8>) -> (r: Vec<u8>)
    requires
        id@.len() == 8,
        service_entry@.len() == 3,
    ensures
        r@ == felica_read_command_spec(id@, service_entry@),
        r@.len() == 20,
{
    let mut r: Vec<u8> = Vec::new();
    r.push(0xFF);
    r.push(0xAB);
    r.push(0x00);
    r.push(0x00);
    let payload_len: usize = 1 + id.len() + service_entry.len() + 3;
    r.push(payload_len as u8);
    r.push(0x06);
    let mut i: usize = 0;
    while i < id.len()
        invariant
            i <= id@.len(),
            id@.len() == 8,
            r@ == seq![0xFFu8, 0xAB, 0x00, 0x00, 15u8, 0x06] + id@.subrange(0, i as int),
        decreases id@.len() - i,
    {
        r.push(id[i]);
        proof {
            assert(id@.subrange(0, i + 1) =~= id@.subrange(0, i as int).push(id@[i as int]));
        }
        i += 1;
    }
    let mut j: usize = 0;
    while j < service_entry.len()
        invariant
            j <= service_entry@.len(),
            id@.len() == 8,
            service_entry@.len() == 3,
            r@ == seq![0xFFu8, 0xAB, 0x00, 0x00, 15u8, 0x06] + id@
                + service_entry@.subrange(0, j as int),
        decreases service_entry@.len() - j,
    {
        r.push(service_entry[j]);
        proof {
            assert(service_entry@.subrange(0, j + 1)
                =~= service_entry@.subrange(0, j as int).push(service_entry@[j as int]));
        }
        j += 1;
    }
    r.push(1);
    r.push(0x80);
    r.push(0x00);
    proof {
        assert(id@.subrange(0, 8) =~= id@);
        assert(service_entry@.subrange(0, 3) =~= service_entry@);
        assert(r@ =~= felica_read_command_spec(id@, service_entry@));
    }
    r
}

/// A read response is accepted exactly when it is 31 bytes long and its last
/// two bytes are the success status word `90 00`.
pub open spec fn read_block_ok(r: Seq<u8>) -> bool {
    r.len() == 31 && r[29] == 0x90 && r[30] == 0x00
}

/// Validates one read response: length 31 and trailing status word `90 00`.
/// Any other shape means "service code not present on this card".
pub fn read_block_result_is_valid(result: &[u8]) -> (r: bool)
    ensures
        r == read_block_ok(result@),
{
    result.len() == 31 && result[29] == 0x90 && result[30] == 0x00
}

/// The balance carried by an accepted read response: little-endian 16-bit
/// value at the scheme's offset into the data block, which starts at byte 13.
pub open spec fn amount_spec(r: Seq<u8>, scheme: Scheme) -> int {
    r[13 + scheme.amount_offset_spec()] + 256 * r[13 + scheme.amount_offset_spec() + 1]
}

/// Decodes the balance from an accepted read response.
pub fn decode_amount(result: &[u8], scheme: Scheme) -> (r: i32)
    requires
        read_block_ok(result@),
    ensures
        r as int == amount_spec(result@, scheme),
        0 <= r <= 0xFFFF,
{
    let off: usize = scheme.amount_offset();
    let low = result[13 + off] as i32;
    let high = result[13 + off + 1] as i32;
    low + 256 * high
}

/// Position in the bounded balance-extraction schedule: `attempt` counts the
/// read attempts already made, so the scheme probed next is
/// `scheme_at(attempt)`.
#[derive(Clone, Copy, PartialEq, Eq, Structural, Debug)]
pub struct BalanceSession {
    pub attempt: u8,
}

/// What the balance-extraction protocol does after one response.
pub enum BalanceStep {
    /// An accepted response: this scheme's balance was read.
    Accepted { scheme: Scheme, amount: i32 },
    /// The response was rejected and attempts remain.
    Retry(BalanceSession),
    /// The response was rejected and the retry budget is spent.
    Exhausted,
}

impl BalanceSession {
    /// A fresh schedule, before the first read; it starts at suica.
    pub fn start() -> (s: Self)
        ensures
            s.attempt == 0,
    {
        BalanceSession { attempt: 0 }
    }

    /// The scheme probed by the next read.
    pub open spec fn scheme_spec(self) -> Scheme {
        scheme_at(self.attempt as int)
    }

    /// The scheme probed by the next read.
    pub fn scheme(&self) -> (r: Scheme)
        ensures
            r == self.scheme_spec(),
    {
        let k = self.attempt % 4;
        if k == 0 {
            Scheme::Suica
        } else if k == 1 {
            Scheme::Edy
        } else if k == 2 {
            Scheme::Nanaco
        } else {
            Scheme::Waon
        }
    }

    /// The read command to transmit next, for this card identifier.
    pub fn command(&self, id: &Vec<u8>) -> (c: Vec<u8>)
        requires
            id@.len() == 8,
        ensures
            c@ == felica_read_command_spec(id@, self.scheme_spec().service_entry_spec()),
    {
        let entry = self.scheme().service_entry();
        felica_read_command(id, &entry)
    }

    /// Advances the schedule on one response. An accepted response wins at
    /// once for the scheme just probed, whatever any other scheme would have
    /// answered; a rejected one consumes one of the 40 attempts.
    pub fn on_response(self, resp: &[u8]) -> (r: BalanceStep)
        ensures
            read_block_ok(resp@) ==> (r matches BalanceStep::Accepted { scheme, amount }
                && scheme == self.scheme_spec()
                && amount as int == amount_spec(resp@, self.scheme_spec())),
            !read_block_ok(resp@) && self.attempt as int + 1 < BALANCE_ATTEMPTS as int
                ==> (r matches BalanceStep::Retry(s) && s.attempt == self.attempt + 1),
            !read_block_ok(resp@) && self.attempt as int + 1 >= BALANCE_ATTEMPTS as int
                ==> r is Exhausted,
    {
        if read_block_result_is_valid(resp) {
            let scheme = self.scheme();
            let amount = decode_amount(resp, scheme);
            BalanceStep::Accepted { scheme, amount }
        } else {
            if self.attempt < BALANCE_ATTEMPTS - 1 {
                BalanceStep::Retry(BalanceSession { attempt: self.attempt + 1 })
            } else {
                BalanceStep::Exhausted
            }
        }
    }
}

} // verus!
