//! Detection driver: once a card is connected and its ATR observed, the
//! driver walks the protocol for that card — polling then balance extraction
//! for the FeliCa family, a single generic read otherwise — handing out the
//! next command buffer and consuming one response at a time, until it yields
//! the single result record or fails. The caller owns the transport: it
//! transmits each command and feeds back the response.

use vstd::prelude::*;

use crate::atr::{classify_atr, felica_atr_spec, CardFamily};
use crate::balance::{
    amount_spec, felica_read_command_spec, read_block_ok, BalanceSession, BalanceStep, Scheme,
    BALANCE_ATTEMPTS,
};
use crate::generic::{
    generic_id_spec, generic_read_command, generic_read_command_spec, generic_response_ok,
    parse_generic_response,
};
use crate::polling::{
    polling_command_spec, polling_id_spec, polling_response_ok, PollingSession, PollingStep,
    POLLING_ATTEMPTS,
};

verus! {

/// The single result record of a probe.
pub enum CardInfo {
    /// A card outside the FeliCa family: identifier and ATR.
    General { id: Vec<u8>, attr: Vec<u8> },
    /// A FeliCa-family card: identifier, ATR, balance, and the e-money
    /// scheme whose read succeeded.
    Felica { id: Vec<u8>, attr: Vec<u8>, amount: i32, emoney: Scheme },
}

impl CardInfo {
    /// The discriminant tag of the emitted record. The `"falica"` spelling
    /// is part of the existing output contract and is kept bit-for-bit.
    pub fn type_tag(&self) -> (r: &'static str)
        ensures
            self is General ==> r@ == "general"@,
            self is Felica ==> r@ == "falica"@,
    {
        match self {
            CardInfo::General { .. } => "general",
            CardInfo::Felica { .. } => "falica",
        }
    }
}

/// Which protocol step the driver is in.
pub enum Phase {
    /// Polling a FeliCa-family card for its identifier.
    FelicaPolling { session: PollingSession },
    /// Probing e-money service codes for a balance.
    BalanceProbing { id: Vec<u8>, session: BalanceSession },
    /// Awaiting the single generic read response.
    GenericReading,
}

/// What the driver does after one response.
pub enum DriverStep {
    /// More to do: transmit `Continue`'s next command.
    Continue(Driver),
    /// The probe succeeded with this result record.
    Done(CardInfo),
    /// The probe failed; the session is over.
    Failed,
}

/// The detection driver for one connected card.
pub struct Driver {
    /// The ATR observed at detection, carried into the result record.
    pub attr: Vec<u8>,
    /// The current protocol step.
    pub phase: Phase,
}

impl Driver {
    /// Well-formedness: a balance probe always holds the 8-byte identifier
    /// that polling produced. Established by `start`, preserved by
    /// `on_response`.
    pub open spec fn wf(self) -> bool {
        match self.phase {
            Phase::BalanceProbing { id, .. } => id@.len() == 8,
            _ => true,
        }
    }

    /// Runtime check of `wf`, for callers outside verified code.
    pub fn is_wf(&self) -> (r: bool)
        ensures
            r == self.wf(),
    {
        match &self.phase {
            Phase::BalanceProbing { id, .. } => id.len() == 8,
            _ => true,
        }
    }

    /// Starts the probe for a card with this ATR: classification picks the
    /// path. A FeliCa-family card enters the polling handshake; every other
    /// card gets the single generic read.
    pub fn start(attr: Vec<u8>) -> (d: Driver)
        ensures
            d.wf(),
            d.attr@ == attr@,
            attr@ == felica_atr_spec() ==> (d.phase matches Phase::FelicaPolling { session }
                && session.attempt == 0),
            attr@ != felica_atr_spec() ==> d.phase is GenericReading,
    {
        match classify_atr(attr.as_slice()) {
            CardFamily::Felica => Driver {
                attr,
                phase: Phase::FelicaPolling { session: PollingSession::start() },
            },
            CardFamily::Generic => Driver { attr, phase: Phase::GenericReading },
        }
    }

    /// The command buffer to transmit next.
    pub fn command(&self) -> (c: Vec<u8>)
        requires
            self.wf(),
        ensures
            self.phase matches Phase::FelicaPolling { session }
                ==> c@ == polling_command_spec(session.attempt as int),
            self.phase matches Phase::BalanceProbing { id, session }
                ==> c@ == felica_read_command_spec(
                    id@,
                    session.scheme_spec().service_entry_spec(),
                ),
            self.phase is GenericReading ==> c@ == generic_read_command_spec(),
    {
        match &self.phase {
            Phase::FelicaPolling { session } => session.command(),
            Phase::BalanceProbing { id, session } => session.command(id),
            Phase::GenericReading => generic_read_command(),
        }
    }

    /// Consumes one response and moves the probe forward:
    /// - polling: an accepted response carries the identifier into balance
    ///   probing; a rejected one retries until the 15 attempts are spent,
    ///   which fails the session;
    /// - balance probing: an accepted response ends the probe with the
    ///   scheme just probed and its decoded balance; a rejected one retries
    ///   until the 40 attempts are spent, which fails the session;
    /// - generic read: a response with a good status word ends the probe
    ///   with the identifier; anything else fails the session at once.
    pub fn on_response(self, resp: &[u8]) -> (r: DriverStep)
        requires
            self.wf(),
        ensures
            self.phase matches Phase::FelicaPolling { session } ==> (
                (polling_response_ok(resp@) ==> (r matches DriverStep::Continue(d)
                    && d.wf()
                    && d.attr@ == self.attr@
                    && (d.phase matches Phase::BalanceProbing { id, session: bal }
                        && id@ == polling_id_spec(resp@)
                        && bal.attempt == 0)))
                && (!polling_response_ok(resp@) && session.attempt as int + 1 < POLLING_ATTEMPTS as int
                    ==> (r matches DriverStep::Continue(d)
                        && d.wf()
                        && d.attr@ == self.attr@
                        && (d.phase matches Phase::FelicaPolling { session: next }
                            && next.attempt == session.attempt + 1)))
                && (!polling_response_ok(resp@) && session.attempt as int + 1 >= POLLING_ATTEMPTS as int
                    ==> r is Failed)
            ),
            self.phase matches Phase::BalanceProbing { id, session } ==> (
                (read_block_ok(resp@) ==> (r matches DriverStep::Done(info)
                    && (info matches CardInfo::Felica { id: rid, attr, amount, emoney }
                        && rid@ == id@
                        && attr@ == self.attr@
                        && amount as int == amount_spec(resp@, session.scheme_spec())
                        && emoney == session.scheme_spec())))
                && (!read_block_ok(resp@) && session.attempt as int + 1 < BALANCE_ATTEMPTS as int
                    ==> (r matches DriverStep::Continue(d)
                        && d.wf()
                        && d.attr@ == self.attr@
                        && (d.phase matches Phase::BalanceProbing { id: nid, session: next }
                            && nid@ == id@
                            && next.attempt == session.attempt + 1)))
                && (!read_block_ok(resp@) && session.attempt as int + 1 >= BALANCE_ATTEMPTS as int
                    ==> r is Failed)
            ),
            self.phase is GenericReading ==> (
                (generic_response_ok(resp@) ==> (r matches DriverStep::Done(info)
                    && (info matches CardInfo::General { id, attr }
                        && id@ == generic_id_spec(resp@)
                        && attr@ == self.attr@)))
                && (!generic_response_ok(resp@) ==> r is Failed)
            ),
    {
        match self.phase {
            Phase::FelicaPolling { session } => match session.on_response(resp) {
                PollingStep::Accepted { system: _, id } => DriverStep::Continue(Driver {
                    attr: self.attr,
                    phase: Phase::BalanceProbing { id, session: BalanceSession::start() },
                }),
                PollingStep::Retry(next) => DriverStep::Continue(Driver {
                    attr: self.attr,
                    phase: Phase::FelicaPolling { session: next },
                }),
                PollingStep::Exhausted => DriverStep::Failed,
            },
            Phase::BalanceProbing { id, session } => match session.on_response(resp) {
                BalanceStep::Accepted { scheme, amount } => DriverStep::Done(CardInfo::Felica {
                    id,
                    attr: self.attr,
                    amount,
                    emoney: scheme,
                }),
                BalanceStep::Retry(next) => DriverStep::Continue(Driver {
                    attr: self.attr,
                    phase: Phase::BalanceProbing { id, session: next },
                }),
                BalanceStep::Exhausted => DriverStep::Failed,
            },
            Phase::GenericReading => match parse_generic_response(resp) {
                Some(id) => DriverStep::Done(CardInfo::General { id, attr: self.attr }),
                None => DriverStep::Failed,
            },
        }
    }
}

/// How the transport's connect attempt ended, as the caller observed it.
pub enum ConnectOutcome {
    /// The connection is open.
    Connected,
    /// The card vanished between detection and connect.
    NoCard,
    /// Any other connect failure.
    Error,
}

/// What the driver does with a connect outcome.
pub enum ConnectDecision {
    /// Go on and probe the card.
    Proceed,
    /// Terminate silently with success: nothing is left to read.
    ExitQuietly,
    /// Terminate with a diagnostic and a failure status.
    Abort,
}

/// Decides the connect outcome: a card that vanished between detection and
/// connect is a benign, silent success; any other connect failure is fatal.
pub fn on_connect(outcome: &ConnectOutcome) -> (r: ConnectDecision)
    ensures
        outcome is Connected <==> r is Proceed,
        outcome is NoCard <==> r is ExitQuietly,
        outcome is Error <==> r is Abort,
{
    match outcome {
        ConnectOutcome::Connected => ConnectDecision::Proceed,
        ConnectOutcome::NoCard => ConnectDecision::ExitQuietly,
        ConnectOutcome::Error => ConnectDecision::Abort,
    }
}

/// How the whole probe ended.
pub enum ProbeOutcome {
    /// The result record was emitted.
    Emitted,
    /// The benign card-removal race: nothing was read, nothing emitted.
    CardVanished,
    /// A fatal failure on any path.
    Fatal,
}

/// Exit status policy: success and the benign card-removal race exit 0,
/// every fatal failure exits 1.
pub fn exit_code(outcome: &ProbeOutcome) -> (r: i32)
    ensures
        r == 0 <==> !(outcome is Fatal),
        outcome is Fatal <==> r == 1,
{
    match outcome {
        ProbeOutcome::Emitted => 0,
        ProbeOutcome::CardVanished => 0,
        ProbeOutcome::Fatal => 1,
    }
}

} // verus!
