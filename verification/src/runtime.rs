//! What the program asks the runtime for: the clock and the rent parameters.

use vstd::prelude::*;

use anchor_lang::prelude::{Clock, ProgramError, Rent, SolanaSysvar};

use crate::error::{Error, VeritaError};
use crate::rent::{minimum_balance_of, rent_rates, RentRates, ACCOUNT_STORAGE_OVERHEAD};

verus! {

/// The runtime's own error type; the library only sees that there is one.
#[verifier::external_type_specification]
#[verifier::external_body]
pub struct ExProgramError(ProgramError);

/// `Clock::get` followed by a read of `unix_timestamp`. The time is the runtime's
/// own, so nothing is claimed of it but that this is what the runtime answered; outside
/// the runtime the call fails.
#[verifier::external_body]
fn clock_sysvar() -> (now: Result<i64, ProgramError>)
    ensures
        crate::provenance::clock_answered(now),
{
    match Clock::get() {
        Ok(clock) => Ok(clock.unix_timestamp),
        Err(e) => Err(e),
    }
}

/// `Rent::get`. The parameters are the cluster's own, so nothing is claimed of them but
/// that this is what the runtime answered; outside the runtime the call fails.
#[verifier::external_body]
fn rent_sysvar() -> (rent: Result<Rent, ProgramError>)
    ensures
        crate::provenance::rent_answered(rent),
{
    Rent::get()
}

/// Rent-exempt minimum of an account with `data_len` bytes under the given rates.
pub open spec fn rent_minimum(
    lamports_per_byte_year: u64,
    exemption_threshold_bits: u64,
    data_len: usize,
) -> Result<u64, Error> {
    if crate::rent::rent_product_fits(lamports_per_byte_year, data_len) {
        Ok(
            crate::rent::rent_minimum_balance(
                lamports_per_byte_year,
                exemption_threshold_bits,
                data_len,
            ),
        )
    } else {
        Err(Error::Verita(VeritaError::MathOverflow))
    }
}

impl RentRates {
    /// Rent-exempt minimum of an account with `data_len` bytes.
    pub fn minimum_balance(&self, data_len: usize) -> (lamports: Result<u64, Error>)
        ensures
            lamports == rent_minimum(
                self.lamports_per_byte_year(),
                self.exemption_threshold_bits(),
                data_len,
            ),
    {
        match ACCOUNT_STORAGE_OVERHEAD.checked_add(data_len as u64) {
            None => Err(Error::Verita(VeritaError::MathOverflow)),
            Some(charged) => match charged.checked_mul(self.rate()) {
                None => Err(Error::Verita(VeritaError::MathOverflow)),
                Some(_) => Ok(minimum_balance_of(self, data_len)),
            },
        }
    }
}

/// Time that a given answer of the runtime to a request for its clock comes to.
pub open spec fn clock_time(clock: Result<i64, ProgramError>) -> Result<i64, Error> {
    match clock {
        Ok(now) => Ok(now),
        Err(_) => Err(Error::UnsupportedSysvar),
    }
}

/// `now` is what the runtime's answer to a request for its clock comes to.
pub open spec fn clock_reply(now: Result<i64, Error>) -> bool {
    exists|clock: Result<i64, ProgramError>|
        {
            &&& #[trigger] crate::provenance::clock_answered(clock)
            &&& now == clock_time(clock)
        }
}

/// Rent-exempt minimum of an account that a given answer of the runtime to a request for
/// its rent parameters comes to, where `rates` are the rates of those parameters.
pub open spec fn rent_of_answer(
    answer: Result<Rent, ProgramError>,
    rates: RentRates,
    data_len: usize,
) -> Result<u64, Error> {
    match answer {
        Ok(_) => rent_minimum(
            rates.lamports_per_byte_year(),
            rates.exemption_threshold_bits(),
            data_len,
        ),
        Err(_) => Err(Error::UnsupportedSysvar),
    }
}

/// `rent` is what the runtime's answer to a request for its rent parameters comes to, for
/// an account with `data_len` bytes.
pub open spec fn rent_reply(data_len: usize, rent: Result<u64, Error>) -> bool {
    exists|answer: Result<Rent, ProgramError>, rates: RentRates|
        {
            &&& crate::provenance::rent_answered(answer)
            &&& answer is Ok ==> rates.sysvar() == answer->Ok_0
            &&& rent == #[trigger] rent_of_answer(answer, rates, data_len)
        }
}

/// The time, in seconds since the Unix epoch, from the runtime's answer to a request for
/// its clock. The runtime reports every failure of that request as an unsupported
/// sysvar.
pub fn unix_timestamp_from(clock: Result<i64, ProgramError>) -> (now: Result<i64, Error>)
    ensures
        now == clock_time(clock),
        clock matches Ok(t) ==> now == Ok::<i64, Error>(t),
{
    match clock {
        Ok(now) => Ok(now),
        Err(_) => Err(Error::UnsupportedSysvar),
    }
}

/// The runtime's time, in seconds since the Unix epoch. Which time that is rests with the
/// runtime; `unix_timestamp_from` says what each of its answers comes to.
pub fn unix_timestamp() -> (now: Result<i64, Error>)
    ensures
        clock_reply(now),
{
    unix_timestamp_from(clock_sysvar())
}

/// The rates of the given rent parameters.
pub fn rates_of(rent: Rent) -> (rates: RentRates)
    ensures
        rates.sysvar() == rent,
{
    rent_rates(rent)
}

/// Rent-exempt minimum of an account with `data_len` bytes, from the rates that the
/// runtime answers a request for its rent parameters with. The runtime reports every
/// failure of that request as an unsupported sysvar.
pub fn rent_minimum_from(rates: Result<RentRates, ProgramError>, data_len: usize) -> (lamports:
    Result<u64, Error>)
    ensures
        lamports == (match rates {
            Ok(r) => rent_minimum(
                r.lamports_per_byte_year(),
                r.exemption_threshold_bits(),
                data_len,
            ),
            Err(_) => Err(Error::UnsupportedSysvar),
        }),
{
    match rates {
        Ok(rates) => rates.minimum_balance(data_len),
        Err(_) => Err(Error::UnsupportedSysvar),
    }
}

/// Rent-exempt minimum of an account with `data_len` bytes on the running cluster.
pub fn rent_exempt_minimum(data_len: usize) -> (lamports: Result<u64, Error>)
    ensures
        rent_reply(data_len, lamports),
{
    let answer = rent_sysvar();
    let ghost answered = answer;
    match answer {
        Ok(rent) => {
            let rates = rates_of(rent);
            let ghost read = rates;
            let lamports = rent_minimum_from(Ok(rates), data_len);
            assert(lamports == rent_of_answer(answered, read, data_len));
            lamports
        },
        Err(e) => {
            let lamports = rent_minimum_from(Err(e), data_len);
            proof {
                let read: RentRates = arbitrary();
                assert(lamports == rent_of_answer(answered, read, data_len));
            }
            lamports
        },
    }
}

} // verus!
