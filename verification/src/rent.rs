//! The rent parameters of the cluster, and the integers that they consist of.

use vstd::prelude::*;

use anchor_lang::prelude::Rent;

verus! {

/// The rent parameters of the cluster, as the runtime hands them out.
#[verifier::external_type_specification]
#[verifier::external_body]
pub struct ExRent(Rent);

/// Bytes that every account is charged for on top of its data.
pub const ACCOUNT_STORAGE_OVERHEAD: u64 = 128;

/// The charged bytes of an account, and their product with the rate, fit in 64 bits.
pub open spec fn rent_product_fits(lamports_per_byte_year: u64, data_len: usize) -> bool {
    &&& ACCOUNT_STORAGE_OVERHEAD + data_len <= u64::MAX
    &&& (ACCOUNT_STORAGE_OVERHEAD + data_len) * lamports_per_byte_year <= u64::MAX
}

/// Result of `Rent::minimum_balance` for a data length, from the rate per byte and
/// year and from the bit pattern of the exemption threshold in years.
pub uninterp spec fn rent_minimum_balance(
    lamports_per_byte_year: u64,
    exemption_threshold_bits: u64,
    data_len: usize,
) -> u64;

/// Rent parameters together with the integers that they consist of: the rate, and the
/// bit pattern of the threshold. The fields are private to this file and only
/// `rent_rates` makes such a value, so the integers are always those of the `Rent`
/// beside them.
pub struct RentRates {
    lamports_per_byte_year: u64,
    exemption_threshold_bits: u64,
    sysvar: Rent,
}

impl RentRates {
    pub closed spec fn lamports_per_byte_year(&self) -> u64 {
        self.lamports_per_byte_year
    }

    pub closed spec fn exemption_threshold_bits(&self) -> u64 {
        self.exemption_threshold_bits
    }

    pub closed spec fn sysvar(&self) -> Rent {
        self.sysvar
    }

    /// Lamports per byte and year.
    pub fn rate(&self) -> (rate: u64)
        ensures
            rate == self.lamports_per_byte_year(),
    {
        self.lamports_per_byte_year
    }
}

/// Reads the fields `lamports_per_byte_year` and `exemption_threshold` of a `Rent` and keeps
/// it beside them. Which integers a given `Rent` holds is left unsaid, because a
/// `Rent` is opaque here.
#[verifier::external_body]
#[allow(deprecated)]
pub(crate) fn rent_rates(rent: Rent) -> (rates: RentRates)
    ensures
        rates.sysvar() == rent,
{
    RentRates {
        lamports_per_byte_year: rent.lamports_per_byte_year,
        exemption_threshold_bits: rent.exemption_threshold.to_bits(),
        sysvar: rent,
    }
}

/// `Rent::minimum_balance`. Its result depends on the rate, the threshold and the data
/// length alone; what it comes to is left unsaid, because the threshold is a
/// fraction. It multiplies the charged bytes by the rate in `u64`, so both must fit.
#[verifier::external_body]
pub(crate) fn minimum_balance_of(rates: &RentRates, data_len: usize) -> (lamports: u64)
    requires
        rent_product_fits(rates.lamports_per_byte_year(), data_len),
    ensures
        lamports == rent_minimum_balance(
            rates.lamports_per_byte_year(),
            rates.exemption_threshold_bits(),
            data_len,
        ),
{
    rates.sysvar.minimum_balance(data_len)
}

} // verus!
