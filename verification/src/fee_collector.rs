//! The fee collector: an admin-configured fee, in basis points, that is
//! taken from every payment the contract forwards to a merchant and sent to
//! a treasury.

use vstd::prelude::*;
use crate::types::{Addr, Party, Transfer};

verus! {

/// The fee that `get_fee_bps` reports while no fee has been stored.
pub const DEFAULT_FEE_BPS: u32 = 50;

/// The largest fee that `set_fee_bps` accepts: 200 basis points, 2%.
pub const MAX_FEE_BPS: u32 = 200;

/// Basis points in a whole.
pub const BPS_PER_UNIT: i128 = 10_000;

/// Integer division of `x` by a positive `d`, rounding toward zero.
pub open spec fn div_toward_zero(x: int, d: int) -> int
    recommends
        d > 0,
{
    if x >= 0 {
        x / d
    } else {
        -((-x) / d)
    }
}

/// The fee taken from `gross` at `fee_bps` basis points:
/// `gross * fee_bps / 10_000`, rounded toward zero.
pub open spec fn fee_for(gross: int, fee_bps: int) -> int {
    div_toward_zero(gross * fee_bps, 10_000)
}

/// What the merchant keeps of `gross`.
pub open spec fn merchant_share(gross: int, fee_bps: int) -> int {
    gross - fee_for(gross, fee_bps)
}

/// The split of `gross` can be computed in 128-bit arithmetic.
pub open spec fn split_fits(gross: int, fee_bps: int) -> bool {
    &&& i128::MIN <= gross * fee_bps <= i128::MAX
    &&& i128::MIN <= merchant_share(gross, fee_bps) <= i128::MAX
}

/// Why a fee-collector call is refused.
#[derive(Clone, Copy, Debug, PartialEq, Eq)]
pub enum FeeError {
    /// The admin, fee or treasury that the call reads was never stored.
    NotInitialized,
    /// `set_fee_bps` was asked for more than `MAX_FEE_BPS`.
    FeeTooHigh,
    /// The split overflows 128-bit arithmetic.
    ArithmeticOverflow,
}

/// Event of `initialize`.
#[derive(Clone, Copy, Debug, PartialEq, Eq)]
pub struct Initialized {
    pub admin: Addr,
    pub fee_bps: u32,
    pub treasury: Addr,
}

/// Event of `deduct`.
#[derive(Clone, Copy, Debug, PartialEq, Eq)]
pub struct Deducted {
    pub token: Addr,
    pub merchant: Addr,
    pub gross_amount: i128,
    pub merchant_amount: i128,
    pub fee_amount: i128,
}

/// Event of `set_fee_bps`.
#[derive(Clone, Copy, Debug, PartialEq, Eq)]
pub struct FeeBpsUpdated {
    pub new_fee_bps: u32,
}

/// The outcome of `deduct`: the two amounts, the transfers to perform, in
/// order, and the event to publish.
#[derive(Clone, Debug, PartialEq, Eq)]
pub struct Deduction {
    pub merchant_amount: i128,
    pub fee_amount: i128,
    pub transfers: Vec<Transfer>,
    pub event: Deducted,
}

/// The fee collector's stored configuration. Each field is one storage
/// entry; `None` is an entry that was never written.
#[derive(Clone, Copy, Debug, PartialEq, Eq)]
pub struct FeeCollectorContract {
    pub admin: Option<Addr>,
    pub fee_bps: Option<u32>,
    pub treasury: Option<Addr>,
}

/// The fee that `get_fee_bps` reports for a configuration.
pub open spec fn effective_fee_bps(c: FeeCollectorContract) -> u32 {
    match c.fee_bps {
        Some(b) => b,
        None => DEFAULT_FEE_BPS,
    }
}

/// The transfers of a deduction: the merchant's share first, then the fee
/// to the treasury, both paid by the contract.
pub open spec fn deduction_transfers(
    token: Addr,
    merchant: Addr,
    treasury: Addr,
    merchant_amount: i128,
    fee_amount: i128,
) -> Seq<Transfer> {
    seq![
        Transfer { token, from: Party::Contract, to: Party::Address(merchant), amount: merchant_amount },
        Transfer { token, from: Party::Contract, to: Party::Address(treasury), amount: fee_amount },
    ]
}

/// A deduction splits the gross amount exactly: the merchant's share and
/// the fee add up to it.
pub proof fn split_conserves_amount(gross: int, fee_bps: int)
    ensures
        merchant_share(gross, fee_bps) + fee_for(gross, fee_bps) == gross,
{
}

/// For a non-negative amount and a fee of at most 100%, the fee and the
/// merchant's share both lie between zero and the amount.
pub proof fn fee_within_amount(gross: int, fee_bps: int)
    requires
        0 <= gross,
        0 <= fee_bps <= 10_000,
    ensures
        0 <= fee_for(gross, fee_bps) <= gross,
        0 <= merchant_share(gross, fee_bps) <= gross,
{
    assert(0 <= gross * fee_bps <= gross * 10_000) by (nonlinear_arith)
        requires
            0 <= gross,
            0 <= fee_bps <= 10_000,
    ;
    assert((gross * fee_bps) / 10_000 <= gross) by (nonlinear_arith)
        requires
            0 <= gross * fee_bps <= gross * 10_000,
    ;
}

/// A fee that `set_fee_bps` accepts takes at most 2% of a non-negative
/// amount.
pub proof fn capped_fee_at_most_two_percent(gross: int, fee_bps: int)
    requires
        0 <= gross,
        0 <= fee_bps <= MAX_FEE_BPS,
    ensures
        50 * fee_for(gross, fee_bps) <= gross,
{
    assert(0 <= gross * fee_bps <= gross * 200) by (nonlinear_arith)
        requires
            0 <= gross,
            0 <= fee_bps <= 200,
    ;
    assert(50 * ((gross * fee_bps) / 10_000) <= gross) by (nonlinear_arith)
        requires
            0 <= gross * fee_bps <= gross * 200,
    ;
}

/// The fee is rounded toward zero: it is the largest whole amount, in
/// absolute value, not exceeding `|gross * fee_bps| / 10_000`.
pub proof fn fee_rounds_toward_zero(gross: int, fee_bps: int)
    ensures
        gross * fee_bps >= 0 ==> 10_000 * fee_for(gross, fee_bps) <= gross * fee_bps < 10_000 * (fee_for(gross, fee_bps) + 1),
        gross * fee_bps < 0 ==> 10_000 * (fee_for(gross, fee_bps) - 1) < gross * fee_bps <= 10_000 * fee_for(gross, fee_bps),
{
}

/// Before a fee is stored the reported fee is the default; once one is
/// stored, by `initialize` or `set_fee_bps`, it is the stored one.
pub proof fn reported_fee(c: FeeCollectorContract)
    ensures
        c.fee_bps is None ==> effective_fee_bps(c) == DEFAULT_FEE_BPS,
        c.fee_bps matches Some(b) ==> effective_fee_bps(c) == b,
{
}

/// A deduction can be computed exactly when the product `gross * fee_bps`
/// and the merchant's share both fit in an `i128`; with no fee the product
/// is zero, so every amount can be split, the fee is zero and the merchant
/// keeps the whole amount.
pub proof fn split_owed_when_it_fits(gross: i128, fee_bps: u32)
    ensures
        split_fits(gross as int, fee_bps as int) <==> (i128::MIN <= gross * fee_bps <= i128::MAX && i128::MIN
            <= gross - fee_for(gross as int, fee_bps as int) <= i128::MAX),
        fee_bps == 0 ==> split_fits(gross as int, fee_bps as int) && fee_for(gross as int, fee_bps as int) == 0
            && merchant_share(gross as int, fee_bps as int) == gross,
{
    if fee_bps == 0 {
        assert(gross * fee_bps == 0) by (nonlinear_arith)
            requires
                fee_bps == 0,
        ;
    }
}

/// The fee is the product `gross * fee_bps` divided by 10_000 and rounded
/// toward zero: for a non-negative product it is the largest `f` with
/// `10_000 * f <= gross * fee_bps`, for a negative one the smallest `f` with
/// `gross * fee_bps <= 10_000 * f`.
pub proof fn fee_is_product_over_ten_thousand(gross: int, fee_bps: int, f: int)
    ensures
        gross * fee_bps >= 0 && 10_000 * f <= gross * fee_bps ==> f <= fee_for(gross, fee_bps),
        gross * fee_bps < 0 && gross * fee_bps <= 10_000 * f ==> fee_for(gross, fee_bps) <= f,
        gross * fee_bps >= 0 ==> fee_for(gross, fee_bps) >= 0,
        gross * fee_bps <= 0 ==> fee_for(gross, fee_bps) <= 0,
{
}

/// The numbers of the fee rules: 50 basis points until a fee is stored, at
/// most 200 through `set_fee_bps`, out of 10_000.
pub proof fn fee_rule_numbers(c: FeeCollectorContract)
    ensures
        c.fee_bps is None ==> effective_fee_bps(c) == 50,
        MAX_FEE_BPS == 200,
        BPS_PER_UNIT == 10_000,
{
}

/// A deduction pays the merchant's share to the merchant and then the fee
/// to the treasury, both in the given token and from the contract.
pub proof fn deduction_pays_merchant_then_treasury(
    token: Addr,
    merchant: Addr,
    treasury: Addr,
    merchant_amount: i128,
    fee_amount: i128,
)
    ensures
        ({
            let ts = deduction_transfers(token, merchant, treasury, merchant_amount, fee_amount);
            &&& ts.len() == 2
            &&& ts[0].token == token && ts[0].from == Party::Contract && ts[0].to == Party::Address(merchant)
                && ts[0].amount == merchant_amount
            &&& ts[1].token == token && ts[1].from == Party::Contract && ts[1].to == Party::Address(treasury)
                && ts[1].amount == fee_amount
        }),
{
}

impl FeeCollectorContract {
    /// A contract with nothing stored.
    pub fn new() -> (c: Self)
        ensures
            c.admin is None,
            c.fee_bps is None,
            c.treasury is None,
    {
        FeeCollectorContract { admin: None, fee_bps: None, treasury: None }
    }

    /// Stores the admin, the fee and the treasury, replacing whatever was
    /// stored. The call must be authorized by `admin`, which the caller
    /// checks with the host before it stores the result.
    pub fn initialize(&mut self, admin: Addr, fee_bps: u32, treasury: Addr) -> (event: Initialized)
        ensures
            final(self).admin == Some(admin),
            final(self).fee_bps == Some(fee_bps),
            final(self).treasury == Some(treasury),
            event == (Initialized { admin, fee_bps, treasury }),
    {
        self.admin = Some(admin);
        self.fee_bps = Some(fee_bps);
        self.treasury = Some(treasury);
        Initialized { admin, fee_bps, treasury }
    }

    /// Splits `gross_amount` of `token` between `merchant` and the treasury:
    /// the fee is `gross_amount * fee_bps / 10_000`, rounded toward zero,
    /// and the merchant gets the rest.
    pub fn deduct(&self, token: Addr, gross_amount: i128, merchant: Addr) -> (r: Result<Deduction, FeeError>)
        ensures
            (self.fee_bps is None || self.treasury is None) ==> r == Err::<Deduction, FeeError>(FeeError::NotInitialized),
            (self.fee_bps is Some && self.treasury is Some && !split_fits(gross_amount as int, self.fee_bps->0 as int))
                ==> r == Err::<Deduction, FeeError>(FeeError::ArithmeticOverflow),
            (self.fee_bps is Some && self.treasury is Some && split_fits(gross_amount as int, self.fee_bps->0 as int))
                ==> r is Ok,
            r matches Ok(d) ==> {
                let bps = self.fee_bps->0;
                let treasury = self.treasury->0;
                &&& self.fee_bps is Some && self.treasury is Some
                &&& split_fits(gross_amount as int, bps as int)
                &&& d.fee_amount == fee_for(gross_amount as int, bps as int)
                &&& d.merchant_amount == merchant_share(gross_amount as int, bps as int)
                &&& d.merchant_amount + d.fee_amount == gross_amount
                &&& d.transfers@ == deduction_transfers(token, merchant, treasury, d.merchant_amount, d.fee_amount)
                &&& d.event == (Deducted {
                    token,
                    merchant,
                    gross_amount,
                    merchant_amount: d.merchant_amount,
                    fee_amount: d.fee_amount,
                })
            },
    {
        let bps = match self.fee_bps {
            Some(b) => b,
            None => return Err(FeeError::NotInitialized),
        };
        let treasury = match self.treasury {
            Some(t) => t,
            None => return Err(FeeError::NotInitialized),
        };
        let product = match gross_amount.checked_mul(bps as i128) {
            Some(p) => p,
            None => return Err(FeeError::ArithmeticOverflow),
        };
        let fee_amount = match product.checked_div(BPS_PER_UNIT) {
            Some(q) => q,
            None => return Err(FeeError::ArithmeticOverflow),
        };
        assert(fee_amount == fee_for(gross_amount as int, bps as int));
        let merchant_amount = match gross_amount.checked_sub(fee_amount) {
            Some(m) => m,
            None => return Err(FeeError::ArithmeticOverflow),
        };
        let mut transfers: Vec<Transfer> = Vec::new();
        transfers.push(Transfer { token, from: Party::Contract, to: Party::Address(merchant), amount: merchant_amount });
        transfers.push(Transfer { token, from: Party::Contract, to: Party::Address(treasury), amount: fee_amount });
        assert(transfers@ =~= deduction_transfers(token, merchant, treasury, merchant_amount, fee_amount));
        Ok(Deduction {
            merchant_amount,
            fee_amount,
            transfers,
            event: Deducted { token, merchant, gross_amount, merchant_amount, fee_amount },
        })
    }

    /// Replaces the stored fee. Refused when no admin is stored, and when
    /// `new_fee_bps` exceeds `MAX_FEE_BPS`; a refused call changes nothing.
    /// The call must be authorized by the stored admin, which
    /// `set_fee_authorizer` names; the caller checks it with the host first.
    pub fn set_fee_bps(&mut self, new_fee_bps: u32) -> (r: Result<FeeBpsUpdated, FeeError>)
        ensures
            old(self).admin is None ==> r == Err::<FeeBpsUpdated, FeeError>(FeeError::NotInitialized),
            (old(self).admin is Some && new_fee_bps > MAX_FEE_BPS)
                ==> r == Err::<FeeBpsUpdated, FeeError>(FeeError::FeeTooHigh),
            (old(self).admin is Some && new_fee_bps <= MAX_FEE_BPS)
                ==> r == Ok::<FeeBpsUpdated, FeeError>(FeeBpsUpdated { new_fee_bps }),
            r is Ok ==> *final(self) == (FeeCollectorContract { fee_bps: Some(new_fee_bps), ..*old(self) }),
            r is Err ==> *final(self) == *old(self),
    {
        if self.admin.is_none() {
            return Err(FeeError::NotInitialized);
        }
        if new_fee_bps > MAX_FEE_BPS {
            return Err(FeeError::FeeTooHigh);
        }
        self.fee_bps = Some(new_fee_bps);
        Ok(FeeBpsUpdated { new_fee_bps })
    }

    /// The address that must authorize `set_fee_bps`: the stored admin;
    /// `None` when none is stored, and then `set_fee_bps` is refused with
    /// `NotInitialized`.
    pub fn set_fee_authorizer(&self) -> (admin: Option<Addr>)
        ensures
            admin == self.admin,
    {
        self.admin
    }

    /// The stored fee, or `DEFAULT_FEE_BPS` when none is stored.
    pub fn get_fee_bps(&self) -> (bps: u32)
        ensures
            bps == effective_fee_bps(*self),
    {
        match self.fee_bps {
            Some(b) => b,
            None => DEFAULT_FEE_BPS,
        }
    }
}

} // verus!
