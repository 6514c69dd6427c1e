//! TEND mutual-credit balances: a balance may go negative down to the
//! agent's credit limit.
use vstd::prelude::*;

verus! {

/// TEND paid for one service.
pub const SERVICE_TEND_AMOUNT: i64 = 1;

#[derive(Debug, Clone, PartialEq, Eq, Structural)]
pub struct TendBalance {
    /// Current balance; negative under mutual credit.
    pub balance: i64,
    /// How far negative the balance may go.
    pub credit_limit: i64,
}

impl Default for TendBalance {
    fn default() -> (r: Self)
        ensures
            r.balance == 0,
            r.credit_limit == 0,
    {
        TendBalance { balance: 0, credit_limit: 0 }
    }
}

impl TendBalance {
    pub fn new(credit_limit: i64) -> (r: Self)
        ensures
            r.balance == 0,
            r.credit_limit == credit_limit,
    {
        TendBalance { balance: 0, credit_limit }
    }

    /// Whether spending `amount` keeps the balance within the credit limit.
    pub fn can_spend(&self, amount: i64) -> (r: bool)
        requires
            i64::MIN <= self.balance - amount <= i64::MAX,
            self.credit_limit != i64::MIN,
        ensures
            r == (self.balance - amount >= -self.credit_limit),
    {
        (self.balance - amount) >= -self.credit_limit
    }
}

/// One service exchange: when the payer can afford it within its credit
/// limit, one service amount moves from payer to payee. Returns whether it
/// moved. Exchanges are zero-sum, and credit limits are unchanged.
pub fn pay_for_service(payer: &mut TendBalance, payee: &mut TendBalance) -> (paid: bool)
    requires
        old(payer).balance > i64::MIN,
        old(payer).credit_limit != i64::MIN,
        old(payee).balance < i64::MAX,
    ensures
        paid == (old(payer).balance - SERVICE_TEND_AMOUNT >= -old(payer).credit_limit),
        paid ==> final(payer).balance == old(payer).balance - SERVICE_TEND_AMOUNT
            && final(payee).balance == old(payee).balance + SERVICE_TEND_AMOUNT,
        !paid ==> final(payer).balance == old(payer).balance && final(payee).balance
            == old(payee).balance,
        final(payer).balance + final(payee).balance == old(payer).balance + old(payee).balance,
        final(payer).credit_limit == old(payer).credit_limit,
        final(payee).credit_limit == old(payee).credit_limit,
{
    if !payer.can_spend(SERVICE_TEND_AMOUNT) {
        return false;
    }
    payer.balance = payer.balance - SERVICE_TEND_AMOUNT;
    payee.balance = payee.balance + SERVICE_TEND_AMOUNT;
    true
}

} // verus!
