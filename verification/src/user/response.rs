use vstd::prelude::*;

verus! {

/// The balance of an account in one currency. The amounts are decimal
/// numbers written as text, so that no digit is lost.
#[derive(Debug)]
pub struct BalanceInfos {
    pub currency: String,
    pub total_balance: String,
    pub granted_balance: String,
    pub topped_up_balance: String,
}

impl BalanceInfos {
    /// The currency of the amounts.
    pub fn currency(&self) -> (res: &str)
        ensures
            res@ == self.currency@,
    {
        self.currency.as_str()
    }

    /// All that is available, granted and topped up together.
    pub fn total_balance(&self) -> (res: &str)
        ensures
            res@ == self.total_balance@,
    {
        self.total_balance.as_str()
    }

    /// What was granted and has not expired.
    pub fn granted_balance(&self) -> (res: &str)
        ensures
            res@ == self.granted_balance@,
    {
        self.granted_balance.as_str()
    }

    /// What was topped up.
    pub fn topped_up_balance(&self) -> (res: &str)
        ensures
            res@ == self.topped_up_balance@,
    {
        self.topped_up_balance.as_str()
    }
}

/// The balance of an account.
#[derive(Debug)]
pub struct BalanceResponse {
    pub is_available: bool,
    pub balance_infos: Vec<BalanceInfos>,
}

impl BalanceResponse {
    /// Whether the balance suffices for calls of the service.
    pub fn is_available(&self) -> (res: bool)
        ensures
            res == self.is_available,
    {
        self.is_available
    }

    /// The balance in each currency, in the order in which the service
    /// listed them.
    pub fn balance_infos(&self) -> (res: &[BalanceInfos])
        ensures
            res@ == self.balance_infos@,
    {
        self.balance_infos.as_slice()
    }
}

} // verus!
