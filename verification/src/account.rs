//! Account-scoped records and the resource paths of account requests.

use vstd::prelude::*;

verus! {

/// The state of a trade.
#[derive(Clone, Copy, PartialEq, Eq, Structural, Debug)]
#[allow(non_camel_case_types)]
pub enum TradeState {
    OPEN,
    CLOSED,
    CLOSE_WHEN_TRADEABLE,
}

/// The state of an order.
#[derive(Clone, Copy, PartialEq, Eq, Structural, Debug)]
pub enum OrderState {
    PENDING,
    FILLED,
    TRIGGERED,
    CANCELLED,
}

/// Client-assigned extensions of an order or trade.
#[derive(Clone, Debug)]
pub struct ClientExtensions {
    /// The client identifier of the order or trade.
    pub id: String,
    /// A tag associated with the order or trade.
    pub tag: String,
    /// A comment associated with the order or trade.
    pub comment: String,
}

/// The kind of a tradable instrument.
#[derive(Clone, Copy, PartialEq, Eq, Structural, Debug)]
pub enum InstrumentType {
    /// A currency pair.
    CURRENCY,
    /// A contract for difference.
    CFD,
    /// A metal.
    METAL,
}

/// One account of the authenticated client.
#[derive(Clone, Debug)]
pub struct Account {
    /// The account's identifier.
    pub id: String,
    /// The tags associated with the account.
    pub tags: Vec<String>,
}

impl Account {
    /// The resource path of the account's full details.
    pub fn details_path(&self) -> (s: String)
        ensures
            s@ == "accounts/"@ + self.id@,
    {
        let mut s = String::new();
        s.append("accounts/");
        s.append(self.id.as_str());
        proof {
            assert(s@ =~= "accounts/"@ + self.id@);
        }
        s
    }

    /// The resource path of the account's tradable instrument list.
    pub fn instruments_path(&self) -> (s: String)
        ensures
            s@ == "accounts/"@ + self.id@ + "/instruments"@,
    {
        let mut s = String::new();
        s.append("accounts/");
        s.append(self.id.as_str());
        s.append("/instruments");
        proof {
            assert(s@ =~= "accounts/"@ + self.id@ + "/instruments"@);
        }
        s
    }

    /// The resource path of the account's summary.
    pub fn summary_path(&self) -> (s: String)
        ensures
            s@ == "accounts/"@ + self.id@ + "/summary"@,
    {
        let mut s = String::new();
        s.append("accounts/");
        s.append(self.id.as_str());
        s.append("/summary");
        proof {
            assert(s@ =~= "accounts/"@ + self.id@ + "/summary"@);
        }
        s
    }
}

} // verus!
