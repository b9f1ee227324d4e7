pub mod laws;
pub mod storage_types;

use vstd::prelude::*;

pub use crate::storage_types::{DataKey, OptionInfo};

verus! {

/// A party to an option.
#[derive(Clone, Copy, Debug, PartialEq, Eq, Structural)]
pub enum Party {
    Seller,
    Buyer,
    Contract,
}

/// One of the two assets of an option.
#[derive(Clone, Copy, Debug, PartialEq, Eq, Hash, Structural)]
pub enum Asset {
    Escrow,
    Underlying,
}

/// A movement of `amount` of `asset` from one party to another.
#[derive(Clone, Copy, Debug, PartialEq, Eq, Structural)]
pub struct Transfer {
    pub asset: Asset,
    pub from: Party,
    pub to: Party,
    pub amount: i128,
}

/// What a host must do to carry out an operation: obtain the authorization
/// of `auth`, then make the transfers in order.
#[derive(Debug)]
pub struct Plan {
    pub auth: Party,
    pub transfers: Vec<Transfer>,
}

pub struct PlanView {
    pub auth: Party,
    pub transfers: Seq<Transfer>,
}

impl View for Plan {
    type V = PlanView;

    open spec fn view(&self) -> PlanView {
        PlanView { auth: self.auth, transfers: self.transfers@ }
    }
}

/// Why an operation was refused.
#[derive(Clone, Copy, Debug, PartialEq, Eq, Structural)]
pub enum OptionError {
    AlreadyInitialized,
    ZeroValue,
    NotInitialized,
    AlreadyPurchased,
    Overflow,
    TimeNotReached,
    NotPurchased,
    BuyerEntered,
}

/// The store of one option and its lifecycle.
pub struct EuropeanCallOption<A> {
    pub option: Option<OptionInfo<A>>,
    pub buyer: Option<A>,
    pub init_time: Option<u64>,
}

pub open spec fn deposit_of<A>(info: OptionInfo<A>) -> int {
    info.escrow_amount as int * info.strike_price as int
}

pub open spec fn plan(auth: Party, transfers: Seq<Transfer>) -> PlanView {
    PlanView { auth, transfers }
}

pub open spec fn xfer(asset: Asset, from: Party, to: Party, amount: int) -> Transfer {
    Transfer { asset, from, to, amount: amount as i128 }
}

/// Net amount of `asset` that `transfers` move into the contract's custody.
pub open spec fn net_inflow(transfers: Seq<Transfer>, asset: Asset) -> int
    decreases transfers.len(),
{
    if transfers.len() == 0 {
        0
    } else {
        let t = transfers.last();
        let d: int = if t.asset != asset {
            0
        } else if t.to == Party::Contract && t.from != Party::Contract {
            t.amount as int
        } else if t.from == Party::Contract && t.to != Party::Contract {
            -(t.amount as int)
        } else {
            0
        };
        net_inflow(transfers.drop_last(), asset) + d
    }
}

impl<A> EuropeanCallOption<A> {
    pub open spec fn is_uninitialized(self) -> bool {
        self.option is None
    }

    pub open spec fn is_open(self) -> bool {
        self.option is Some && self.buyer is None
    }

    pub open spec fn is_purchased(self) -> bool {
        self.option is Some && self.buyer is Some
    }

    /// Terms are valid and a buyer only stands beside terms whose deposit fits.
    pub open spec fn wf(self) -> bool {
        &&& (self.option matches Some(o) ==> o.strike_price != 0 && o.escrow_amount != 0)
        &&& (self.buyer is Some ==> self.option is Some && deposit_of(self.option->Some_0)
            <= u32::MAX)
    }

    /// What the contract holds in custody of `asset`.
    pub open spec fn custody(self, asset: Asset) -> int {
        match self.option {
            None => 0,
            Some(o) => match asset {
                Asset::Escrow => o.escrow_amount as int,
                Asset::Underlying => if self.buyer is Some {
                    deposit_of(o)
                } else {
                    0
                },
            },
        }
    }

    pub open spec fn init_step(self, info: OptionInfo<A>, now: u64) -> Result<(Self, PlanView), OptionError> {
        if self.option is Some {
            Err(OptionError::AlreadyInitialized)
        } else if info.strike_price == 0 || info.escrow_amount == 0 {
            Err(OptionError::ZeroValue)
        } else {
            let amount = info.escrow_amount as int;
            Ok((
                EuropeanCallOption { option: Some(info), buyer: self.buyer, init_time: Some(now) },
                plan(Party::Seller, seq![xfer(Asset::Escrow, Party::Seller, Party::Contract, amount)]),
            ))
        }
    }

    pub open spec fn buy_step(self, buyer: A) -> Result<(Self, PlanView), OptionError> {
        match self.option {
            None => Err(OptionError::NotInitialized),
            Some(o) => if self.buyer is Some {
                Err(OptionError::AlreadyPurchased)
            } else if deposit_of(o) > u32::MAX {
                Err(OptionError::Overflow)
            } else {
                Ok((
                    EuropeanCallOption { option: self.option, buyer: Some(buyer), init_time: self.init_time },
                    plan(Party::Buyer, seq![
                        xfer(Asset::Escrow, Party::Buyer, Party::Seller, o.premium as int),
                        xfer(Asset::Underlying, Party::Buyer, Party::Contract, deposit_of(o)),
                    ]),
                ))
            },
        }
    }

    pub open spec fn exercise_step(self, current_price: u32, now: u64) -> Result<(Self, PlanView), OptionError> {
        match self.option {
            None => Err(OptionError::NotInitialized),
            Some(o) => if now < o.expiration_date {
                Err(OptionError::TimeNotReached)
            } else if self.buyer is None {
                Err(OptionError::NotPurchased)
            } else {
                let cleared = EuropeanCallOption { option: None, buyer: None, init_time: self.init_time };
                let d = deposit_of(o);
                let e = o.escrow_amount as int;
                if current_price < o.strike_price {
                    Ok((cleared, plan(Party::Buyer, seq![
                        xfer(Asset::Underlying, Party::Contract, Party::Buyer, d),
                        xfer(Asset::Escrow, Party::Contract, Party::Seller, e),
                    ])))
                } else {
                    Ok((cleared, plan(Party::Seller, seq![
                        xfer(Asset::Underlying, Party::Contract, Party::Seller, d),
                        xfer(Asset::Escrow, Party::Contract, Party::Buyer, e),
                    ])))
                }
            },
        }
    }

    pub open spec fn withdraw_step(self) -> Result<(Self, PlanView), OptionError> {
        match self.option {
            None => Err(OptionError::NotInitialized),
            Some(o) => if self.buyer is Some {
                Err(OptionError::BuyerEntered)
            } else {
                Ok((
                    EuropeanCallOption { option: None, buyer: None, init_time: self.init_time },
                    plan(Party::Seller, seq![
                        xfer(Asset::Escrow, Party::Contract, Party::Seller, o.escrow_amount as int),
                    ]),
                ))
            },
        }
    }

    /// An empty store.
    pub fn new() -> (r: Self)
        ensures
            r.is_uninitialized(),
            r.buyer is None,
            r.init_time is None,
            r.wf(),
    {
        EuropeanCallOption { option: None, buyer: None, init_time: None }
    }

    /// Whether the slot `key` holds a value.
    pub fn has(&self, key: DataKey) -> (r: bool)
        ensures
            r == match key {
                DataKey::OptionInfo => self.option is Some,
                DataKey::Buyer => self.buyer is Some,
                DataKey::InitTime => self.init_time is Some,
            },
    {
        match key {
            DataKey::OptionInfo => self.option.is_some(),
            DataKey::Buyer => self.buyer.is_some(),
            DataKey::InitTime => self.init_time.is_some(),
        }
    }

    /// Writes new terms, recording `now` as the time of initialization; the
    /// seller posts the escrow.
    pub fn init_option(&mut self, info: OptionInfo<A>, now: u64) -> (r: Result<Plan, OptionError>)
        requires
            old(self).wf(),
        ensures
            final(self).wf(),
            match r {
                Ok(p) => old(self).init_step(info, now) == Ok::<(Self, PlanView), OptionError>((*final(self), p@)),
                Err(e) => old(self).init_step(info, now) == Err::<(Self, PlanView), _>(e)
                    && *final(self) == *old(self),
            },
    {
        if self.option.is_some() {
            return Err(OptionError::AlreadyInitialized);
        }
        if info.strike_price == 0 || info.escrow_amount == 0 {
            return Err(OptionError::ZeroValue);
        }
        let amount = info.escrow_amount as i128;
        self.option = Some(info);
        self.init_time = Some(now);
        let mut transfers: Vec<Transfer> = Vec::new();
        transfers.push(Transfer { asset: Asset::Escrow, from: Party::Seller, to: Party::Contract, amount });
        let p = Plan { auth: Party::Seller, transfers };
        assert(p.transfers@ =~= seq![xfer(Asset::Escrow, Party::Seller, Party::Contract, amount as int)]);
        Ok(p)
    }

    /// Records `buyer`, who pays the premium to the seller and deposits
    /// `escrow_amount * strike_price` of the underlying token.
    pub fn buy_option(&mut self, buyer: A) -> (r: Result<Plan, OptionError>)
        requires
            old(self).wf(),
        ensures
            final(self).wf(),
            old(self).is_purchased() ==> r == Err::<Plan, _>(OptionError::AlreadyPurchased),
            match r {
                Ok(p) => old(self).buy_step(buyer) == Ok::<(Self, PlanView), OptionError>((*final(self), p@)),
                Err(e) => old(self).buy_step(buyer) == Err::<(Self, PlanView), _>(e)
                    && *final(self) == *old(self),
            },
    {
        let (premium, escrow_amount, strike_price) = match &self.option {
            None => return Err(OptionError::NotInitialized),
            Some(o) => (o.premium, o.escrow_amount, o.strike_price),
        };
        if self.buyer.is_some() {
            return Err(OptionError::AlreadyPurchased);
        }
        let deposit = match escrow_amount.checked_mul(strike_price) {
            None => return Err(OptionError::Overflow),
            Some(d) => d,
        };
        self.buyer = Some(buyer);
        let mut transfers: Vec<Transfer> = Vec::new();
        transfers.push(Transfer { asset: Asset::Escrow, from: Party::Buyer, to: Party::Seller, amount: premium as i128 });
        transfers.push(Transfer { asset: Asset::Underlying, from: Party::Buyer, to: Party::Contract, amount: deposit as i128 });
        let p = Plan { auth: Party::Buyer, transfers };
        let ghost o = old(self).option->Some_0;
        assert(p.transfers@ =~= seq![
            xfer(Asset::Escrow, Party::Buyer, Party::Seller, o.premium as int),
            xfer(Asset::Underlying, Party::Buyer, Party::Contract, deposit_of(o)),
        ]);
        Ok(p)
    }

    /// Settles a purchased option at or after expiration against
    /// `current_price`, and clears the terms and the buyer.
    pub fn exercise_option(&mut self, current_price: u32, now: u64) -> (r: Result<Plan, OptionError>)
        requires
            old(self).wf(),
        ensures
            final(self).wf(),
            match r {
                Ok(p) => old(self).exercise_step(current_price, now) == Ok::<(Self, PlanView), OptionError>((*final(self), p@)),
                Err(e) => old(self).exercise_step(current_price, now) == Err::<(Self, PlanView), _>(e)
                    && *final(self) == *old(self),
            },
    {
        let (escrow_amount, strike_price, expiration_date) = match &self.option {
            None => return Err(OptionError::NotInitialized),
            Some(o) => (o.escrow_amount, o.strike_price, o.expiration_date),
        };
        if now < expiration_date {
            return Err(OptionError::TimeNotReached);
        }
        if self.buyer.is_none() {
            return Err(OptionError::NotPurchased);
        }
        let deposit = escrow_amount as u64 * strike_price as u64;
        let d = deposit as i128;
        let e = escrow_amount as i128;
        self.option = None;
        self.buyer = None;
        let mut transfers: Vec<Transfer> = Vec::new();
        let auth = if current_price < strike_price {
            transfers.push(Transfer { asset: Asset::Underlying, from: Party::Contract, to: Party::Buyer, amount: d });
            transfers.push(Transfer { asset: Asset::Escrow, from: Party::Contract, to: Party::Seller, amount: e });
            Party::Buyer
        } else {
            transfers.push(Transfer { asset: Asset::Underlying, from: Party::Contract, to: Party::Seller, amount: d });
            transfers.push(Transfer { asset: Asset::Escrow, from: Party::Contract, to: Party::Buyer, amount: e });
            Party::Seller
        };
        let p = Plan { auth, transfers };
        let ghost want = old(self).exercise_step(current_price, now)->Ok_0.1;
        assert(p.transfers@ =~= want.transfers);
        Ok(p)
    }

    /// Cancels an open option: the seller takes the escrow back and the
    /// terms are cleared.
    pub fn withdraw(&mut self) -> (r: Result<Plan, OptionError>)
        requires
            old(self).wf(),
        ensures
            final(self).wf(),
            old(self).buyer is Some ==> r is Err,
            match r {
                Ok(p) => old(self).withdraw_step() == Ok::<(Self, PlanView), OptionError>((*final(self), p@)),
                Err(e) => old(self).withdraw_step() == Err::<(Self, PlanView), _>(e)
                    && *final(self) == *old(self),
            },
    {
        let escrow_amount = match &self.option {
            None => return Err(OptionError::NotInitialized),
            Some(o) => o.escrow_amount,
        };
        if self.buyer.is_some() {
            return Err(OptionError::BuyerEntered);
        }
        self.option = None;
        self.buyer = None;
        let mut transfers: Vec<Transfer> = Vec::new();
        transfers.push(Transfer { asset: Asset::Escrow, from: Party::Contract, to: Party::Seller, amount: escrow_amount as i128 });
        let p = Plan { auth: Party::Seller, transfers };
        assert(p.transfers@ =~= seq![
            xfer(Asset::Escrow, Party::Contract, Party::Seller, escrow_amount as int),
        ]);
        Ok(p)
    }
}

} // verus!
