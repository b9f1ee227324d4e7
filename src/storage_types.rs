use vstd::prelude::*;

verus! {

/// Terms of one option, fixed when it is written.
pub struct OptionInfo<A> {
    pub seller: A,
    pub escrow_token: A,
    pub underlying_token: A,
    pub escrow_amount: u32,
    pub strike_price: u32,
    pub expiration_date: u64,
    pub premium: u32,
}

/// The slots of the option's store.
#[derive(Clone, Copy, Debug, PartialEq, Eq, Structural)]
pub enum DataKey {
    OptionInfo,
    Buyer,
    InitTime,
}

} // verus!
