//! What the host environment hands a contract call and takes back from it.
use vstd::prelude::*;
use vstd::string::StringExecFns;

verus! {

/// The environment of one call: the block time in seconds and the address
/// of the contract that is called.
#[derive(Debug)]
pub struct Env {
    pub block_time: u64,
    pub contract_address: String,
}

/// Who sent the call.
#[derive(Debug)]
pub struct MessageInfo {
    pub sender: String,
}

/// One key/value pair of the call's event metadata.
#[derive(Debug)]
pub struct Attribute {
    pub key: String,
    pub value: String,
}

/// An amount of one token.
#[derive(Debug)]
pub struct Coin {
    pub denom: String,
    pub amount: u128,
}

/// An outbound transfer that the host executes together with the call.
#[derive(Debug)]
pub enum BankMsg {
    Send { to_address: String, amount: Vec<Coin> },
}

/// What a successful call hands back: transfers to perform and metadata.
#[derive(Debug)]
pub struct Response {
    pub messages: Vec<BankMsg>,
    pub attributes: Vec<Attribute>,
}

/// The attributes as pairs of key and value.
pub open spec fn attrs_of(attrs: Seq<Attribute>) -> Seq<(Seq<char>, Seq<char>)> {
    attrs.map_values(|a: Attribute| (a.key@, a.value@))
}

/// The transfer of `amount` of `denom` to `to`.
pub open spec fn is_transfer(m: BankMsg, to: Seq<char>, denom: Seq<char>, amount: u128) -> bool {
    match m {
        BankMsg::Send { to_address, amount: coins } => {
            &&& to_address@ == to
            &&& coins@.len() == 1
            &&& coins@[0].denom@ == denom
            &&& coins@[0].amount == amount
        },
    }
}

/// Makes a key/value attribute.
pub fn attr(key: &str, value: String) -> (r: Attribute)
    ensures
        r.key@ == key@,
        r.value@ == value@,
{
    Attribute { key: String::from_str(key), value }
}

/// Makes the transfer of `amount` of `denom` to `to`.
pub fn transfer(to: String, denom: String, amount: u128) -> (r: BankMsg)
    ensures
        is_transfer(r, to@, denom@, amount),
{
    let mut coins: Vec<Coin> = Vec::new();
    coins.push(Coin { denom, amount });
    BankMsg::Send { to_address: to, amount: coins }
}

/// The decimal digits of `n`, most significant first, without leading zeros.
pub open spec fn decimal(n: nat) -> Seq<char>
    decreases n,
{
    let d = seq!['0', '1', '2', '3', '4', '5', '6', '7', '8', '9'][(n % 10) as int];
    if n < 10 {
        seq![d]
    } else {
        decimal(n / 10).push(d)
    }
}

/// Relies on `u128`'s `Display` (through `ToString::to_string`): an unsigned
/// integer prints as its decimal digits, without sign or leading zeros.
#[verifier::external_body]
pub(crate) fn u128_to_string(n: u128) -> (r: String)
    ensures
        r@ == decimal(n as nat),
{
    n.to_string()
}

} // verus!
