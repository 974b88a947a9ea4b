//! The addresses of the streams.
//!
//! A stream is served at the endpoint, under a name made of the symbol in
//! lower case, `@`, the name of the stream and, for the `depth` stream, `@`
//! and the update period in milliseconds followed by `ms`.

use vstd::prelude::*;
use vstd::string::StringExecFns;

use crate::text::ascii_lowercase;
use crate::text::decimal;
use crate::text::lemma_ascii_lowercase_is_idempotent;
use crate::text::to_ascii_lowercase;
use crate::text::to_decimal;

verus! {

/// Where the streams are served: scheme, host, port and path.
pub open spec fn endpoint() -> Seq<char> {
    "wss://stream.binance.com:9443/ws/"@
}

/// The address of the `trade` stream of a symbol.
pub open spec fn trade_address(symbol: Seq<char>) -> Seq<char> {
    endpoint() + ascii_lowercase(symbol) + "@trade"@
}

/// The address of the `depth` stream of a symbol that is updated every
/// `period` milliseconds.
pub open spec fn depth_address(symbol: Seq<char>, period: u64) -> Seq<char> {
    endpoint() + ascii_lowercase(symbol) + "@depth@"@ + decimal(period as nat) + "ms"@
}

/// The case of the ASCII letters of a symbol makes no difference to its
/// addresses: folding it to lower case is done here, and a caller that has
/// done so already gets the same addresses.
pub proof fn lemma_address_ignores_case(symbol: Seq<char>, period: u64)
    ensures
        trade_address(ascii_lowercase(symbol)) == trade_address(symbol),
        depth_address(ascii_lowercase(symbol), period) == depth_address(symbol, period),
{
    lemma_ascii_lowercase_is_idempotent(symbol);
}

/// The address of the `trade` stream of a symbol.
pub fn to_trade_address(symbol: &str) -> (address: String)
    ensures
        address@ == trade_address(symbol@),
{
    let mut address = String::from_str("wss://stream.binance.com:9443/ws/");
    let name = to_ascii_lowercase(symbol);
    address.append(name.as_str());
    address.append("@trade");
    address
}

/// The address of the `depth` stream of a symbol that is updated every
/// `period` milliseconds.
pub fn to_depth_address(symbol: &str, period: u64) -> (address: String)
    ensures
        address@ == depth_address(symbol@, period),
{
    let mut address = String::from_str("wss://stream.binance.com:9443/ws/");
    let name = to_ascii_lowercase(symbol);
    let every = to_decimal(period);
    address.append(name.as_str());
    address.append("@depth@");
    address.append(every.as_str());
    address.append("ms");
    address
}

} // verus!
