//! The unit resolver: maps a user-supplied unit token to a denomination, and
//! renders a satoshi amount as text in a chosen denomination.

use vstd::prelude::*;

use crate::text::str_eq;

verus! {

/// A denomination for rendering a monetary amount as text.
#[derive(Clone, Copy, Debug, PartialEq, Eq, Structural)]
pub enum Denomination {
    Bitcoin,
    MilliBitcoin,
    Satoshi,
    MilliSatoshi,
}

/// The denomination a unit token resolves to: exactly `"btc"`, `"mbtc"` and
/// `"msat"` are recognized; every other token (including `"sat"`) resolves to
/// satoshi.
pub open spec fn denom_of_token(t: Seq<char>) -> Denomination {
    if t == "btc"@ {
        Denomination::Bitcoin
    } else if t == "mbtc"@ {
        Denomination::MilliBitcoin
    } else if t == "msat"@ {
        Denomination::MilliSatoshi
    } else {
        Denomination::Satoshi
    }
}

/// Resolves a unit token to its denomination. Total: unrecognized tokens
/// resolve to satoshi rather than failing.
pub fn resolve_unit(token: &str) -> (d: Denomination)
    ensures
        d == denom_of_token(token@),
{
    if str_eq(token, "btc") {
        Denomination::Bitcoin
    } else if str_eq(token, "mbtc") {
        Denomination::MilliBitcoin
    } else if str_eq(token, "msat") {
        Denomination::MilliSatoshi
    } else {
        Denomination::Satoshi
    }
}

/// The text that a satoshi amount renders to in the given denomination,
/// suffixed with the denomination's abbreviation.
pub uninterp spec fn amount_text(sat: u64, d: Denomination) -> Seq<char>;

/// Relies on `bitcoin::Amount::from_sat` and
/// `bitcoin::Amount::to_string_with_denomination`: renders the amount in the
/// given denomination, suffixed with its abbreviation; the result depends on
/// the amount and the denomination alone.
#[verifier::external_body]
pub(crate) fn format_amount(sat: u64, d: Denomination) -> (r: String)
    ensures
        r@ == amount_text(sat, d),
{
    let denom = match d {
        Denomination::Bitcoin => bitcoin::Denomination::Bitcoin,
        Denomination::MilliBitcoin => bitcoin::Denomination::MilliBitcoin,
        Denomination::Satoshi => bitcoin::Denomination::Satoshi,
        Denomination::MilliSatoshi => bitcoin::Denomination::MilliSatoshi,
    };
    bitcoin::Amount::from_sat(sat).to_string_with_denomination(denom)
}

} // verus!
