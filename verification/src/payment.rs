//! The payment classifier and field extraction.
//!
//! Recognition of the raw query string is delegated entirely to the outside
//! parser; parsing is deterministic and pure, so each extracted field is a
//! fixed function of the query text, named by an uninterpreted spec function.
//! The classifier's own responsibility — the exhaustive mapping from parser
//! variants to kinds, and the typed failure — is verified code.

use std::str::FromStr;

use bitcoin_waila::PaymentParams;
use vstd::prelude::*;

use crate::errors::Error;
use crate::kinds::Kind;

verus! {

/// The kind of payment descriptor the query names, or `None` where the parser
/// rejects the query.
pub uninterp spec fn query_kind(s: Seq<char>) -> Option<Kind>;

/// The network named by the query's descriptor, if one applies.
pub uninterp spec fn query_network(s: Seq<char>) -> Option<Seq<char>>;

/// The on-chain address carried by the query's descriptor, if one applies.
pub uninterp spec fn query_address(s: Seq<char>) -> Option<Seq<char>>;

/// The BOLT11 invoice text carried by the query's descriptor, if one applies.
pub uninterp spec fn query_invoice(s: Seq<char>) -> Option<Seq<char>>;

/// The node public key carried by the query's descriptor, if one applies.
pub uninterp spec fn query_node_pubkey(s: Seq<char>) -> Option<Seq<char>>;

/// The amount in satoshi encoded by the query's descriptor, if one applies.
pub uninterp spec fn query_amount_sat(s: Seq<char>) -> Option<u64>;

/// The memo text carried by the query's descriptor, if one applies.
pub uninterp spec fn query_memo(s: Seq<char>) -> Option<Seq<char>>;

/// The LNURL carried by the query's descriptor, if one applies.
pub uninterp spec fn query_lnurl(s: Seq<char>) -> Option<Seq<char>>;

/// The lightning address carried by the query's descriptor, if one applies.
pub uninterp spec fn query_lnaddr(s: Seq<char>) -> Option<Seq<char>>;

/// The payjoin endpoint URL carried by the query's descriptor, if one applies.
pub uninterp spec fn query_payjoin(s: Seq<char>) -> Option<Seq<char>>;

/// The nostr identity key of the query's descriptor in hexadecimal, if one
/// applies.
pub uninterp spec fn query_nostr_hex(s: Seq<char>) -> Option<Seq<char>>;

/// Relies on `bitcoin_waila::PaymentParams::from_str`: deterministic, pure
/// recognition of the query; each parser variant is mapped to exactly one
/// kind, with no catch-all, so a new parser variant is a build-time error.
#[verifier::external_body]
fn parse_kind(s: &str) -> (r: Option<Kind>)
    ensures
        r == query_kind(s@),
{
    match PaymentParams::from_str(s) {
        Ok(PaymentParams::OnChain(_)) => Some(Kind::OnChain),
        Ok(PaymentParams::Bip21(_)) => Some(Kind::UnifiedUri),
        Ok(PaymentParams::Bolt11(_)) => Some(Kind::Invoice),
        Ok(PaymentParams::Bolt12(_)) => Some(Kind::Offer),
        Ok(PaymentParams::NodePubkey(_)) => Some(Kind::PublicKey),
        Ok(PaymentParams::LnUrl(_)) => Some(Kind::LnUrl),
        Ok(PaymentParams::LightningAddress(_)) => Some(Kind::LnAddress),
        Ok(PaymentParams::Nostr(_)) => Some(Kind::NostrValue),
        Err(()) => None,
    }
}

/// Relies on `bitcoin_waila::PaymentParams::network`: the network of the
/// parsed descriptor, displayed as its lowercase name.
#[verifier::external_body]
fn parse_network(s: &str) -> (r: Option<String>)
    ensures
        r.deep_view() == query_network(s@),
{
    match PaymentParams::from_str(s) {
        Ok(p) => p.network().map(|n| n.to_string()),
        Err(()) => None,
    }
}

/// Relies on `bitcoin_waila::PaymentParams::address`: the on-chain address of
/// the parsed descriptor, displayed in its canonical text form.
#[verifier::external_body]
fn parse_address(s: &str) -> (r: Option<String>)
    ensures
        r.deep_view() == query_address(s@),
{
    match PaymentParams::from_str(s) {
        Ok(p) => p.address().map(|a| a.to_string()),
        Err(()) => None,
    }
}

/// Relies on `bitcoin_waila::PaymentParams::invoice`: the BOLT11 invoice of
/// the parsed descriptor, displayed in its bech32 text form.
#[verifier::external_body]
fn parse_invoice(s: &str) -> (r: Option<String>)
    ensures
        r.deep_view() == query_invoice(s@),
{
    match PaymentParams::from_str(s) {
        Ok(p) => p.invoice().map(|i| i.to_string()),
        Err(()) => None,
    }
}

/// Relies on `bitcoin_waila::PaymentParams::node_pubkey`: the node public key
/// of the parsed descriptor, displayed in compressed hexadecimal.
#[verifier::external_body]
fn parse_node_pubkey(s: &str) -> (r: Option<String>)
    ensures
        r.deep_view() == query_node_pubkey(s@),
{
    match PaymentParams::from_str(s) {
        Ok(p) => p.node_pubkey().map(|k| k.to_string()),
        Err(()) => None,
    }
}

/// Relies on `bitcoin_waila::PaymentParams::amount` and
/// `bitcoin::Amount::to_sat`: the amount of the parsed descriptor in satoshi.
/// A BIP21 URI's amount is read from the URI directly: taking it through
/// `amount()` would overflow on large amounts, which its round trip over
/// millisatoshis cannot represent.
#[verifier::external_body]
fn parse_amount_sat(s: &str) -> (r: Option<u64>)
    ensures
        r == query_amount_sat(s@),
{
    match PaymentParams::from_str(s) {
        Ok(PaymentParams::Bip21(uri)) => uri.amount.map(|a| a.to_sat()),
        Ok(p) => p.amount().map(|a| a.to_sat()),
        Err(()) => None,
    }
}

/// Relies on `bitcoin_waila::PaymentParams::memo`: the memo text of the
/// parsed descriptor.
#[verifier::external_body]
fn parse_memo(s: &str) -> (r: Option<String>)
    ensures
        r.deep_view() == query_memo(s@),
{
    match PaymentParams::from_str(s) {
        Ok(p) => p.memo(),
        Err(()) => None,
    }
}

/// Relies on `bitcoin_waila::PaymentParams::lnurl`: the LNURL of the parsed
/// descriptor, displayed in its bech32 text form.
#[verifier::external_body]
fn parse_lnurl(s: &str) -> (r: Option<String>)
    ensures
        r.deep_view() == query_lnurl(s@),
{
    match PaymentParams::from_str(s) {
        Ok(p) => p.lnurl().map(|l| l.to_string()),
        Err(()) => None,
    }
}

/// Relies on `bitcoin_waila::PaymentParams::lightning_address`: the lightning
/// address of the parsed descriptor in its `user@domain` text form.
#[verifier::external_body]
fn parse_lnaddr(s: &str) -> (r: Option<String>)
    ensures
        r.deep_view() == query_lnaddr(s@),
{
    match PaymentParams::from_str(s) {
        Ok(p) => p.lightning_address().map(|a| a.to_string()),
        Err(()) => None,
    }
}

/// Relies on `bitcoin_waila::PaymentParams::payjoin_endpoint`: the payjoin
/// endpoint URL of the parsed descriptor.
#[verifier::external_body]
fn parse_payjoin(s: &str) -> (r: Option<String>)
    ensures
        r.deep_view() == query_payjoin(s@),
{
    match PaymentParams::from_str(s) {
        Ok(p) => p.payjoin_endpoint().map(|u| u.to_string()),
        Err(()) => None,
    }
}

/// Relies on `bitcoin_waila::PaymentParams::nostr_pubkey`: the nostr identity
/// key of the parsed descriptor, displayed in hexadecimal.
#[verifier::external_body]
fn parse_nostr_hex(s: &str) -> (r: Option<String>)
    ensures
        r.deep_view() == query_nostr_hex(s@),
{
    match PaymentParams::from_str(s) {
        Ok(p) => p.nostr_pubkey().map(|k| k.to_string()),
        Err(()) => None,
    }
}

/// What the engine reads of a recognized payment string: its kind and each
/// applicable optional field, every one a plain value.
#[derive(Debug, Clone)]
pub struct Payment {
    pub kind: Kind,
    pub network: Option<String>,
    pub address: Option<String>,
    pub invoice: Option<String>,
    pub pubkey: Option<String>,
    pub amount_sat: Option<u64>,
    pub memo: Option<String>,
    pub lnurl: Option<String>,
    pub lnaddr: Option<String>,
    pub payjoin: Option<String>,
    pub nostr_hex: Option<String>,
}

/// The mathematical model of a `Payment`.
pub struct PaymentView {
    pub kind: Kind,
    pub network: Option<Seq<char>>,
    pub address: Option<Seq<char>>,
    pub invoice: Option<Seq<char>>,
    pub pubkey: Option<Seq<char>>,
    pub amount_sat: Option<u64>,
    pub memo: Option<Seq<char>>,
    pub lnurl: Option<Seq<char>>,
    pub lnaddr: Option<Seq<char>>,
    pub payjoin: Option<Seq<char>>,
    pub nostr_hex: Option<Seq<char>>,
}

impl View for Payment {
    type V = PaymentView;

    open spec fn view(&self) -> PaymentView {
        PaymentView {
            kind: self.kind,
            network: self.network.deep_view(),
            address: self.address.deep_view(),
            invoice: self.invoice.deep_view(),
            pubkey: self.pubkey.deep_view(),
            amount_sat: self.amount_sat,
            memo: self.memo.deep_view(),
            lnurl: self.lnurl.deep_view(),
            lnaddr: self.lnaddr.deep_view(),
            payjoin: self.payjoin.deep_view(),
            nostr_hex: self.nostr_hex.deep_view(),
        }
    }
}

/// The payment the query describes, or `None` where the parser rejects it.
pub open spec fn spec_payment(s: Seq<char>) -> Option<PaymentView> {
    match query_kind(s) {
        None => None,
        Some(k) => Some(
            PaymentView {
                kind: k,
                network: query_network(s),
                address: query_address(s),
                invoice: query_invoice(s),
                pubkey: query_node_pubkey(s),
                amount_sat: query_amount_sat(s),
                memo: query_memo(s),
                lnurl: query_lnurl(s),
                lnaddr: query_lnaddr(s),
                payjoin: query_payjoin(s),
                nostr_hex: query_nostr_hex(s),
            },
        ),
    }
}

/// Classifies the query string. Succeeds exactly where the parser recognizes
/// it; otherwise reports the typed parse failure.
pub fn classify(s: &str) -> (r: Result<Kind, Error>)
    ensures
        r matches Ok(k) ==> query_kind(s@) == Some(k),
        r matches Err(e) ==> query_kind(s@) is None && e matches Error::ParseFailure,
{
    match parse_kind(s) {
        Some(k) => Ok(k),
        None => Err(Error::ParseFailure),
    }
}

/// Parses the query string into the engine's own payment value. Succeeds
/// exactly where the parser recognizes the query; otherwise reports the typed
/// parse failure.
pub fn parse_payment(s: &str) -> (r: Result<Payment, Error>)
    ensures
        r matches Ok(p) ==> spec_payment(s@) == Some(p@),
        r matches Err(e) ==> spec_payment(s@) is None && e matches Error::ParseFailure,
{
    let kind = match parse_kind(s) {
        Some(k) => k,
        None => {
            return Err(Error::ParseFailure);
        },
    };
    Ok(
        Payment {
            kind,
            network: parse_network(s),
            address: parse_address(s),
            invoice: parse_invoice(s),
            pubkey: parse_node_pubkey(s),
            amount_sat: parse_amount_sat(s),
            memo: parse_memo(s),
            lnurl: parse_lnurl(s),
            lnaddr: parse_lnaddr(s),
            payjoin: parse_payjoin(s),
            nostr_hex: parse_nostr_hex(s),
        },
    )
}

} // verus!
