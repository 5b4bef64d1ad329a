//! The nostr key encoder: renders an embedded nostr identity key both as its
//! canonical hexadecimal text and as its NIP-19 bech32 form.

use vstd::prelude::*;

use nostr::nips::nip19::ToBech32;

use crate::errors::{Error, ErrorView};
use crate::payment::{Payment, PaymentView};
use crate::record::{NostrEncoding, NostrEncodingView};

verus! {

/// The NIP-19 bech32 encoding of the key the hexadecimal text names, or —
/// where the text does not name a well-formed key or the encoding fails —
/// the failure's own diagnostic text; a function of the text alone.
pub uninterp spec fn npub_of(hex: Seq<char>) -> Result<Seq<char>, Seq<char>>;

/// The model of an encoding attempt's raw outcome.
pub open spec fn text_result_view(r: Result<String, String>) -> Result<Seq<char>, Seq<char>> {
    match r {
        Ok(b) => Ok(b@),
        Err(c) => Err(c@),
    }
}

/// Relies on `nostr::key::PublicKey::from_hex` and
/// `nostr::nips::nip19::ToBech32::to_bech32`: re-reads the key from its
/// hexadecimal text and encodes it under the NIP-19 convention for public
/// keys, handing back the failure's own text where either step fails;
/// deterministic in the text.
#[verifier::external_body]
fn encode_npub(hex: &str) -> (r: Result<String, String>)
    ensures
        text_result_view(r) == npub_of(hex@),
{
    match nostr::key::PublicKey::from_hex(hex) {
        Ok(k) => match k.to_bech32() {
            Ok(b) => Ok(b),
            Err(e) => Err(e.to_string()),
        },
        Err(e) => Err(e.to_string()),
    }
}

/// The outcome the encoder owes for a payment: nothing where the payment
/// carries no identity key; the dual encoding where the bech32 form exists;
/// the typed encoding failure, carrying the cause text verbatim, otherwise.
pub open spec fn spec_nostr_encoding(pv: PaymentView) -> Result<
    Option<NostrEncodingView>,
    ErrorView,
> {
    match pv.nostr_hex {
        None => Ok(None),
        Some(h) => match npub_of(h) {
            Ok(b) => Ok(Some(NostrEncodingView { hex: h, bech32: b })),
            Err(c) => Err(ErrorView::EncodingFailure(c)),
        },
    }
}

/// The model of the encoder's result.
pub open spec fn encoding_result_view(r: Result<Option<NostrEncoding>, Error>) -> Result<
    Option<NostrEncodingView>,
    ErrorView,
> {
    match r {
        Ok(o) => Ok(o.deep_view()),
        Err(e) => Err(e@),
    }
}

/// Encodes the payment's embedded nostr identity key, where it carries one,
/// as its hexadecimal and bech32 texts. A failing bech32 re-encoding is the
/// typed encoding failure with its cause text, never a silently dropped
/// field.
pub fn encode_nostr_key(p: &Payment) -> (r: Result<Option<NostrEncoding>, Error>)
    ensures
        encoding_result_view(r) == spec_nostr_encoding(p@),
{
    match &p.nostr_hex {
        None => Ok(None),
        Some(h) => match encode_npub(h.as_str()) {
            Ok(b) => Ok(Some(NostrEncoding { hex: h.clone(), bech32: b })),
            Err(c) => Err(Error::EncodingFailure(c)),
        },
    }
}

} // verus!
