//! The classification-and-projection engine: one query string and one set of
//! options in, one assembled record or one typed error out.

use vstd::prelude::*;

use crate::errors::{Error, ErrorView};
use crate::kinds::Kind;
use crate::nostr_keys::{encode_nostr_key, spec_nostr_encoding};
use crate::payment::{parse_payment, query_kind, spec_payment};
use crate::record::{assemble, project_fields, projected_of, spec_record, EntryView, OutputRecord, Shape};
use crate::units::{denom_of_token, resolve_unit};

verus! {

/// The caller-selected options of one invocation.
#[derive(Clone, Copy, Debug)]
pub struct Options {
    /// The output shape: full keeps every field key, sparse omits unset ones.
    pub shape: Shape,
    /// Whether nostr exposure was requested.
    pub nostr: bool,
    /// Policy: whether a nostr identity classification is rejected as a parse
    /// failure when nostr exposure was not requested.
    pub reject_unrequested_nostr: bool,
}

/// The record or error one invocation owes: a parse failure where the parser
/// rejects the query or where the nostr policy rejects its kind; an encoding
/// failure where a requested nostr re-encoding fails; otherwise the record
/// assembled from the projected fields under the chosen denomination and
/// shape.
pub open spec fn spec_analyze(s: Seq<char>, unit: Seq<char>, o: Options) -> Result<
    Seq<EntryView>,
    ErrorView,
> {
    match query_kind(s) {
        None => Err(ErrorView::ParseFailure),
        Some(k) => if k == Kind::NostrValue && !o.nostr && o.reject_unrequested_nostr {
            Err(ErrorView::ParseFailure)
        } else {
            let pv = spec_payment(s)->Some_0;
            let f = projected_of(pv, denom_of_token(unit));
            if o.nostr {
                match spec_nostr_encoding(pv) {
                    Ok(slot) => Ok(spec_record(k, f, o.shape, true, slot)),
                    Err(e) => Err(e),
                }
            } else {
                Ok(spec_record(k, f, o.shape, false, None))
            }
        },
    }
}

/// The model of the engine's result.
pub open spec fn record_result_view(r: Result<OutputRecord, Error>) -> Result<
    Seq<EntryView>,
    ErrorView,
> {
    match r {
        Ok(rec) => Ok(rec@),
        Err(e) => Err(e@),
    }
}

/// Runs one invocation of the engine: classifies the query, resolves the unit
/// token, projects the applicable fields, encodes the nostr identity key
/// where requested, and assembles the record under the chosen shape. Pure and
/// single-shot; a failure always means that no record was produced.
pub fn analyze(query: &str, unit: &str, opts: Options) -> (r: Result<OutputRecord, Error>)
    ensures
        record_result_view(r) == spec_analyze(query@, unit@, opts),
        query_kind(query@) is None ==> r matches Err(Error::ParseFailure),
{
    let payment = match parse_payment(query) {
        Ok(p) => p,
        Err(_) => {
            return Err(Error::ParseFailure);
        },
    };
    if payment.kind == Kind::NostrValue && !opts.nostr && opts.reject_unrequested_nostr {
        return Err(Error::ParseFailure);
    }
    let denom = resolve_unit(unit);
    let fields = project_fields(&payment, denom);
    let slot = if opts.nostr {
        match encode_nostr_key(&payment) {
            Ok(s) => s,
            Err(e) => {
                return Err(e);
            },
        }
    } else {
        None
    };
    Ok(assemble(payment.kind, &fields, opts.shape, opts.nostr, &slot))
}

/// Idempotence: two invocations of the engine on the same query, unit token
/// and options yield the same outcome — the identical record, or the
/// identical error.
pub proof fn lemma_engine_idempotent(
    s: Seq<char>,
    unit: Seq<char>,
    o: Options,
    r1: Result<OutputRecord, Error>,
    r2: Result<OutputRecord, Error>,
)
    requires
        record_result_view(r1) == spec_analyze(s, unit, o),
        record_result_view(r2) == spec_analyze(s, unit, o),
    ensures
        record_result_view(r1) == record_result_view(r2),
{
}

} // verus!
