//! The payment descriptor kinds and their stable tag strings.

use vstd::prelude::*;

verus! {

/// The semantic category of a recognized payment string. Closed: the
/// classifier maps every value the parser can return to exactly one kind.
#[derive(Clone, Copy, Debug, PartialEq, Eq, Structural)]
pub enum Kind {
    OnChain,
    UnifiedUri,
    Invoice,
    Offer,
    PublicKey,
    LnUrl,
    LnAddress,
    NostrValue,
}

/// The tag string of each kind, as it appears under the record's `kind` key.
pub open spec fn tag_of(k: Kind) -> Seq<char> {
    match k {
        Kind::OnChain => "OnChain"@,
        Kind::UnifiedUri => "UnifiedUri"@,
        Kind::Invoice => "Invoice"@,
        Kind::Offer => "Offer"@,
        Kind::PublicKey => "PublicKey"@,
        Kind::LnUrl => "LnUrl"@,
        Kind::LnAddress => "LnAddress"@,
        Kind::NostrValue => "NostrValue"@,
    }
}

/// Returns the tag string of a kind. Total over the closed enum: adding a
/// parser variant without a tag is a build-time error here.
pub fn kind_tag(k: Kind) -> (t: &'static str)
    ensures
        t@ == tag_of(k),
{
    match k {
        Kind::OnChain => "OnChain",
        Kind::UnifiedUri => "UnifiedUri",
        Kind::Invoice => "Invoice",
        Kind::Offer => "Offer",
        Kind::PublicKey => "PublicKey",
        Kind::LnUrl => "LnUrl",
        Kind::LnAddress => "LnAddress",
        Kind::NostrValue => "NostrValue",
    }
}

/// The kind tags are stable and exhaustive: the tag map is total over the
/// closed enum by construction, and no two kinds share a tag.
pub proof fn lemma_kind_tags_injective()
    ensures
        forall|k1: Kind, k2: Kind| tag_of(k1) == tag_of(k2) ==> k1 == k2,
{
    reveal_strlit("OnChain");
    reveal_strlit("UnifiedUri");
    reveal_strlit("Invoice");
    reveal_strlit("Offer");
    reveal_strlit("PublicKey");
    reveal_strlit("LnUrl");
    reveal_strlit("LnAddress");
    reveal_strlit("NostrValue");
    assert forall|k1: Kind, k2: Kind| tag_of(k1) == tag_of(k2) implies k1 == k2 by {
        assert(tag_of(k1).len() == tag_of(k2).len());
        assert(tag_of(k1)[0] == tag_of(k2)[0]);
    }
}

} // verus!
