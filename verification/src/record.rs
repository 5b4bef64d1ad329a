//! The field projector and the record assembler.
//!
//! An output record is an ordered list of key/value entries: the `kind` entry
//! first, then one entry per applicable field, then — only when nostr exposure
//! was requested — the `nostr` entry. The full shape keeps every field key and
//! writes an explicit null for unset fields; the sparse shape omits them.

use vstd::prelude::*;

use crate::kinds::{kind_tag, tag_of, Kind};
use crate::payment::{Payment, PaymentView};
use crate::units::{amount_text, format_amount, Denomination};

verus! {

/// The two output shapes: every field key present with explicit nulls, or
/// only the fields that resolved to a value.
#[derive(Clone, Copy, Debug, PartialEq, Eq, Structural)]
pub enum Shape {
    Full,
    Sparse,
}

/// The dual encoding of an embedded nostr identity key.
#[derive(Debug, Clone)]
pub struct NostrEncoding {
    pub hex: String,
    pub bech32: String,
}

/// The mathematical model of a `NostrEncoding`.
pub struct NostrEncodingView {
    pub hex: Seq<char>,
    pub bech32: Seq<char>,
}

impl View for NostrEncoding {
    type V = NostrEncodingView;

    open spec fn view(&self) -> NostrEncodingView {
        NostrEncodingView { hex: self.hex@, bech32: self.bech32@ }
    }
}

impl DeepView for NostrEncoding {
    type V = NostrEncodingView;

    open spec fn deep_view(&self) -> NostrEncodingView {
        self.view()
    }
}

/// A value under a record key: an explicit null, a text value, or the
/// two-field nostr object.
#[derive(Debug, Clone)]
pub enum FieldValue {
    Null,
    Text(String),
    NostrObject(NostrEncoding),
}

/// The mathematical model of a `FieldValue`.
pub enum ValueView {
    Null,
    Text(Seq<char>),
    NostrObject(NostrEncodingView),
}

impl View for FieldValue {
    type V = ValueView;

    open spec fn view(&self) -> ValueView {
        match self {
            FieldValue::Null => ValueView::Null,
            FieldValue::Text(t) => ValueView::Text(t@),
            FieldValue::NostrObject(n) => ValueView::NostrObject(n@),
        }
    }
}

/// One key/value entry of an output record.
#[derive(Debug, Clone)]
pub struct Entry {
    pub key: String,
    pub value: FieldValue,
}

/// The mathematical model of an `Entry`.
pub struct EntryView {
    pub key: Seq<char>,
    pub value: ValueView,
}

impl View for Entry {
    type V = EntryView;

    open spec fn view(&self) -> EntryView {
        EntryView { key: self.key@, value: self.value@ }
    }
}

/// The assembled record: the `kind` entry first, then the field entries in
/// their fixed order, then the `nostr` entry where requested.
#[derive(Debug, Clone)]
pub struct OutputRecord {
    pub entries: Vec<Entry>,
}

/// The model of a list of entries: each entry replaced by its model.
pub open spec fn entries_view(s: Seq<Entry>) -> Seq<EntryView> {
    s.map_values(|e: Entry| e@)
}

impl View for OutputRecord {
    type V = Seq<EntryView>;

    open spec fn view(&self) -> Seq<EntryView> {
        entries_view(self.entries@)
    }
}

/// The projected optional fields, the amount already rendered as text in the
/// chosen denomination.
#[derive(Debug, Clone)]
pub struct ProjectedFields {
    pub network: Option<String>,
    pub address: Option<String>,
    pub invoice: Option<String>,
    pub pubkey: Option<String>,
    pub amount: Option<String>,
    pub memo: Option<String>,
    pub lnurl: Option<String>,
    pub lnaddr: Option<String>,
    pub payjoin: Option<String>,
}

/// The mathematical model of `ProjectedFields`.
pub struct ProjectedView {
    pub network: Option<Seq<char>>,
    pub address: Option<Seq<char>>,
    pub invoice: Option<Seq<char>>,
    pub pubkey: Option<Seq<char>>,
    pub amount: Option<Seq<char>>,
    pub memo: Option<Seq<char>>,
    pub lnurl: Option<Seq<char>>,
    pub lnaddr: Option<Seq<char>>,
    pub payjoin: Option<Seq<char>>,
}

impl View for ProjectedFields {
    type V = ProjectedView;

    open spec fn view(&self) -> ProjectedView {
        ProjectedView {
            network: self.network.deep_view(),
            address: self.address.deep_view(),
            invoice: self.invoice.deep_view(),
            pubkey: self.pubkey.deep_view(),
            amount: self.amount.deep_view(),
            memo: self.memo.deep_view(),
            lnurl: self.lnurl.deep_view(),
            lnaddr: self.lnaddr.deep_view(),
            payjoin: self.payjoin.deep_view(),
        }
    }
}

/// The projection of a payment under a denomination: every field passes
/// through unchanged but the amount, which renders as text in the chosen
/// denomination.
pub open spec fn projected_of(pv: PaymentView, d: Denomination) -> ProjectedView {
    ProjectedView {
        network: pv.network,
        address: pv.address,
        invoice: pv.invoice,
        pubkey: pv.pubkey,
        amount: match pv.amount_sat {
            Some(sat) => Some(amount_text(sat, d)),
            None => None,
        },
        memo: pv.memo,
        lnurl: pv.lnurl,
        lnaddr: pv.lnaddr,
        payjoin: pv.payjoin,
    }
}

/// The number of projected field slots of a record.
pub const FIELD_COUNT: usize = 9;

/// The key of the field slot at the given position.
pub open spec fn field_key(i: int) -> Seq<char> {
    if i == 0 {
        "network"@
    } else if i == 1 {
        "address"@
    } else if i == 2 {
        "invoice"@
    } else if i == 3 {
        "pubkey"@
    } else if i == 4 {
        "amount"@
    } else if i == 5 {
        "memo"@
    } else if i == 6 {
        "lnurl"@
    } else if i == 7 {
        "lnaddr"@
    } else {
        "payjoin"@
    }
}

/// The projected value of the field slot at the given position.
pub open spec fn field_val(f: ProjectedView, i: int) -> Option<Seq<char>> {
    if i == 0 {
        f.network
    } else if i == 1 {
        f.address
    } else if i == 2 {
        f.invoice
    } else if i == 3 {
        f.pubkey
    } else if i == 4 {
        f.amount
    } else if i == 5 {
        f.memo
    } else if i == 6 {
        f.lnurl
    } else if i == 7 {
        f.lnaddr
    } else {
        f.payjoin
    }
}

/// An optional text as a record value: an explicit null where absent.
pub open spec fn opt_value(v: Option<Seq<char>>) -> ValueView {
    match v {
        Some(t) => ValueView::Text(t),
        None => ValueView::Null,
    }
}

/// The entry a field slot contributes in full shape.
pub open spec fn entry_for(f: ProjectedView, i: int) -> EntryView {
    EntryView { key: field_key(i), value: opt_value(field_val(f, i)) }
}

/// The entries one optional field contributes under a shape: its value where
/// set; an explicit null only in full shape; nothing otherwise.
pub open spec fn entry_seq(shape: Shape, key: Seq<char>, v: Option<Seq<char>>) -> Seq<EntryView> {
    match v {
        Some(t) => seq![EntryView { key, value: ValueView::Text(t) }],
        None => if shape is Full {
            seq![EntryView { key, value: ValueView::Null }]
        } else {
            Seq::empty()
        },
    }
}

/// The entries of the first `n` field slots under a shape.
pub open spec fn entries_upto(f: ProjectedView, shape: Shape, n: int) -> Seq<EntryView>
    decreases n,
{
    if n <= 0 {
        Seq::empty()
    } else {
        entries_upto(f, shape, n - 1) + entry_seq(shape, field_key(n - 1), field_val(f, n - 1))
    }
}

/// The field entries of a record under a shape.
pub open spec fn spec_body(f: ProjectedView, shape: Shape) -> Seq<EntryView> {
    entries_upto(f, shape, FIELD_COUNT as int)
}

/// The `nostr` entry: present exactly where nostr exposure was requested; the
/// two-field object where a key was found, an explicit null otherwise.
pub open spec fn nostr_entries(requested: bool, slot: Option<NostrEncodingView>) -> Seq<
    EntryView,
> {
    if requested {
        seq![
            EntryView {
                key: "nostr"@,
                value: match slot {
                    Some(n) => ValueView::NostrObject(n),
                    None => ValueView::Null,
                },
            },
        ]
    } else {
        Seq::empty()
    }
}

/// The whole assembled record.
pub open spec fn spec_record(
    kind: Kind,
    f: ProjectedView,
    shape: Shape,
    nostr_requested: bool,
    slot: Option<NostrEncodingView>,
) -> Seq<EntryView> {
    seq![EntryView { key: "kind"@, value: ValueView::Text(tag_of(kind)) }] + spec_body(f, shape)
        + nostr_entries(nostr_requested, slot)
}

/// Clones an optional string, preserving its model.
fn clone_opt(o: &Option<String>) -> (r: Option<String>)
    ensures
        r.deep_view() == o.deep_view(),
{
    match o {
        Some(s) => Some(s.clone()),
        None => None,
    }
}

/// Projects the applicable fields of a payment, rendering the amount — where
/// present — as text in the given denomination. Pure: a function of its
/// inputs alone.
pub fn project_fields(p: &Payment, d: Denomination) -> (f: ProjectedFields)
    ensures
        f@ == projected_of(p@, d),
{
    ProjectedFields {
        network: clone_opt(&p.network),
        address: clone_opt(&p.address),
        invoice: clone_opt(&p.invoice),
        pubkey: clone_opt(&p.pubkey),
        amount: match &p.amount_sat {
            Some(sat) => Some(format_amount(*sat, d)),
            None => None,
        },
        memo: clone_opt(&p.memo),
        lnurl: clone_opt(&p.lnurl),
        lnaddr: clone_opt(&p.lnaddr),
        payjoin: clone_opt(&p.payjoin),
    }
}

/// Appends the entries one optional field contributes under a shape.
fn push_field(entries: &mut Vec<Entry>, shape: Shape, key: &str, v: &Option<String>)
    ensures
        entries_view(final(entries)@) == entries_view(old(entries)@) + entry_seq(
            shape,
            key@,
            v.deep_view(),
        ),
{
    match v {
        Some(t) => {
            entries.push(Entry { key: key.to_owned(), value: FieldValue::Text(t.clone()) });
        },
        None => {
            if shape == Shape::Full {
                entries.push(Entry { key: key.to_owned(), value: FieldValue::Null });
            }
        },
    }
    proof {
        assert(entries_view(final(entries)@) =~= entries_view(old(entries)@) + entry_seq(
            shape,
            key@,
            v.deep_view(),
        ));
    }
}

/// Appends the `nostr` entry exactly where nostr exposure was requested.
fn push_nostr(entries: &mut Vec<Entry>, requested: bool, nostr: &Option<NostrEncoding>)
    ensures
        entries_view(final(entries)@) == entries_view(old(entries)@) + nostr_entries(
            requested,
            nostr.deep_view(),
        ),
{
    if requested {
        let value = match nostr {
            Some(n) => FieldValue::NostrObject(
                NostrEncoding { hex: n.hex.clone(), bech32: n.bech32.clone() },
            ),
            None => FieldValue::Null,
        };
        entries.push(Entry { key: "nostr".to_owned(), value });
    }
    proof {
        assert(entries_view(final(entries)@) =~= entries_view(old(entries)@) + nostr_entries(
            requested,
            nostr.deep_view(),
        ));
    }
}

/// One assembly step: appending the entries of the next field slot extends
/// the record by that slot.
proof fn lemma_record_step(head: Seq<EntryView>, f: ProjectedView, shape: Shape, n: int)
    requires
        1 <= n,
    ensures
        head + entries_upto(f, shape, n) == (head + entries_upto(f, shape, n - 1)) + entry_seq(
            shape,
            field_key(n - 1),
            field_val(f, n - 1),
        ),
{
    assert(head + entries_upto(f, shape, n) =~= (head + entries_upto(f, shape, n - 1))
        + entry_seq(shape, field_key(n - 1), field_val(f, n - 1)));
}

/// Assembles the output record: the kind tag first, then the projected fields
/// under the shape rule, then — exactly where nostr exposure was requested —
/// the `nostr` entry, an explicit null where no key was found. Cannot fail.
pub fn assemble(
    kind: Kind,
    fields: &ProjectedFields,
    shape: Shape,
    nostr_requested: bool,
    nostr: &Option<NostrEncoding>,
) -> (rec: OutputRecord)
    ensures
        rec@ == spec_record(kind, fields@, shape, nostr_requested, nostr.deep_view()),
{
    let ghost f = fields@;
    let mut entries: Vec<Entry> = Vec::new();
    entries.push(
        Entry { key: "kind".to_owned(), value: FieldValue::Text(kind_tag(kind).to_owned()) },
    );
    let ghost head = seq![EntryView { key: "kind"@, value: ValueView::Text(tag_of(kind)) }];
    proof {
        assert(entries_view(entries@) =~= head + entries_upto(f, shape, 0));
    }
    push_field(&mut entries, shape, "network", &fields.network);
    proof {
        lemma_record_step(head, f, shape, 1);
    }
    push_field(&mut entries, shape, "address", &fields.address);
    proof {
        lemma_record_step(head, f, shape, 2);
    }
    push_field(&mut entries, shape, "invoice", &fields.invoice);
    proof {
        lemma_record_step(head, f, shape, 3);
    }
    push_field(&mut entries, shape, "pubkey", &fields.pubkey);
    proof {
        lemma_record_step(head, f, shape, 4);
    }
    push_field(&mut entries, shape, "amount", &fields.amount);
    proof {
        lemma_record_step(head, f, shape, 5);
    }
    push_field(&mut entries, shape, "memo", &fields.memo);
    proof {
        lemma_record_step(head, f, shape, 6);
    }
    push_field(&mut entries, shape, "lnurl", &fields.lnurl);
    proof {
        lemma_record_step(head, f, shape, 7);
    }
    push_field(&mut entries, shape, "lnaddr", &fields.lnaddr);
    proof {
        lemma_record_step(head, f, shape, 8);
    }
    push_field(&mut entries, shape, "payjoin", &fields.payjoin);
    proof {
        lemma_record_step(head, f, shape, 9);
        assert(entries_view(entries@) == head + entries_upto(f, shape, 9));
    }
    push_nostr(&mut entries, nostr_requested, nostr);
    OutputRecord { entries }
}

/// The entries of the first `n` field slots, characterized: the full shape
/// lists every slot in order; the sparse shape lists exactly the slots whose
/// value is set, with the same entries.
proof fn lemma_entries_upto(f: ProjectedView, n: int)
    requires
        0 <= n <= FIELD_COUNT as int,
    ensures
        entries_upto(f, Shape::Full, n).len() == n,
        forall|i: int| 0 <= i < n ==> entries_upto(f, Shape::Full, n)[i] == entry_for(f, i),
        forall|e: EntryView|
            entries_upto(f, Shape::Sparse, n).contains(e) <==> exists|i: int|
                0 <= i < n && field_val(f, i) is Some && e == entry_for(f, i),
    decreases n,
{
    if n > 0 {
        lemma_entries_upto(f, n - 1);
        let prev = entries_upto(f, Shape::Sparse, n - 1);
        let tail = entry_seq(Shape::Sparse, field_key(n - 1), field_val(f, n - 1));
        let cur = entries_upto(f, Shape::Sparse, n);
        assert(cur == prev + tail);
        assert forall|e: EntryView| cur.contains(e) implies exists|i: int|
            0 <= i < n && field_val(f, i) is Some && e == entry_for(f, i) by {
            let j = choose|j: int| 0 <= j < cur.len() && cur[j] == e;
            if j < prev.len() {
                assert(prev.contains(e));
            } else {
                assert(field_val(f, n - 1) is Some && e == entry_for(f, n - 1));
            }
        }
        assert forall|e: EntryView|
            (exists|i: int|
                0 <= i < n && field_val(f, i) is Some && e == entry_for(
                    f,
                    i,
                )) implies cur.contains(e) by {
            let i = choose|i: int| 0 <= i < n && field_val(f, i) is Some && e == entry_for(f, i);
            if i < n - 1 {
                assert(prev.contains(e));
                let j = choose|j: int| 0 <= j < prev.len() && prev[j] == e;
                assert(cur[j] == e);
            } else {
                assert(cur[prev.len() as int] == e);
            }
        }
    }
}

/// The two output shapes agree. For every projection: the full body carries
/// all nine field keys in their fixed order, one entry per slot; the sparse
/// body carries exactly the entries of the slots whose value is set, each
/// equal to its full counterpart — so the sparse shape never includes a key
/// that the full shape would have written as null, and the two shapes agree
/// on every value they both carry.
pub proof fn lemma_full_sparse_agreement(f: ProjectedView)
    ensures
        spec_body(f, Shape::Full).len() == FIELD_COUNT as int,
        forall|i: int|
            0 <= i < FIELD_COUNT as int ==> #[trigger] spec_body(f, Shape::Full)[i] == entry_for(
                f,
                i,
            ),
        forall|e: EntryView|
            spec_body(f, Shape::Sparse).contains(e) <==> exists|i: int|
                0 <= i < FIELD_COUNT as int && field_val(f, i) is Some && e == entry_for(f, i),
{
    lemma_entries_upto(f, FIELD_COUNT as int);
}

} // verus!
