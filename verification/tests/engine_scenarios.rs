//! End-to-end scenarios for the engine: one query string in, one record or
//! one typed error out.

use waila::engine::{analyze, Options};
use waila::errors::Error;
use waila::record::{FieldValue, OutputRecord, Shape};

const SAMPLE_ADDRESS: &str = "1andreas3batLhQa2FawWjeyjCqyBzypd";
const SAMPLE_INVOICE: &str = "lnbc20m1pvjluezsp5zyg3zyg3zyg3zyg3zyg3zyg3zyg3zyg3zyg3zyg3zyg3zyg3zygspp5qqqsyqcyq5rqwzqfqqqsyqcyq5rqwzqfqqqsyqcyq5rqwzqfqypqhp58yjmdan79s6qqdhdzgynm4zwqd5d7xmw5fk98klysy043l2ahrqsfpp3qjmp7lwpagxun9pygexvgpjdc4jdj85fr9yq20q82gphp2nflc7jtzrcazrra7wwgzxqc8u7754cdlpfrmccae92qgzqvzq2ps8pqqqqqqpqqqqq9qqqvpeuqafqxu92d8lr6fvg0r5gv0heeeqgcrqlnm6jhphu9y00rrhy4grqszsvpcgpy9qqqqqqgqqqqq7qqzq9qrsgqdfjcdk6w3ak5pca9hwfwfh63zrrz06wwfya0ydlzpgzxkn5xagsqz7x9j4jwe7yj7vaf2k9lqsdk45kts2fd0fkr28am0u4w95tt2nsq76cqw0";
const SAMPLE_NPUB: &str = "npub1u8lnhlw5usp3t9vmpz60ejpyt649z33hu82wc2hpv6m5xdqmuxhs46turz";
const SAMPLE_NOSTR_HEX: &str = "e1ff3bfdd4e40315959b08b4fcc8245eaa514637e1d4ec2ae166b743341be1af";

fn sparse_opts() -> Options {
    Options { shape: Shape::Sparse, nostr: false, reject_unrequested_nostr: true }
}

fn full_opts() -> Options {
    Options { shape: Shape::Full, nostr: false, reject_unrequested_nostr: true }
}

fn get(rec: &OutputRecord, key: &str) -> Option<FieldValue> {
    rec.entries.iter().find(|e| e.key == key).map(|e| e.value.clone())
}

fn text_of(v: &FieldValue) -> String {
    match v {
        FieldValue::Text(t) => t.clone(),
        _ => panic!("expected a text value"),
    }
}

fn keys_of(rec: &OutputRecord) -> Vec<String> {
    rec.entries.iter().map(|e| e.key.clone()).collect()
}

#[test]
fn unrecognized_string_is_a_parse_failure() {
    let r = analyze("notabitcoinstring", "sat", sparse_opts());
    match r {
        Err(Error::ParseFailure) => {}
        _ => panic!("expected a parse failure"),
    }
    assert_eq!(Error::ParseFailure.message(), "not a known bitcoin string");
}

#[test]
fn onchain_address_sparse_record() {
    let rec = analyze(SAMPLE_ADDRESS, "sat", sparse_opts()).unwrap();
    assert_eq!(
        keys_of(&rec),
        vec!["kind".to_string(), "network".to_string(), "address".to_string()]
    );
    assert_eq!(text_of(&get(&rec, "kind").unwrap()), "OnChain");
    assert_eq!(text_of(&get(&rec, "network").unwrap()), "bitcoin");
    assert_eq!(text_of(&get(&rec, "address").unwrap()), SAMPLE_ADDRESS);
}

#[test]
fn invoice_full_record_in_bitcoin_denomination() {
    let rec = analyze(SAMPLE_INVOICE, "btc", full_opts()).unwrap();
    assert_eq!(
        keys_of(&rec),
        vec![
            "kind".to_string(),
            "network".to_string(),
            "address".to_string(),
            "invoice".to_string(),
            "pubkey".to_string(),
            "amount".to_string(),
            "memo".to_string(),
            "lnurl".to_string(),
            "lnaddr".to_string(),
            "payjoin".to_string(),
        ]
    );
    assert_eq!(text_of(&get(&rec, "kind").unwrap()), "Invoice");
    assert_eq!(text_of(&get(&rec, "amount").unwrap()), "0.02 BTC");
    assert_eq!(text_of(&get(&rec, "network").unwrap()), "bitcoin");
    assert_eq!(
        text_of(&get(&rec, "pubkey").unwrap()),
        "03e7156ae33b0a208d0744199163177e909e80176e55d97a2f221ede0f934dd9ad"
    );
    // the invoice carries a fallback on-chain address
    assert_eq!(text_of(&get(&rec, "address").unwrap()), "1RustyRX2oai4EYYDpQGWvEL62BBGqN9T");
    // this invoice describes its purpose by hash only, so no memo applies
    assert!(matches!(get(&rec, "memo").unwrap(), FieldValue::Null));
    assert!(matches!(get(&rec, "lnurl").unwrap(), FieldValue::Null));
    assert!(matches!(get(&rec, "lnaddr").unwrap(), FieldValue::Null));
    assert!(matches!(get(&rec, "payjoin").unwrap(), FieldValue::Null));
}

#[test]
fn nostr_identity_record_decodes_to_the_same_key() {
    let opts = Options { shape: Shape::Sparse, nostr: true, reject_unrequested_nostr: true };
    let rec = analyze(SAMPLE_NPUB, "sat", opts).unwrap();
    assert_eq!(text_of(&get(&rec, "kind").unwrap()), "NostrValue");
    let enc = match get(&rec, "nostr").unwrap() {
        FieldValue::NostrObject(enc) => enc,
        _ => panic!("expected the two-field nostr object"),
    };
    assert_eq!(enc.hex, SAMPLE_NOSTR_HEX);
    assert_eq!(enc.bech32, SAMPLE_NPUB);
    // round trip: both encodings name the same underlying key bytes
    let from_hex = nostr::key::PublicKey::from_hex(&enc.hex).unwrap();
    let from_bech32 =
        <nostr::key::PublicKey as nostr::nips::nip19::FromBech32>::from_bech32(&enc.bech32)
            .unwrap();
    assert_eq!(from_hex.to_bytes(), from_bech32.to_bytes());
}

#[test]
fn unrequested_nostr_identity_is_rejected_under_the_policy() {
    let r = analyze(SAMPLE_NPUB, "sat", sparse_opts());
    assert!(matches!(r, Err(Error::ParseFailure)));
}

#[test]
fn unrequested_nostr_identity_passes_without_the_policy() {
    let opts = Options { shape: Shape::Sparse, nostr: false, reject_unrequested_nostr: false };
    let rec = analyze(SAMPLE_NPUB, "sat", opts).unwrap();
    assert_eq!(text_of(&get(&rec, "kind").unwrap()), "NostrValue");
    assert!(get(&rec, "nostr").is_none());
}

#[test]
fn nostr_exposure_without_identity_key_is_an_explicit_null() {
    let opts = Options { shape: Shape::Sparse, nostr: true, reject_unrequested_nostr: true };
    let rec = analyze(SAMPLE_ADDRESS, "sat", opts).unwrap();
    assert!(matches!(get(&rec, "nostr").unwrap(), FieldValue::Null));
}

fn value_eq(a: &FieldValue, b: &FieldValue) -> bool {
    match (a, b) {
        (FieldValue::Null, FieldValue::Null) => true,
        (FieldValue::Text(x), FieldValue::Text(y)) => x == y,
        (FieldValue::NostrObject(x), FieldValue::NostrObject(y)) => {
            x.hex == y.hex && x.bech32 == y.bech32
        }
        _ => false,
    }
}

fn record_eq(a: &OutputRecord, b: &OutputRecord) -> bool {
    a.entries.len() == b.entries.len()
        && a.entries
            .iter()
            .zip(b.entries.iter())
            .all(|(x, y)| x.key == y.key && value_eq(&x.value, &y.value))
}

#[test]
fn engine_is_idempotent_on_identical_input() {
    for unit in ["btc", "mbtc", "sat", "msat"] {
        let r1 = analyze(SAMPLE_INVOICE, unit, full_opts()).unwrap();
        let r2 = analyze(SAMPLE_INVOICE, unit, full_opts()).unwrap();
        assert!(record_eq(&r1, &r2));
    }
}

#[test]
fn sparse_entries_match_the_full_record() {
    let full = analyze(SAMPLE_INVOICE, "sat", full_opts()).unwrap();
    let sparse = analyze(SAMPLE_INVOICE, "sat", sparse_opts()).unwrap();
    assert_eq!(keys_of(&full).len(), 10);
    for e in &sparse.entries {
        assert!(!matches!(e.value, FieldValue::Null));
        let in_full = get(&full, &e.key).unwrap();
        assert!(value_eq(&e.value, &in_full));
    }
    for e in &full.entries {
        if !matches!(e.value, FieldValue::Null) {
            assert!(get(&sparse, &e.key).is_some());
        }
    }
}
