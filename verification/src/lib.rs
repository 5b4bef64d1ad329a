pub mod engine;
pub mod errors;
pub mod kinds;
pub mod nostr_keys;
pub mod payment;
pub mod record;
pub mod text;
pub mod units;
