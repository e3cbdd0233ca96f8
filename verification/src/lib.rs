//! Typed heterogeneous records with statically resolved field lookup.
//!
//! A record is an ordered, `HNil`-terminated chain of `Member` fields, each
//! pairing a compile-time key type with a run-time value. Looking a field up
//! by its key type is resolved by the trait system: the result type — a
//! `Value` that is present, or a `Null` that is absent — is fixed before the
//! program runs, and every step of the resolution carries a proved contract.

mod bools;
mod equal;
mod laws;
mod optional;
mod record;

pub use bools::TAnd;
pub use bools::TBool;
pub use bools::TFalse;
pub use bools::TOr;
pub use bools::TTrue;
pub use equal::TEqual;
pub use laws::lemma_absent_on_empty;
pub use laws::lemma_identity_match;
pub use laws::lemma_key_mismatch;
pub use laws::lemma_left_bias_on_duplicates;
pub use laws::lemma_matching_head_wins;
pub use laws::lemma_no_cross_key_leakage;
pub use laws::lemma_round_trip;
pub use laws::lemma_unmatched_head_skipped;
pub use laws::lemma_value_type_mismatch;
pub use laws::lemma_variant_fixed;
pub use optional::Null;
pub use optional::Optional;
pub use optional::TThen;
pub use optional::VOr;
pub use optional::Value;
pub use record::Get;
pub use record::HCons;
pub use record::HList;
pub use record::HNil;
pub use record::Member;
