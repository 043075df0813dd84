//! A minimal per-account memo ledger for a deterministic contract runtime,
//! with a native-value transfer primitive.
//!
//! The ledger maps an account identity to the ordered sequence of memo
//! records ever appended for it; records are immutable and never removed.
//! Durable storage, caller-identity resolution and value settlement are
//! supplied by the host runtime and consumed through narrow interfaces.

mod host;
mod ledger;
mod record;

pub use host::account_id_valid;
pub use host::ledger_contents;
pub use ledger::appended;
pub use ledger::appended_all;
pub use ledger::lemma_append_extends_own_memos;
pub use ledger::lemma_append_preserves_other_accounts;
pub use ledger::lemma_appends_in_call_order;
pub use ledger::lemma_empty_ledger_has_no_memos;
pub use ledger::memos_in;
pub use ledger::transfer_decision;
pub use ledger::DeCash;
pub use ledger::LedgerView;
pub use ledger::TransferError;
pub use record::combined_record;
pub use record::make_record;
