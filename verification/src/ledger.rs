//! The per-account memo ledger and the native-value transfer entry points.

use vstd::prelude::*;

use crate::host::account_balance;
use crate::host::account_id_valid;
use crate::host::ledger_contains;
use crate::host::ledger_contents;
use crate::host::ledger_get;
use crate::host::ledger_insert;
use crate::host::ledger_new;
use crate::host::parse_account_id;
use crate::host::promise_transfer;
use crate::host::signer_account_id;
use crate::host::MemoMap;
use crate::record::combined_record;
use crate::record::make_record;

verus! {

/// The mathematical state of the ledger: each account that has history maps
/// to its records, oldest first; accounts without history are absent.
pub type LedgerView = Map<Seq<char>, Seq<Seq<char>>>;

/// The memo history of `account` in ledger state `m`: its stored records,
/// or the empty sequence when the account has none.
pub open spec fn memos_in(m: LedgerView, account: Seq<char>) -> Seq<Seq<char>> {
    if m.contains_key(account) {
        m[account]
    } else {
        Seq::empty()
    }
}

/// The ledger state after one record `rec` is appended for `account`:
/// that account's history grows by `rec` at the end, every other entry of
/// the ledger stays as it was.
pub open spec fn appended(m: LedgerView, account: Seq<char>, rec: Seq<char>) -> LedgerView {
    m.insert(account, memos_in(m, account).push(rec))
}

/// The outcome `transfer_money` owes for a request against a valid or
/// invalid target and the contract balance at the time of the call.
pub open spec fn transfer_decision(target_valid: bool, balance: u128, amount: u128) -> Result<
    (),
    TransferError,
> {
    if !target_valid {
        Err(TransferError::InvalidRecipient)
    } else if amount > balance {
        Err(TransferError::InsufficientBalance)
    } else {
        Ok(())
    }
}

/// Why a transfer request was refused. A refused call commits nothing: the
/// ledger is untouched and no value moves.
#[derive(Clone, Copy, Debug, PartialEq, Eq, Structural)]
pub enum TransferError {
    /// The requested amount exceeds the contract's available balance.
    InsufficientBalance,
    /// The target is not an account identity the host can resolve.
    InvalidRecipient,
}

/// The contract: an append-only, account-keyed memo ledger in durable
/// storage, plus a transfer primitive drawing on the contract balance.
pub struct DeCash {
    memo: MemoMap,
}

impl View for DeCash {
    type V = LedgerView;

    closed spec fn view(&self) -> LedgerView {
        ledger_contents(self.memo)
    }
}

impl Default for DeCash {
    /// At first use the ledger is empty: no account has history yet.
    fn default() -> (r: Self)
        ensures
            (r@ == Map::<Seq<char>, Seq<Seq<char>>>::empty()),
    {
        DeCash { memo: ledger_new("memo") }
    }
}

impl DeCash {
    /// The memo history this contract state holds for `account`.
    pub open spec fn memos_of(self, account: Seq<char>) -> Seq<Seq<char>> {
        memos_in(self@, account)
    }

    /// Appends the combined record built from `memo_text` and `price` to
    /// `caller`'s history. Exactly one key of the ledger changes; the new
    /// record lands at the end and nothing already stored moves.
    ///
    /// The whole per-account sequence is rewritten on every append, so one
    /// append costs time proportional to the account's current history.
    pub fn append_memo_for(&mut self, caller: &String, memo_text: String, price: String)
        ensures
            (final(self)@ == appended(old(self)@, caller@, combined_record(memo_text@, price@))),
    {
        let rec = make_record(memo_text, price);
        let ghost rec_view = rec@;
        let contains_user = ledger_contains(&self.memo, caller);

        if contains_user {
            let mut temp_list = match ledger_get(&self.memo, caller) {
                Some(x) => x,
                None => Vec::new(),
            };
            let ghost stored = temp_list.deep_view();
            temp_list.push(rec);
            proof {
                assert(temp_list.deep_view() =~= stored.push(rec_view));
            }
            ledger_insert(&mut self.memo, caller, &temp_list);
        } else {
            let mut fresh_vec: Vec<String> = Vec::new();
            fresh_vec.push(rec);
            proof {
                assert(fresh_vec.deep_view() =~= Seq::<Seq<char>>::empty().push(rec_view));
            }
            ledger_insert(&mut self.memo, caller, &fresh_vec);
        }
    }

    /// Appends a record for whoever signed the current call: the host
    /// resolves the caller identity, and the ledger changes exactly as an
    /// `append_memo_for` that caller would change it.
    pub fn add_memo(&mut self, memo_text: String, price: String)
        ensures
            (exists|caller: Seq<char>|
                final(self)@ == appended(
                    old(self)@,
                    caller,
                    combined_record(memo_text@, price@),
                )),
    {
        let caller = signer_account_id();
        let ghost caller_view = caller@;
        self.append_memo_for(&caller, memo_text, price);
        proof {
            assert(self@ == appended(old(self)@, caller_view, combined_record(memo_text@, price@)));
        }
    }

    /// Returns `user`'s full memo history, oldest record first, and the
    /// empty sequence for an account with no history — never an error. The
    /// result is a pure function of the ledger state, and the state is not
    /// touched, so repeated calls return the same records.
    pub fn get_memos(&self, user: String) -> (r: Vec<String>)
        ensures
            (r.deep_view() == self.memos_of(user@)),
    {
        match ledger_get(&self.memo, &user) {
            Some(x) => x,
            None => {
                let no_history: Vec<String> = Vec::new();
                proof {
                    assert(no_history.deep_view() =~= Seq::<Seq<char>>::empty());
                }
                no_history
            },
        }
    }

    /// Requests a native transfer of `amount` yoctoNEAR from the contract
    /// balance to `account_id`. The ledger is never touched. The call is
    /// refused — and then nothing moves — exactly when the target is not a
    /// valid account or the amount exceeds the balance the host reports;
    /// otherwise the transfer is handed to the host for settlement.
    pub fn transfer_money(&mut self, account_id: String, amount: u128) -> (r: Result<
        (),
        TransferError,
    >)
        ensures
            (final(self)@ == old(self)@),
            (exists|balance: u128|
                r == transfer_decision(account_id_valid(account_id@), balance, amount)),
            ((r == Result::<(), TransferError>::Err(TransferError::InvalidRecipient))
                <==> !account_id_valid(account_id@)),
    {
        match parse_account_id(&account_id) {
            None => {
                proof {
                    assert(Result::<(), TransferError>::Err(TransferError::InvalidRecipient)
                        == transfer_decision(account_id_valid(account_id@), 0u128, amount));
                }
                Err(TransferError::InvalidRecipient)
            },
            Some(target) => {
                let balance: u128 = account_balance();
                if amount > balance {
                    proof {
                        assert(Result::<(), TransferError>::Err(TransferError::InsufficientBalance)
                            == transfer_decision(account_id_valid(account_id@), balance, amount));
                    }
                    Err(TransferError::InsufficientBalance)
                } else {
                    promise_transfer(target, amount);
                    proof {
                        assert(Result::<(), TransferError>::Ok(())
                            == transfer_decision(account_id_valid(account_id@), balance, amount));
                    }
                    Ok(())
                }
            },
        }
    }
}

/// An account with no prior append has no memos: in the empty ledger every
/// account's history is the empty sequence.
pub proof fn lemma_empty_ledger_has_no_memos(l: LedgerView, account: Seq<char>)
    requires
        (l == Map::<Seq<char>, Seq<Seq<char>>>::empty()),
    ensures
        memos_in(l, account) == Seq::<Seq<char>>::empty(),
{
    assert(!l.contains_key(account));
}

/// One append extends exactly the appending account's history: the new
/// record stands at the end and everything stored before it stays in place.
pub proof fn lemma_append_extends_own_memos(l: LedgerView, account: Seq<char>, rec: Seq<char>)
    ensures
        memos_in(appended(l, account, rec), account) == memos_in(l, account).push(rec),
{
}

/// The ledger state after the records `recs` are appended for `account`,
/// one call per record, in the order the sequence gives them.
pub open spec fn appended_all(m: LedgerView, account: Seq<char>, recs: Seq<Seq<char>>) -> LedgerView
    decreases recs.len(),
{
    if recs.len() == 0 {
        m
    } else {
        appended(appended_all(m, account, recs.drop_last()), account, recs.last())
    }
}

/// Records appear in call order: any sequence of appends for one account
/// leaves its history extended by exactly those records, earliest call
/// first, with everything stored before them still in place.
pub proof fn lemma_appends_in_call_order(l: LedgerView, account: Seq<char>, recs: Seq<Seq<char>>)
    ensures
        memos_in(appended_all(l, account, recs), account) == memos_in(l, account) + recs,
    decreases recs.len(),
{
    if recs.len() == 0 {
        assert(memos_in(l, account) + recs =~= memos_in(l, account));
    } else {
        lemma_appends_in_call_order(l, account, recs.drop_last());
        assert((memos_in(l, account) + recs.drop_last()).push(recs.last()) =~= memos_in(l, account)
            + recs);
    }
}

/// An append for one account never modifies another account's memos.
pub proof fn lemma_append_preserves_other_accounts(
    l: LedgerView,
    account: Seq<char>,
    rec: Seq<char>,
    other: Seq<char>,
)
    requires
        account != other,
    ensures
        memos_in(appended(l, account, rec), other) == memos_in(l, other),
{
}

} // verus!
