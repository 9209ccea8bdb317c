//! Requests that act on the player's account: store purchases and the
//! acknowledgement of reward receipts, with the credentials each carries.

use vstd::prelude::*;
use crate::anonymous_identity::{load_account_secret, opt_text, stored, LocalStorage, ACCOUNT_SECRET_STORAGE_KEY};
use crate::text::{push_text, same_text, trim_slashes_end, trim_trailing_slashes};

verus! {

/// Provider name of accounts owned by a locally stored secret.
pub const ANONYMOUS_PROVIDER: &'static str = "anonymous";

/// Most receipt ids acknowledged by one request.
pub const RECEIPT_ACK_BATCH: usize = 32;

/// Path of the receipt acknowledgement endpoint.
pub const RECEIPT_ACK_PATH: &'static str = "/profile/reward-receipts/ack";

/// The credentials an account request carries: `None` without an account,
/// or for an anonymous account whose secret is not stored; otherwise the
/// account id and, for an anonymous account, its secret.
pub open spec fn credentials_of(
    account_id: Option<Seq<char>>,
    provider: Seq<char>,
    storage: LocalStorage,
) -> Option<(Seq<char>, Option<Seq<char>>)> {
    match account_id {
        None => None,
        Some(id) => if provider == ANONYMOUS_PROVIDER@ {
            match stored(storage.items@, ACCOUNT_SECRET_STORAGE_KEY@) {
                Some(secret) => Some((id, Some(secret))),
                None => None,
            }
        } else {
            Some((id, None))
        },
    }
}

/// What a store action does.
pub enum StoreRequest {
    /// Another store action is still running: ignored.
    Busy,
    /// The account is not known yet: the profile is still loading.
    ProfileLoading,
    /// An anonymous account whose secret is not stored: set the account up.
    AccountSetupRequired,
    /// Post the action to `url` for the account, with its secret where it
    /// has one.
    Post { url: String, account_id: String, auth_secret: Option<String> },
}

/// The store action posted to `path` of the database service: ignored while
/// another runs; otherwise it needs the account id and, for an anonymous
/// account, the stored secret.
pub fn store_request(
    store_busy: bool,
    account_id: Option<&str>,
    provider: &str,
    storage: &LocalStorage,
    database_base: &str,
    path: &str,
) -> (r: StoreRequest)
    requires
        storage.wf(),
    ensures
        store_busy ==> r is Busy,
        !store_busy ==> match credentials_of(
            match account_id {
                Some(a) => Some(a@),
                None => None,
            },
            provider@,
            *storage,
        ) {
            None => if account_id is None {
                r is ProfileLoading
            } else {
                r is AccountSetupRequired
            },
            Some((id, secret)) => match r {
                StoreRequest::Post { url, account_id, auth_secret } => url@ == trim_slashes_end(database_base@)
                    + path@ && account_id@ == id && opt_text(auth_secret) == secret,
                _ => false,
            },
        },
{
    if store_busy {
        return StoreRequest::Busy;
    }
    let id = match account_id {
        Some(a) => a,
        None => {
            return StoreRequest::ProfileLoading;
        },
    };
    let auth_secret = if same_text(provider, ANONYMOUS_PROVIDER) {
        match load_account_secret(storage) {
            Some(s) => Some(s),
            None => {
                return StoreRequest::AccountSetupRequired;
            },
        }
    } else {
        None
    };
    let mut url = trim_trailing_slashes(database_base);
    push_text(&mut url, path);
    StoreRequest::Post { url, account_id: id.to_owned(), auth_secret }
}

/// The ids of batch `k`: `RECEIPT_ACK_BATCH` of them from `k * RECEIPT_ACK_BATCH`
/// on, fewer in the last batch.
pub open spec fn batch_of(ids: Seq<String>, k: int) -> Seq<String> {
    let start = k * RECEIPT_ACK_BATCH;
    let end = if start + RECEIPT_ACK_BATCH <= ids.len() { start + RECEIPT_ACK_BATCH } else { ids.len() as int };
    ids.subrange(start, end)
}

/// Number of batches that `n` ids fill.
pub open spec fn batch_count(n: nat) -> nat {
    ((n + RECEIPT_ACK_BATCH - 1) / RECEIPT_ACK_BATCH as int) as nat
}

/// Splits receipt ids into consecutive batches of `RECEIPT_ACK_BATCH`, the
/// last one possibly shorter.
pub fn receipt_batches(ids: &Vec<String>) -> (r: Vec<Vec<String>>)
    ensures
        r@.len() == batch_count(ids@.len()),
        forall|k: int| 0 <= k < r@.len() ==> #[trigger] r@[k]@ == batch_of(ids@, k),
{
    let mut batches: Vec<Vec<String>> = Vec::new();
    let mut start: usize = 0;
    while start < ids.len()
        invariant
            start <= ids.len(),
            start == if batches@.len() * RECEIPT_ACK_BATCH <= ids@.len() {
                batches@.len() * RECEIPT_ACK_BATCH
            } else {
                ids@.len() as int
            },
            batches@.len() == 0 || (batches@.len() - 1) * RECEIPT_ACK_BATCH < ids@.len(),
            forall|k: int| 0 <= k < batches@.len() ==> #[trigger] batches@[k]@ == batch_of(ids@, k),
        decreases ids.len() - start,
    {
        let end = if ids.len() - start >= RECEIPT_ACK_BATCH { start + RECEIPT_ACK_BATCH } else { ids.len() };
        let mut batch: Vec<String> = Vec::new();
        let mut i = start;
        while i < end
            invariant
                start <= i <= end <= ids.len(),
                batch@ == ids@.subrange(start as int, i as int),
            decreases end - i,
        {
            batch.push(ids[i].clone());
            assert(batch@ =~= ids@.subrange(start as int, i + 1));
            i += 1;
        }
        let ghost k = batches@.len() as int;
        assert(batch@ == batch_of(ids@, k));
        batches.push(batch);
        start = end;
    }
    proof {
        let n = ids@.len();
        let b = batches@.len();
        assert(b * RECEIPT_ACK_BATCH >= n);
        assert((b - 1) * RECEIPT_ACK_BATCH < n || b == 0);
        assert(batch_count(n) == b) by (nonlinear_arith)
            requires
                b * 32 >= n,
                b == 0 || (b - 1) * 32 < n,
                n == 0 ==> b == 0,
        {
        }
    }
    batches
}

/// An acknowledgement of reward receipts: where it goes, for which account,
/// and the ids it covers, batch by batch.
pub struct ReceiptAck {
    pub url: String,
    pub account_id: String,
    pub auth_secret: Option<String>,
    pub batches: Vec<Vec<String>>,
}

/// The acknowledgement of `receipt_ids`: `None` when the account's
/// credentials are missing (see [`credentials_of`]); otherwise the ids in
/// batches for the acknowledgement endpoint.
pub fn receipt_ack_plan(
    account_id: Option<&str>,
    provider: &str,
    storage: &LocalStorage,
    database_base: &str,
    receipt_ids: &Vec<String>,
) -> (r: Option<ReceiptAck>)
    requires
        storage.wf(),
    ensures
        match credentials_of(
            match account_id {
                Some(a) => Some(a@),
                None => None,
            },
            provider@,
            *storage,
        ) {
            None => r is None,
            Some((id, secret)) => match r {
                Some(ack) => {
                    &&& ack.url@ == trim_slashes_end(database_base@) + RECEIPT_ACK_PATH@
                    &&& ack.account_id@ == id
                    &&& opt_text(ack.auth_secret) == secret
                    &&& ack.batches@.len() == batch_count(receipt_ids@.len())
                    &&& forall|k: int| 0 <= k < ack.batches@.len() ==> #[trigger] ack.batches@[k]@ == batch_of(receipt_ids@, k)
                },
                None => false,
            },
        },
{
    let id = match account_id {
        Some(a) => a,
        None => {
            return None;
        },
    };
    let auth_secret = if same_text(provider, ANONYMOUS_PROVIDER) {
        match load_account_secret(storage) {
            Some(s) => Some(s),
            None => {
                return None;
            },
        }
    } else {
        None
    };
    let mut url = trim_trailing_slashes(database_base);
    push_text(&mut url, RECEIPT_ACK_PATH);
    let batches = receipt_batches(receipt_ids);
    Some(ReceiptAck { url, account_id: id.to_owned(), auth_secret, batches })
}

/// The first `m` batches of `ids`, in order.
pub open spec fn first_batches(ids: Seq<String>, m: nat) -> Seq<Seq<String>> {
    Seq::new(m, |k: int| batch_of(ids, k))
}

proof fn lemma_first_batches_concat(ids: Seq<String>, m: nat)
    requires
        m <= batch_count(ids.len()),
    ensures
        first_batches(ids, m).flatten_alt() == ids.subrange(
            0,
            if m * RECEIPT_ACK_BATCH <= ids.len() { m * RECEIPT_ACK_BATCH } else { ids.len() as int },
        ),
    decreases m,
{
    if m == 0 {
        assert(ids.subrange(0, 0) =~= Seq::<String>::empty());
    } else {
        let p = (m - 1) as nat;
        assert((m - 1) * 32 < ids.len()) by (nonlinear_arith)
            requires
                m <= (ids.len() + 31) / 32,
                m >= 1,
        {
        }
        lemma_first_batches_concat(ids, p);
        assert(first_batches(ids, m).drop_last() =~= first_batches(ids, p));
        assert(first_batches(ids, m).last() == batch_of(ids, p as int));
        let end = if m * RECEIPT_ACK_BATCH <= ids.len() { m * RECEIPT_ACK_BATCH } else { ids.len() as int };
        assert(ids.subrange(0, (p * 32) as int) + ids.subrange((p * 32) as int, end) =~= ids.subrange(0, end));
    }
}

/// Acknowledging receipts in batches covers every id exactly once, in
/// order: the batches of `ids`, joined, are `ids`.
pub proof fn law_batches_cover_every_id(ids: Seq<String>)
    ensures
        first_batches(ids, batch_count(ids.len())).flatten() == ids,
{
    let m = batch_count(ids.len());
    lemma_first_batches_concat(ids, m);
    first_batches(ids, m).lemma_flatten_and_flatten_alt_are_equivalent();
    assert(m * 32 >= ids.len()) by (nonlinear_arith)
        requires
            m == (ids.len() + 31) / 32,
    {
    }
    assert(ids.subrange(0, ids.len() as int) =~= ids);
}

} // verus!
