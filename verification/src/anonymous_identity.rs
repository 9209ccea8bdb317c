//! The anonymous account identity kept in the browser's local storage: the
//! server's canonical account id, its one-time ownership secret, a pending
//! display name, and per-account lists of reward receipts still to be
//! acknowledged. The library works on its own copy of the storage; the
//! browser glue mirrors it.

use vstd::prelude::*;
use std::collections::BTreeSet;
use crate::collections::StrMap;
use crate::text::{push_text, trim_white_space, trim_ws};

verus! {

pub const ACCOUNT_ID_STORAGE_KEY: &'static str = "sow_account_id";
pub const ACCOUNT_SECRET_STORAGE_KEY: &'static str = "sow_account_secret";
pub const PENDING_DISPLAY_NAME_STORAGE_KEY: &'static str = "poki_ignore_sow_pending_display_name";
pub const PENDING_REWARD_RECEIPTS_STORAGE_PREFIX: &'static str = "sow_pending_reward_receipts_v1:";

/// Key-value storage of the browser (its local storage).
pub struct LocalStorage {
    pub items: StrMap<String>,
}

/// Stored text under `key`, when present and not empty.
pub open spec fn stored(items: Map<Seq<char>, String>, key: Seq<char>) -> Option<Seq<char>> {
    if items.contains_key(key) && items[key]@.len() > 0 {
        Some(items[key]@)
    } else {
        None
    }
}

/// View of an optional string.
pub open spec fn opt_text(s: Option<String>) -> Option<Seq<char>> {
    match s {
        Some(t) => Some(t@),
        None => None,
    }
}

impl LocalStorage {
    pub open spec fn wf(&self) -> bool {
        self.items.wf()
    }

    /// Empty storage.
    pub fn new() -> (s: Self)
        ensures
            s.wf(),
            s.items@ == Map::<Seq<char>, String>::empty(),
    {
        LocalStorage { items: StrMap::new() }
    }

    /// The text stored under `key`, as stored.
    pub fn get_item(&self, key: &str) -> (r: Option<String>)
        requires
            self.wf(),
        ensures
            match r {
                Some(v) => self.items@.contains_key(key@) && v@ == self.items@[key@]@,
                None => !self.items@.contains_key(key@),
            },
    {
        match self.items.get(&key.to_owned()) {
            Some(v) => Some(v.clone()),
            None => None,
        }
    }

    /// Stores `value` under `key`.
    pub fn set_item(&mut self, key: &str, value: &str)
        requires
            old(self).wf(),
        ensures
            final(self).wf(),
            final(self).items@.dom() == old(self).items@.dom().insert(key@),
            final(self).items@[key@]@ == value@,
            forall|k: Seq<char>| k != key@ && old(self).items@.contains_key(k) ==> final(self).items@[k]
                == old(self).items@[k],
    {
        self.items.insert(key.to_owned(), value.to_owned());
    }

    /// Removes whatever is stored under `key`.
    pub fn remove_item(&mut self, key: &str)
        requires
            old(self).wf(),
        ensures
            final(self).wf(),
            final(self).items@ == old(self).items@.remove(key@),
    {
        self.items.remove(&key.to_owned());
    }
}

fn load_storage(store: &LocalStorage, key: &str) -> (r: Option<String>)
    requires
        store.wf(),
    ensures
        opt_text(r) == stored(store.items@, key@),
{
    match store.get_item(key) {
        Some(v) => if v.as_str().unicode_len() > 0 {
            Some(v)
        } else {
            None
        },
        None => None,
    }
}

/// The stored canonical account id, if any.
pub fn load_account_id(store: &LocalStorage) -> (r: Option<String>)
    requires
        store.wf(),
    ensures
        opt_text(r) == stored(store.items@, ACCOUNT_ID_STORAGE_KEY@),
{
    load_storage(store, ACCOUNT_ID_STORAGE_KEY)
}

/// Stores the canonical account id.
pub fn save_account_id(store: &mut LocalStorage, account_id: &str)
    requires
        old(store).wf(),
    ensures
        final(store).wf(),
        final(store).items@.dom() == old(store).items@.dom().insert(ACCOUNT_ID_STORAGE_KEY@),
        final(store).items@[ACCOUNT_ID_STORAGE_KEY@]@ == account_id@,
        forall|k: Seq<char>| k != ACCOUNT_ID_STORAGE_KEY@ && old(store).items@.contains_key(k) ==> final(store).items@[k] == old(store).items@[k],
{
    store.set_item(ACCOUNT_ID_STORAGE_KEY, account_id);
}

/// Forgets the account id.
pub fn clear_account_id(store: &mut LocalStorage)
    requires
        old(store).wf(),
    ensures
        final(store).wf(),
        final(store).items@ == old(store).items@.remove(ACCOUNT_ID_STORAGE_KEY@),
{
    store.remove_item(ACCOUNT_ID_STORAGE_KEY);
}

/// The stored account ownership secret, if any.
pub fn load_account_secret(store: &LocalStorage) -> (r: Option<String>)
    requires
        store.wf(),
    ensures
        opt_text(r) == stored(store.items@, ACCOUNT_SECRET_STORAGE_KEY@),
{
    load_storage(store, ACCOUNT_SECRET_STORAGE_KEY)
}

/// Stores the account ownership secret.
pub fn save_account_secret(store: &mut LocalStorage, secret: &str)
    requires
        old(store).wf(),
    ensures
        final(store).wf(),
        final(store).items@.dom() == old(store).items@.dom().insert(ACCOUNT_SECRET_STORAGE_KEY@),
        final(store).items@[ACCOUNT_SECRET_STORAGE_KEY@]@ == secret@,
        forall|k: Seq<char>| k != ACCOUNT_SECRET_STORAGE_KEY@ && old(store).items@.contains_key(k) ==> final(store).items@[k] == old(store).items@[k],
{
    store.set_item(ACCOUNT_SECRET_STORAGE_KEY, secret);
}

/// Forgets the pending display name.
pub fn clear_pending_display_name(store: &mut LocalStorage)
    requires
        old(store).wf(),
    ensures
        final(store).wf(),
        final(store).items@ == old(store).items@.remove(PENDING_DISPLAY_NAME_STORAGE_KEY@),
{
    store.remove_item(PENDING_DISPLAY_NAME_STORAGE_KEY);
}

/// What `serde_json` reads from a JSON text as a pending display name:
/// `None` when the text is not JSON; otherwise its `account_id` and `name`
/// members, each where it is a string.
pub uninterp spec fn pending_name_json(raw: Seq<char>) -> Option<(Option<Seq<char>>, Option<Seq<char>>)>;

/// The JSON text `serde_json` writes for an object with the string members
/// `account_id` and `name`.
pub uninterp spec fn pending_name_encoded(account_id: Seq<char>, name: Seq<char>) -> Seq<char>;

/// Reads the `account_id` and `name` members of a JSON text
/// (`serde_json::from_str` into a JSON value, then each member as a string).
///
/// Trusted: the contract only names what is read, as a function of the text.
#[verifier::external_body]
fn decode_pending_name(raw: &str) -> (r: Option<(Option<String>, Option<String>)>)
    ensures
        match r {
            None => pending_name_json(raw@) is None,
            Some((a, n)) => pending_name_json(raw@) == Some((opt_text(a), opt_text(n))),
        },
{
    let value: serde_json::Value = serde_json::from_str(raw).ok()?;
    let account_id = value.get("account_id").and_then(serde_json::Value::as_str).map(str::to_string);
    let name = value.get("name").and_then(serde_json::Value::as_str).map(str::to_string);
    Some((account_id, name))
}

/// Writes an object with the string members `account_id` and `name` as JSON
/// text (`serde_json::to_string` of a JSON value).
///
/// Trusted: besides naming the text, the contract claims that the text is
/// not empty (a JSON object has braces) and that reading it back gives the
/// two strings, as serde_json writes strings losslessly. serde_json documents
/// that serializing fails only for a failing `Serialize` impl or a map with
/// non-string keys, neither of which a JSON value with string members has,
/// so the error case is unreachable.
#[verifier::external_body]
fn encode_pending_name(account_id: &str, name: &str) -> (r: String)
    ensures
        r@ == pending_name_encoded(account_id@, name@),
        r@.len() > 0,
        pending_name_json(r@) == Some((Some(account_id@), Some(name@))),
{
    let mut object = serde_json::Map::new();
    object.insert("account_id".to_string(), serde_json::Value::String(account_id.to_string()));
    object.insert("name".to_string(), serde_json::Value::String(name.to_string()));
    serde_json::to_string(&serde_json::Value::Object(object)).unwrap_or_default()
}

/// A text without surrounding whitespace, `None` when nothing is left.
pub open spec fn trimmed_nonempty(s: Option<Seq<char>>) -> Option<Seq<char>> {
    match s {
        Some(t) => if trim_ws(t).len() > 0 { Some(trim_ws(t)) } else { None },
        None => None,
    }
}

/// The pending `(account id, name)` a stored JSON text holds: the name
/// trimmed, and nothing when it is missing or blank; the account id
/// trimmed, and `None` when it is missing or blank.
pub open spec fn pending_name_of(raw: Seq<char>) -> Option<(Option<Seq<char>>, Seq<char>)> {
    match pending_name_json(raw) {
        None => None,
        Some((a, n)) => match trimmed_nonempty(n) {
            None => None,
            Some(name) => Some((trimmed_nonempty(a), name)),
        },
    }
}

/// The pending display name that storage holds (see [`pending_name_of`]).
pub open spec fn pending_in(items: Map<Seq<char>, String>) -> Option<(Option<Seq<char>>, Seq<char>)> {
    match stored(items, PENDING_DISPLAY_NAME_STORAGE_KEY@) {
        None => None,
        Some(raw) => pending_name_of(raw),
    }
}

fn trimmed_text(s: Option<String>) -> (r: Option<String>)
    ensures
        opt_text(r) == trimmed_nonempty(opt_text(s)),
{
    match s {
        Some(t) => {
            let u = trim_white_space(t.as_str());
            if u.as_str().unicode_len() > 0 {
                Some(u)
            } else {
                None
            }
        },
        None => None,
    }
}

/// The display name waiting for the server's confirmation, with the account
/// it was asked for (see [`pending_in`]).
pub fn load_pending_display_name(store: &LocalStorage) -> (r: Option<(Option<String>, String)>)
    requires
        store.wf(),
    ensures
        match r {
            None => pending_in(store.items@) is None,
            Some((a, n)) => pending_in(store.items@) == Some((opt_text(a), n@)),
        },
{
    let raw = match load_storage(store, PENDING_DISPLAY_NAME_STORAGE_KEY) {
        Some(raw) => raw,
        None => {
            return None;
        },
    };
    let (account_id, name) = match decode_pending_name(raw.as_str()) {
        Some(v) => v,
        None => {
            return None;
        },
    };
    let name = match trimmed_text(name) {
        Some(n) => n,
        None => {
            return None;
        },
    };
    Some((trimmed_text(account_id), name))
}

/// The account id a pending name is saved with: the given one, or empty.
pub open spec fn saved_account(account_id: Option<&str>) -> Seq<char> {
    match account_id {
        Some(a) => a@,
        None => Seq::empty(),
    }
}

/// `after` is storage `before` once the pending name `name` for the
/// account `account_id` is saved: its entry holds the encoded pair, which
/// reads back as the two texts, and the other entries stay.
pub open spec fn pending_name_saved(
    before: Map<Seq<char>, String>,
    after: Map<Seq<char>, String>,
    account_id: Seq<char>,
    name: Seq<char>,
) -> bool {
    let raw = pending_name_encoded(account_id, name);
    &&& after.dom() == before.dom().insert(PENDING_DISPLAY_NAME_STORAGE_KEY@)
    &&& after[PENDING_DISPLAY_NAME_STORAGE_KEY@]@ == raw
    &&& raw.len() > 0
    &&& pending_name_json(raw) == Some((Some(account_id), Some(name)))
    &&& forall|k: Seq<char>| k != PENDING_DISPLAY_NAME_STORAGE_KEY@ && before.contains_key(k) ==> after[k] == before[k]
}

/// Stores the name the player asked for, and the account it is for (empty
/// when none), until the server confirms it (see [`pending_name_saved`]).
pub fn save_pending_display_name(store: &mut LocalStorage, account_id: Option<&str>, name: &str)
    requires
        old(store).wf(),
    ensures
        final(store).wf(),
        pending_name_saved(old(store).items@, final(store).items@, saved_account(account_id), name@),
{
    let account = match account_id {
        Some(a) => a,
        None => "",
    };
    proof {
        if account_id is None {
            reveal_strlit("");
            assert(account@ =~= Seq::<char>::empty());
        }
    }
    let raw = encode_pending_name(account, name);
    store.set_item(PENDING_DISPLAY_NAME_STORAGE_KEY, raw.as_str());
}

/// The pending name a client takes up at boot: the stored one, unless it
/// was asked for an account other than the stored one.
pub open spec fn boot_pending_name(items: Map<Seq<char>, String>) -> Option<Seq<char>> {
    match pending_in(items) {
        Some((account, name)) => if account is None || account == stored(items, ACCOUNT_ID_STORAGE_KEY@) {
            Some(name)
        } else {
            None
        },
        None => None,
    }
}

/// The pending display name taken up at boot (see [`boot_pending_name`]).
pub fn boot_pending_display_name(store: &LocalStorage) -> (r: Option<String>)
    requires
        store.wf(),
    ensures
        opt_text(r) == boot_pending_name(store.items@),
{
    let stored_account = load_account_id(store);
    match load_pending_display_name(store) {
        Some((account, name)) => {
            let same = match (&account, &stored_account) {
                (None, _) => true,
                (Some(a), Some(b)) => crate::text::same_text(a.as_str(), b.as_str()),
                (Some(_), None) => false,
            };
            if same {
                Some(name)
            } else {
                None
            }
        },
        None => None,
    }
}

/// A saved pending name reads back: after a save, loading gives the name
/// trimmed (nothing when it is blank) and the account id trimmed (none
/// when it is blank).
pub proof fn law_pending_name_reads_back(
    before: Map<Seq<char>, String>,
    after: Map<Seq<char>, String>,
    account_id: Seq<char>,
    name: Seq<char>,
)
    requires
        pending_name_saved(before, after, account_id, name),
    ensures
        pending_in(after) == if trim_ws(name).len() > 0 {
            Some((trimmed_nonempty(Some(account_id)), trim_ws(name)))
        } else {
            None::<(Option<Seq<char>>, Seq<char>)>
        },
{
}

/// Storage key of an account's pending reward receipts: the account id
/// without surrounding whitespace, which must be non-empty and at most 128
/// bytes long, after the receipts prefix.
pub open spec fn receipts_key_of(account_id: Seq<char>) -> Option<Seq<char>> {
    let t = trim_ws(account_id);
    if t.len() > 0 && vstd::utf8::encode_utf8(t).len() <= 128 {
        Some(PENDING_REWARD_RECEIPTS_STORAGE_PREFIX@ + t)
    } else {
        None
    }
}

/// The storage key of an account's pending reward receipts, `None` for an
/// unusable account id.
pub fn pending_reward_receipts_storage_key(account_id: &str) -> (r: Option<String>)
    ensures
        opt_text(r) == receipts_key_of(account_id@),
{
    let t = trim_white_space(account_id);
    let ts = t.as_str();
    let chars = ts.unicode_len();
    let bytes = ts.as_bytes().len();
    if chars > 0 && bytes <= 128 {
        let mut key = PENDING_REWARD_RECEIPTS_STORAGE_PREFIX.to_owned();
        push_text(&mut key, t.as_str());
        Some(key)
    } else {
        None
    }
}

/// What `serde_json` decodes from a JSON text as a set of strings (`None`
/// when the text is not such a set).
pub uninterp spec fn receipt_ids_decoded(raw: Seq<char>) -> Option<Set<Seq<char>>>;

/// What `serde_json` encodes a set of strings as.
pub uninterp spec fn receipt_ids_encoded(ids: Set<Seq<char>>) -> Seq<char>;

/// Decodes a JSON array of strings into a set (`serde_json::from_str`).
///
/// Trusted: the contract only names the decoded set, as a function of the
/// text; what JSON serde accepts is not restated here.
#[verifier::external_body]
fn decode_receipt_ids(raw: &str) -> (r: Option<BTreeSet<String>>)
    ensures
        match r {
            Some(set) => receipt_ids_decoded(raw@) == Some(set.deep_view()),
            None => receipt_ids_decoded(raw@) is None,
        },
{
    serde_json::from_str::<BTreeSet<String>>(raw).ok()
}

/// Encodes a set of strings as a JSON array (`serde_json::to_string`).
///
/// Trusted: besides naming the text, the contract claims that decoding it
/// gives the set back, as serde_json writes strings losslessly. serde_json
/// documents that serializing fails only for a failing `Serialize` impl or
/// a map with non-string keys, neither of which a set of strings has, so
/// the error case is unreachable.
#[verifier::external_body]
fn encode_receipt_ids(ids: &BTreeSet<String>) -> (r: String)
    ensures
        r@ == receipt_ids_encoded(ids.deep_view()),
        receipt_ids_decoded(r@) == Some(ids.deep_view()),
{
    serde_json::to_string(ids).unwrap_or_default()
}

/// The receipt ids that storage holds for an account: the decoded list
/// under the account's key, empty when the account id is unusable or the
/// list is missing or unreadable.
pub open spec fn receipts_in(items: Map<Seq<char>, String>, account_id: Seq<char>) -> Set<Seq<char>> {
    match receipts_key_of(account_id) {
        None => Set::<Seq<char>>::empty(),
        Some(key) => if items.contains_key(key) {
            match receipt_ids_decoded(items[key]@) {
                Some(ids) => ids,
                None => Set::<Seq<char>>::empty(),
            }
        } else {
            Set::<Seq<char>>::empty()
        },
    }
}

/// Receipt ids an account still has to acknowledge (see [`receipts_in`]).
pub fn load_pending_reward_receipt_ids(store: &LocalStorage, account_id: &str) -> (r: BTreeSet<String>)
    requires
        store.wf(),
    ensures
        r.deep_view() == receipts_in(store.items@, account_id@),
{
    let key = match pending_reward_receipts_storage_key(account_id) {
        Some(k) => k,
        None => {
            let empty = BTreeSet::new();
            assert(empty.deep_view() =~= Set::<Seq<char>>::empty());
            return empty;
        },
    };
    let empty = BTreeSet::new();
    assert(empty.deep_view() =~= Set::<Seq<char>>::empty());
    match store.get_item(key.as_str()) {
        Some(raw) => match decode_receipt_ids(raw.as_str()) {
            Some(ids) => ids,
            None => empty,
        },
        None => empty,
    }
}

/// `after` is storage `before` once the receipt ids `ids` of `account_id`
/// are saved: nothing changes for an unusable account id; an empty list
/// removes the account's entry; otherwise the entry holds the encoded ids,
/// which decode back to `ids`, and the other entries stay.
pub open spec fn receipts_saved(
    before: Map<Seq<char>, String>,
    after: Map<Seq<char>, String>,
    account_id: Seq<char>,
    ids: Set<Seq<char>>,
) -> bool {
    match receipts_key_of(account_id) {
        None => after == before,
        Some(key) => if ids.is_empty() {
            after == before.remove(key)
        } else {
            let raw = receipt_ids_encoded(ids);
            &&& after.dom() == before.dom().insert(key)
            &&& after[key]@ == raw
            &&& receipt_ids_decoded(raw) == Some(ids)
            &&& forall|k: Seq<char>| k != key && before.contains_key(k) ==> after[k] == before[k]
        },
    }
}

/// Stores the receipt ids an account still has to acknowledge under the
/// account's key (see [`receipts_saved`]).
pub fn save_pending_reward_receipt_ids(store: &mut LocalStorage, account_id: &str, receipt_ids: &BTreeSet<String>)
    requires
        old(store).wf(),
    ensures
        final(store).wf(),
        receipts_saved(old(store).items@, final(store).items@, account_id@, receipt_ids.deep_view()),
{
    let key = match pending_reward_receipts_storage_key(account_id) {
        Some(k) => k,
        None => {
            return;
        },
    };
    if receipt_ids.is_empty() {
        proof {
            assert(receipt_ids.deep_view() =~= Set::<Seq<char>>::empty());
        }
        store.remove_item(key.as_str());
        return;
    }
    let raw = encode_receipt_ids(receipt_ids);
    store.set_item(key.as_str(), raw.as_str());
    proof {
        assert(!receipt_ids@.is_empty());
        let x = choose|x: String| receipt_ids@.contains(x);
        assert(receipt_ids.deep_view().contains(x.deep_view()));
    }
}

/// Saved receipt ids read back: after the ids of an account are saved,
/// loading them for any account id that trims to the same usable id gives
/// those ids (none, after an empty list was saved).
pub proof fn law_saved_receipts_read_back(
    before: Map<Seq<char>, String>,
    after: Map<Seq<char>, String>,
    saved_for: Seq<char>,
    loaded_for: Seq<char>,
    ids: Set<Seq<char>>,
)
    requires
        receipts_saved(before, after, saved_for, ids),
        receipts_key_of(saved_for) is Some,
        trim_ws(loaded_for) == trim_ws(saved_for),
    ensures
        receipts_in(after, loaded_for) == ids,
{
    if ids.is_empty() {
        assert(ids =~= Set::<Seq<char>>::empty());
    }
}

/// What is saved is read back: after an account id is saved, loading it
/// gives that id (unless it is empty, which reads as no id), and saving
/// another key leaves it as it was.
pub proof fn law_saved_account_id_reads_back(
    before: Map<Seq<char>, String>,
    after: Map<Seq<char>, String>,
    key: Seq<char>,
    value: Seq<char>,
    other: Seq<char>,
)
    requires
        after.dom() == before.dom().insert(key),
        after[key]@ == value,
        forall|k: Seq<char>| k != key && before.contains_key(k) ==> after[k] == before[k],
    ensures
        stored(after, key) == if value.len() > 0 { Some(value) } else { None::<Seq<char>> },
        other != key ==> stored(after, other) == stored(before, other),
{
    if other != key {
        if before.contains_key(other) {
            assert(after.contains_key(other));
        } else {
            assert(!after.dom().contains(other));
        }
    }
}

} // verus!
