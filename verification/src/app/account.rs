//! Account decisions of the client: how an account id is shown in logs,
//! which identity request is which, what to do with a profile reply, which
//! proof of identity a join carries, and when a pending reward sync retries.

use vstd::prelude::*;
use crate::collections::{views, StrMap, StrSet};
use crate::platform_identity::PlatformIdentity;
use crate::player_progress::RewardReceipt;
use crate::text::{push_char, push_text, same_text, trim_slashes_end, trim_trailing_slashes, trim_white_space, trim_ws};
use crate::ClientPhase;
use vstd::string::StringSliceAdditionalSpecFns;

verus! {

/// Milliseconds between retries of a pending reward profile sync.
pub const REWARD_PROFILE_RETRY_MS: u64 = 30_000;

/// Short form of an account id for logs: its first eight characters, or
/// `none` when there is no id or it is empty.
pub open spec fn hint_of(account_id: Option<Seq<char>>) -> Seq<char> {
    match account_id {
        Some(id) => if id.len() > 0 {
            if id.len() > 8 { id.take(8) } else { id }
        } else {
            "none"@
        },
        None => "none"@,
    }
}

/// Short form of an account id for logs.
pub fn account_hint(account_id: Option<&str>) -> (h: String)
    ensures
        h@ == hint_of(
            match account_id {
                Some(s) => Some(s@),
                None => None,
            },
        ),
{
    match account_id {
        Some(id) => {
            let n = id.unicode_len();
            if n == 0 {
                return "none".to_owned();
            }
            let k = if n > 8 { 8 } else { n };
            let mut h = String::new();
            let mut i: usize = 0;
            while i < k
                invariant
                    i <= k,
                    k <= n,
                    n == id@.len(),
                    h@ == id@.take(i as int),
                decreases k - i,
            {
                push_char(&mut h, id.get_char(i));
                assert(h@ =~= id@.take(i + 1));
                i = i + 1;
            }
            assert(n <= 8 ==> id@.take(n as int) =~= id@);
            h
        },
        None => "none".to_owned(),
    }
}

/// Next identity request id: the counter moves on by one, wrapping, and
/// skips 0 (which marks "no request").
pub fn next_identity_request_id(seq: &mut u64) -> (id: u64)
    ensures
        id != 0,
        *final(seq) == id,
        id == if *old(seq) == u64::MAX { 1 } else if *old(seq) + 1 == 0 { 1 } else { (*old(seq) + 1) as u64 },
{
    *seq = seq.wrapping_add(1);
    if *seq == 0 {
        *seq = 1;
    }
    *seq
}

/// What to do with the reply to an anonymous profile request.
#[derive(Clone, Copy, Debug, PartialEq, Eq, Structural)]
pub enum ProfileReplyAction {
    /// Store the returned account (and its secret, when one came) and load the profile.
    Loaded,
    /// The stored account id is unknown to the server: forget it and ask once
    /// more without an id, so the server issues a new account.
    RetryWithoutAccount,
    /// Report the request as failed, with the HTTP status when there was a reply.
    Failed { status: Option<u16> },
}

/// The action for a reply: no reply at all fails without status; a
/// successful reply whose account parses loads it, one that does not parse
/// fails with its status; a 404 for a stored account id that may be reset
/// retries without it; any other reply fails with its status.
pub open spec fn reply_action(
    replied: bool,
    ok: bool,
    status: u16,
    parsed: bool,
    reset_stale_id: bool,
    had_account_id: bool,
) -> ProfileReplyAction {
    if !replied {
        ProfileReplyAction::Failed { status: None }
    } else if ok {
        if parsed {
            ProfileReplyAction::Loaded
        } else {
            ProfileReplyAction::Failed { status: Some(status) }
        }
    } else if status == 404 && reset_stale_id && had_account_id {
        ProfileReplyAction::RetryWithoutAccount
    } else {
        ProfileReplyAction::Failed { status: Some(status) }
    }
}

/// Decides what to do with the reply to an anonymous profile request.
pub fn profile_reply_action(
    replied: bool,
    ok: bool,
    status: u16,
    parsed: bool,
    reset_stale_id: bool,
    had_account_id: bool,
) -> (a: ProfileReplyAction)
    ensures
        a == reply_action(replied, ok, status, parsed, reset_stale_id, had_account_id),
{
    if !replied {
        ProfileReplyAction::Failed { status: None }
    } else if ok {
        if parsed {
            ProfileReplyAction::Loaded
        } else {
            ProfileReplyAction::Failed { status: Some(status) }
        }
    } else if status == 404 && reset_stale_id && had_account_id {
        ProfileReplyAction::RetryWithoutAccount
    } else {
        ProfileReplyAction::Failed { status: Some(status) }
    }
}

/// A retry without the stored id never retries again: the request it makes
/// may not reset the id, so a second 404 fails.
pub proof fn law_stale_account_retried_once(status: u16, parsed: bool, had_account_id: bool)
    ensures
        reply_action(true, false, status, parsed, false, had_account_id) != ProfileReplyAction::RetryWithoutAccount,
{
}

/// Proof of identity a multiplayer join carries.
#[derive(Clone, Debug)]
pub struct AuthProof {
    pub provider: String,
    pub account_id: Option<String>,
    pub token: String,
}

/// A present, non-empty token.
pub open spec fn usable_token(t: Option<String>) -> bool {
    t matches Some(s) && s@.len() > 0
}

/// The join proof for an identity: none offline; for the `wou`,
/// `crazygames` and `playgames` portals their token (with the portal's
/// account id for `wou` and `playgames`), none without a token; otherwise the
/// stored anonymous account id and secret, none unless both are stored.
pub open spec fn auth_proof_of(
    is_offline: bool,
    provider: Seq<char>,
    external_id: Option<String>,
    auth_token: Option<String>,
    stored_id: Option<String>,
    stored_secret: Option<String>,
) -> Option<(Seq<char>, Option<String>, String)> {
    if is_offline {
        None
    } else if provider == "wou"@ || provider == "crazygames"@ || provider == "playgames"@ {
        if usable_token(auth_token) {
            Some((provider, if provider == "crazygames"@ { None } else { external_id }, auth_token.unwrap()))
        } else {
            None
        }
    } else {
        match (stored_id, stored_secret) {
            (Some(id), Some(secret)) => Some(("anonymous"@, Some(id), secret)),
            _ => None,
        }
    }
}

/// The proof of identity a join carries, from the platform identity and the
/// stored anonymous account id and secret.
pub fn make_auth_proof(
    is_offline: bool,
    identity: &PlatformIdentity,
    stored_account_id: Option<String>,
    stored_secret: Option<String>,
) -> (r: Option<AuthProof>)
    ensures
        match auth_proof_of(
            is_offline,
            identity.provider@,
            identity.external_id,
            identity.auth_token,
            stored_account_id,
            stored_secret,
        ) {
            None => r is None,
            Some((provider, account_id, token)) => r matches Some(p) && p.provider@ == provider
                && p.account_id == account_id && p.token == token,
        },
{
    if is_offline {
        return None;
    }
    let provider = identity.provider;
    if same_text(provider, "wou") || same_text(provider, "crazygames") || same_text(provider, "playgames") {
        let token = match &identity.auth_token {
            Some(t) => if t.as_str().unicode_len() > 0 {
                t.clone()
            } else {
                return None;
            },
            None => {
                return None;
            },
        };
        let account_id = if same_text(provider, "crazygames") {
            None
        } else {
            match &identity.external_id {
                Some(e) => Some(e.clone()),
                None => None,
            }
        };
        return Some(AuthProof { provider: provider.to_owned(), account_id, token });
    }
    match (stored_account_id, stored_secret) {
        (Some(id), Some(secret)) => Some(
            AuthProof { provider: "anonymous".to_owned(), account_id: Some(id), token: secret },
        ),
        _ => None,
    }
}

/// Headers that carry the platform identity on a profile request: the
/// platform token when there is a non-empty one, and with it the provider
/// unless the identity is the game's own site.
pub fn platform_auth_headers(identity: &PlatformIdentity) -> (r: (Option<String>, Option<String>))
    ensures
        usable_token(identity.auth_token) ==> r.0 == identity.auth_token && (if identity.provider@
            == "self"@ {
            r.1 is None
        } else {
            r.1 matches Some(p) && p@ == identity.provider@
        }),
        !usable_token(identity.auth_token) ==> r.0 is None && r.1 is None,
{
    match &identity.auth_token {
        Some(t) => {
            if t.as_str().unicode_len() == 0 {
                return (None, None);
            }
            let provider = if same_text(identity.provider, "self") {
                None
            } else {
                Some(identity.provider.to_owned())
            };
            (Some(t.clone()), provider)
        },
        None => (None, None),
    }
}

/// Whether a pending reward profile sync should fetch the profile now: there
/// are receipts to acknowledge, the main menu shows, the page is visible, no
/// profile or display-name request is in flight, and the retry time has
/// come. A due sync moves the retry time 30 s ahead.
pub fn poll_reward_profile_sync(
    pending_receipts: bool,
    phase: ClientPhase,
    page_visible: bool,
    request_in_flight: bool,
    display_name_saving: bool,
    retry_at: &mut Option<u64>,
    now: u64,
) -> (due: bool)
    requires
        now <= u64::MAX - REWARD_PROFILE_RETRY_MS,
    ensures
        due == (pending_receipts && phase == ClientPhase::MainMenu && page_visible && !request_in_flight
            && !display_name_saving && (*old(retry_at) matches Some(t) && t <= now)),
        due ==> *final(retry_at) == Some((now + REWARD_PROFILE_RETRY_MS) as u64),
        !due ==> *final(retry_at) == *old(retry_at),
{
    if !pending_receipts || phase != ClientPhase::MainMenu || !page_visible {
        return false;
    }
    let ready = match *retry_at {
        Some(t) => t <= now,
        None => false,
    };
    if request_in_flight || display_name_saving || !ready {
        return false;
    }
    *retry_at = Some(now + REWARD_PROFILE_RETRY_MS);
    true
}

/// How a rename request goes out.
#[derive(Clone, Debug)]
pub enum RenamePlan {
    /// The name is empty once trimmed: nothing happens.
    Refused,
    /// The name waits: a profile or rename request is under way, or the
    /// account is not loaded yet.
    Queued,
    /// The profile belongs to a provider whose identity is not at hand.
    CannotSave,
    /// Send rename request `request_id` for `name` with the portal identity.
    SendPlatform { request_id: u64, name: String },
    /// Send rename request `request_id` for `name` with the anonymous
    /// account's secret.
    SendAnonymous { request_id: u64, name: String, secret: String },
    /// The anonymous account's secret is missing: request `request_id` fails
    /// at once (as unauthorized).
    MissingSecret { request_id: u64 },
}

/// The portal identity can authorize a rename: a portal other than the
/// game's own site, with a non-empty account id and token.
pub open spec fn portal_authorized(identity: PlatformIdentity) -> bool {
    &&& identity.provider@ != "self"@
    &&& identity.external_id matches Some(e) && e@.len() > 0
    &&& usable_token(identity.auth_token)
}

/// How the finished tutorial is reported to the server.
#[derive(Clone, Debug)]
pub enum TutorialReport {
    /// No account is loaded, or neither a portal identity nor an account
    /// secret can authorize the report: nothing happens.
    Skip,
    /// The `tutorial` receipt is awaited, but another profile request is
    /// under way; the report follows later.
    Wait,
    /// Send report `request_id`, authorized by the portal identity (no
    /// secret) or by the account secret; the answer is a profile of
    /// `provider`.
    Send { request_id: u64, secret: Option<String>, provider: String },
}

/// A portal whose identity can authorize reports: `wou`, `crazygames` or
/// `playgames`, with a non-empty account id and token.
pub open spec fn report_portal(identity: PlatformIdentity) -> bool {
    &&& (identity.provider@ == "wou"@ || identity.provider@ == "crazygames"@ || identity.provider@
        == "playgames"@)
    &&& identity.external_id matches Some(e) && e@.len() > 0
    &&& usable_token(identity.auth_token)
}

/// Bookkeeping of the client's profile and rename requests, which answer
/// out of order.
pub struct ProfileSync {
    /// Id of the newest profile response applied.
    pub last_applied_request: u64,
    pub request_in_flight: bool,
    /// The rename request whose answer is awaited.
    pub display_name_save_request_id: Option<u64>,
    /// A profile refresh waits for the rename to settle.
    pub refresh_pending: bool,
    /// The display name the player asked for, not yet confirmed.
    pub pending_display_name: Option<String>,
}

/// What a rename acknowledgement leads to.
#[derive(Clone, Debug)]
pub enum RenameAck {
    /// Not the awaited request: ignored.
    Stale,
    /// The account changed meanwhile: the name is not taken; `refresh` says
    /// whether the waiting profile refresh starts now.
    AccountChanged { refresh: bool },
    /// The player asked for another name meanwhile: save that one now.
    Resend { name: String },
    /// The name is confirmed: show it and forget the pending one.
    Confirmed { refresh: bool },
    /// No name is waiting for confirmation: the answer changes nothing.
    NothingPending,
}

impl ProfileSync {
    /// The player asks for `display_name`. The trimmed name becomes the
    /// pending one (unless empty) and a rename request goes out when nothing
    /// else is under way and the account is loaded: with the portal identity
    /// when it can authorize it, else for an anonymous profile with the
    /// stored secret. A request takes the next identity request id.
    pub fn begin_rename(
        &mut self,
        display_name: &str,
        account_loaded: bool,
        progress_provider: &str,
        identity: &PlatformIdentity,
        stored_secret: Option<String>,
        request_seq: &mut u64,
    ) -> (plan: RenamePlan)
        ensures
            trim_ws(display_name@).len() == 0 ==> plan is Refused && final(self).pending_display_name
                == old(self).pending_display_name && final(self).display_name_save_request_id
                == old(self).display_name_save_request_id && *final(request_seq) == *old(request_seq),
            trim_ws(display_name@).len() > 0 ==> {
                let busy = old(self).request_in_flight || old(self).display_name_save_request_id is Some
                    || !account_loaded;
                let platform = portal_authorized(*identity);
                &&& (final(self).pending_display_name matches Some(n) && n@ == trim_ws(display_name@))
                &&& busy ==> plan is Queued && final(self).display_name_save_request_id == old(
                    self,
                ).display_name_save_request_id && *final(request_seq) == *old(request_seq)
                &&& !busy && !platform && progress_provider@ != "anonymous"@ ==> plan is CannotSave
                    && final(self).display_name_save_request_id == old(self).display_name_save_request_id
                    && *final(request_seq) == *old(request_seq)
                &&& !busy && (platform || progress_provider@ == "anonymous"@) ==> {
                    let id = *final(request_seq);
                    &&& id != 0
                    &&& id == if *old(request_seq) == u64::MAX { 1 } else { (*old(request_seq) + 1) as u64 }
                    &&& final(self).display_name_save_request_id == Some(id)
                    &&& platform ==> (plan matches RenamePlan::SendPlatform { request_id, name }
                        && request_id == id && name@ == trim_ws(display_name@))
                    &&& !platform ==> match stored_secret {
                        Some(sec) => plan matches RenamePlan::SendAnonymous { request_id, name, secret }
                            && request_id == id && name@ == trim_ws(display_name@) && secret == sec,
                        None => plan == RenamePlan::MissingSecret { request_id: id },
                    }
                }
            },
            final(self).last_applied_request == old(self).last_applied_request,
            final(self).request_in_flight == old(self).request_in_flight,
            final(self).refresh_pending == old(self).refresh_pending,
    {
        let name = trim_white_space(display_name);
        if name.as_str().unicode_len() == 0 {
            return RenamePlan::Refused;
        }
        self.pending_display_name = Some(name.clone());
        if self.request_in_flight || self.display_name_save_request_id.is_some() || !account_loaded {
            return RenamePlan::Queued;
        }
        let has_external = match &identity.external_id {
            Some(e) => e.as_str().unicode_len() > 0,
            None => false,
        };
        let has_token = match &identity.auth_token {
            Some(t) => t.as_str().unicode_len() > 0,
            None => false,
        };
        let platform = !same_text(identity.provider, "self") && has_external && has_token;
        if !platform && !same_text(progress_provider, "anonymous") {
            return RenamePlan::CannotSave;
        }
        let request_id = next_identity_request_id(request_seq);
        self.display_name_save_request_id = Some(request_id);
        if platform {
            return RenamePlan::SendPlatform { request_id, name };
        }
        match stored_secret {
            Some(secret) => RenamePlan::SendAnonymous { request_id, name, secret },
            None => RenamePlan::MissingSecret { request_id },
        }
    }

    /// Reports the finished tutorial: with a loaded account and an
    /// authorization (portal identity, else the stored secret) the
    /// `tutorial` receipt becomes awaited (the caller records it), and unless
    /// another profile request is under way the report goes out as the next
    /// identity request, which is then in flight.
    pub fn begin_tutorial_report(
        &mut self,
        account_loaded: bool,
        identity: &PlatformIdentity,
        stored_secret: Option<String>,
        request_seq: &mut u64,
    ) -> (r: TutorialReport)
        ensures
            ({
                let platform = report_portal(*identity);
                let authorized = platform || stored_secret is Some;
                &&& (!account_loaded || !authorized) ==> r is Skip && final(self).request_in_flight
                    == old(self).request_in_flight && *final(request_seq) == *old(request_seq)
                &&& account_loaded && authorized && old(self).request_in_flight ==> r is Wait
                    && final(self).request_in_flight && *final(request_seq) == *old(request_seq)
                &&& account_loaded && authorized && !old(self).request_in_flight ==> {
                    let id = *final(request_seq);
                    &&& id != 0
                    &&& id == if *old(request_seq) == u64::MAX { 1 } else { (*old(request_seq) + 1) as u64 }
                    &&& final(self).request_in_flight
                    &&& r matches TutorialReport::Send { request_id, secret, provider } && request_id == id
                        && secret == (if platform { None } else { stored_secret }) && provider@ == (if platform {
                        identity.provider@
                    } else {
                        "anonymous"@
                    })
                }
            }),
            final(self).last_applied_request == old(self).last_applied_request,
            final(self).display_name_save_request_id == old(self).display_name_save_request_id,
            final(self).refresh_pending == old(self).refresh_pending,
            final(self).pending_display_name == old(self).pending_display_name,
    {
        if !account_loaded {
            return TutorialReport::Skip;
        }
        let provider = identity.provider;
        let portal = same_text(provider, "wou") || same_text(provider, "crazygames") || same_text(provider, "playgames");
        let has_external = match &identity.external_id {
            Some(e) => e.as_str().unicode_len() > 0,
            None => false,
        };
        let has_token = match &identity.auth_token {
            Some(t) => t.as_str().unicode_len() > 0,
            None => false,
        };
        let platform = portal && has_external && has_token;
        let secret = if platform { None } else { stored_secret };
        if !platform && secret.is_none() {
            return TutorialReport::Skip;
        }
        if self.request_in_flight {
            return TutorialReport::Wait;
        }
        let request_id = next_identity_request_id(request_seq);
        self.request_in_flight = true;
        let provider = if platform { provider.to_owned() } else { "anonymous".to_owned() };
        TutorialReport::Send { request_id, secret, provider }
    }

    /// The tutorial report failed; the local reward stays. Answers whether
    /// the waiting profile refresh starts now.
    pub fn tutorial_report_failed(&mut self) -> (refresh: bool)
        ensures
            !final(self).request_in_flight,
            refresh == (old(self).refresh_pending && old(self).display_name_save_request_id is None),
            final(self).refresh_pending == (old(self).refresh_pending && !refresh),
            final(self).last_applied_request == old(self).last_applied_request,
            final(self).display_name_save_request_id == old(self).display_name_save_request_id,
            final(self).pending_display_name == old(self).pending_display_name,
    {
        self.request_in_flight = false;
        self.take_refresh()
    }

    /// Takes the waiting profile refresh, if any may start now (no rename is
    /// awaited).
    fn take_refresh(&mut self) -> (r: bool)
        ensures
            r == (old(self).refresh_pending && old(self).display_name_save_request_id is None),
            final(self).refresh_pending == (old(self).refresh_pending && !r),
            final(self).last_applied_request == old(self).last_applied_request,
            final(self).request_in_flight == old(self).request_in_flight,
            final(self).display_name_save_request_id == old(self).display_name_save_request_id,
            final(self).pending_display_name == old(self).pending_display_name,
    {
        if self.refresh_pending && self.display_name_save_request_id.is_none() {
            self.refresh_pending = false;
            true
        } else {
            false
        }
    }

    /// A profile response for request `request_id` arrived. Responses not
    /// newer than the last applied one are ignored (`None`); otherwise the
    /// response is applied, and the answer says whether the waiting refresh
    /// starts now.
    pub fn profile_loaded(&mut self, request_id: u64) -> (r: Option<bool>)
        ensures
            request_id <= old(self).last_applied_request ==> r is None && final(self).last_applied_request
                == old(self).last_applied_request && final(self).request_in_flight == old(self).request_in_flight
                && final(self).refresh_pending == old(self).refresh_pending,
            request_id > old(self).last_applied_request ==> final(self).last_applied_request == request_id
                && !final(self).request_in_flight && r == Some(
                old(self).refresh_pending && old(self).display_name_save_request_id is None,
            ) && final(self).refresh_pending == (old(self).refresh_pending
                && old(self).display_name_save_request_id is Some),
            final(self).display_name_save_request_id == old(self).display_name_save_request_id,
            final(self).pending_display_name == old(self).pending_display_name,
    {
        if request_id <= self.last_applied_request {
            return None;
        }
        self.request_in_flight = false;
        self.last_applied_request = request_id;
        Some(self.take_refresh())
    }

    /// The answer to rename request `request_id` for account `account_id`
    /// with name `display_name` arrived, while the client's account is
    /// `current_account`. Only the awaited request counts; for another
    /// account the name is dropped; with no name waiting nothing changes; a
    /// newer waiting name is sent again; the waiting name is confirmed.
    pub fn display_name_saved(
        &mut self,
        request_id: u64,
        account_id: &str,
        display_name: &str,
        current_account: Option<&str>,
    ) -> (r: RenameAck)
        ensures
            old(self).display_name_save_request_id != Some(request_id) ==> r is Stale && final(self).display_name_save_request_id == old(self).display_name_save_request_id
                && final(self).refresh_pending == old(self).refresh_pending && final(self).pending_display_name
                == old(self).pending_display_name,
            old(self).display_name_save_request_id == Some(request_id) ==> {
                &&& final(self).display_name_save_request_id is None
                &&& (current_account matches Some(a) && a@ == account_id@) ==> match old(self).pending_display_name {
                    Some(p) => if p@ == display_name@ {
                        r == RenameAck::Confirmed { refresh: old(self).refresh_pending }
                            && final(self).pending_display_name is None && !final(self).refresh_pending
                    } else {
                        (r matches RenameAck::Resend { name } && name@ == p@) && final(self).pending_display_name
                            == old(self).pending_display_name && final(self).refresh_pending
                            == old(self).refresh_pending
                    },
                    None => r is NothingPending && final(self).pending_display_name is None
                        && final(self).refresh_pending == old(self).refresh_pending,
                }
                &&& !(current_account matches Some(a) && a@ == account_id@) ==> r == (RenameAck::AccountChanged {
                    refresh: old(self).refresh_pending,
                }) && !final(self).refresh_pending && final(self).pending_display_name == old(self).pending_display_name
            },
            final(self).last_applied_request == old(self).last_applied_request,
            final(self).request_in_flight == old(self).request_in_flight,
    {
        if self.display_name_save_request_id != Some(request_id) {
            return RenameAck::Stale;
        }
        self.display_name_save_request_id = None;
        let same_account = match current_account {
            Some(a) => same_text(a, account_id),
            None => false,
        };
        if !same_account {
            let refresh = self.take_refresh();
            return RenameAck::AccountChanged { refresh };
        }
        let differs = match &self.pending_display_name {
            Some(p) => !same_text(p.as_str(), display_name),
            None => {
                return RenameAck::NothingPending;
            },
        };
        if differs {
            let name = match &self.pending_display_name {
                Some(p) => p.clone(),
                None => String::new(),
            };
            return RenameAck::Resend { name };
        }
        self.pending_display_name = None;
        let refresh = self.take_refresh();
        RenameAck::Confirmed { refresh }
    }

    /// Rename request `request_id` failed; the pending name is kept. `None`
    /// when it was not the awaited request; otherwise whether the waiting
    /// refresh starts now.
    pub fn display_name_save_failed(&mut self, request_id: u64) -> (r: Option<bool>)
        ensures
            old(self).display_name_save_request_id != Some(request_id) ==> r is None
                && final(self).display_name_save_request_id == old(self).display_name_save_request_id
                && final(self).refresh_pending == old(self).refresh_pending,
            old(self).display_name_save_request_id == Some(request_id) ==> final(self).display_name_save_request_id is None
                && r == Some(old(self).refresh_pending) && !final(self).refresh_pending,
            final(self).pending_display_name == old(self).pending_display_name,
            final(self).last_applied_request == old(self).last_applied_request,
            final(self).request_in_flight == old(self).request_in_flight,
    {
        if self.display_name_save_request_id != Some(request_id) {
            return None;
        }
        self.display_name_save_request_id = None;
        Some(self.take_refresh())
    }
}

/// The byte goes into a form-encoded text as itself.
pub open spec fn form_unchanged(b: u8) -> bool {
    b == 0x2a || b == 0x2d || b == 0x2e || (0x30 <= b <= 0x39) || (0x41 <= b <= 0x5a) || b == 0x5f || (0x61
        <= b <= 0x7a)
}

/// Upper-case hexadecimal digit of `d < 16`.
pub open spec fn hex_upper(d: int) -> char {
    if d < 10 {
        (('0' as int) + d) as char
    } else {
        (('A' as int) + d - 10) as char
    }
}

/// Form encoding of one byte: unchanged bytes as themselves, a space as
/// `+`, anything else as `%` and two upper-case hexadecimal digits.
pub open spec fn form_byte(b: u8) -> Seq<char> {
    if form_unchanged(b) {
        seq![b as char]
    } else if b == 0x20 {
        seq!['+']
    } else {
        seq!['%', hex_upper((b / 16) as int), hex_upper((b % 16) as int)]
    }
}

/// `application/x-www-form-urlencoded` serialization of a byte string.
pub open spec fn form_encoded(bytes: Seq<u8>) -> Seq<char>
    decreases bytes.len(),
{
    if bytes.len() == 0 {
        Seq::empty()
    } else {
        form_encoded(bytes.drop_last()) + form_byte(bytes.last())
    }
}

/// Form-encodes the UTF-8 bytes of `s` (the `url` crate's
/// `form_urlencoded::byte_serialize`, collected into a string).
///
/// Trusted: the contract states the crate's rule byte by byte: the bytes
/// `*-._`, digits and ASCII letters stay, a space becomes `+`, any other byte
/// becomes `%` and two upper-case hexadecimal digits.
#[verifier::external_body]
fn form_urlencode(s: &str) -> (r: String)
    ensures
        r@ == form_encoded(s.spec_bytes()),
{
    url::form_urlencoded::byte_serialize(s.as_bytes()).collect::<String>()
}

/// Decimal digits of `n`, without leading zeros.
pub open spec fn decimal(n: nat) -> Seq<char>
    decreases n,
{
    if n < 10 {
        seq![(('0' as nat) + n) as char]
    } else {
        decimal(n / 10).push((('0' as nat) + n % 10) as char)
    }
}

pub(crate) fn push_decimal(out: &mut String, n: u64)
    ensures
        final(out)@ == old(out)@ + decimal(n as nat),
    decreases n,
{
    if n >= 10 {
        push_decimal(out, n / 10);
    }
    let d: u8 = (n % 10) as u8;
    push_char(out, (48 + d) as char);
    proof {
        if n >= 10 {
            assert(old(out)@ + decimal((n / 10) as nat) + seq![(('0' as nat) + n % 10) as char] =~= old(
                out,
            )@ + decimal(n as nat));
        } else {
            assert(old(out)@ + seq![(('0' as nat) + n) as char] =~= old(out)@ + decimal(n as nat));
        }
    }
}

/// URL of a portal player's profile.
pub fn portal_profile_url(database_base: &str, provider: &str, external_id: &str) -> (u: String)
    ensures
        u@ == trim_slashes_end(database_base@) + "/profile?provider="@ + form_encoded(provider.spec_bytes())
            + "&external_id="@ + form_encoded(external_id.spec_bytes()),
{
    let mut u = trim_trailing_slashes(database_base);
    push_text(&mut u, "/profile?provider=");
    let p = form_urlencode(provider);
    push_text(&mut u, p.as_str());
    push_text(&mut u, "&external_id=");
    let e = form_urlencode(external_id);
    push_text(&mut u, e.as_str());
    u
}

/// URL of an account's public profile.
pub fn public_profile_url(database_base: &str, account_id: &str) -> (u: String)
    ensures
        u@ == trim_slashes_end(database_base@) + "/profiles/"@ + form_encoded(account_id.spec_bytes()),
{
    let mut u = trim_trailing_slashes(database_base);
    push_text(&mut u, "/profiles/");
    let a = form_urlencode(account_id);
    push_text(&mut u, a.as_str());
    u
}

/// URL of the next page (20 matches from `cursor`) of an account's match history.
pub fn profile_history_url(database_base: &str, account_id: &str, cursor: u64) -> (u: String)
    ensures
        u@ == trim_slashes_end(database_base@) + "/profiles/"@ + form_encoded(account_id.spec_bytes())
            + "/matches?cursor="@ + decimal(cursor as nat) + "&limit=20"@,
{
    let mut u = public_profile_url(database_base, account_id);
    push_text(&mut u, "/matches?cursor=");
    push_decimal(&mut u, cursor);
    push_text(&mut u, "&limit=20");
    u
}

/// URL of an account's season ratings.
pub fn profile_ratings_url(database_base: &str, account_id: &str) -> (u: String)
    ensures
        u@ == trim_slashes_end(database_base@) + "/profiles/"@ + form_encoded(account_id.spec_bytes())
            + "/seasons"@,
{
    let mut u = public_profile_url(database_base, account_id);
    push_text(&mut u, "/seasons");
    u
}

/// URL of a profile search for `query` (already trimmed and non-empty).
pub fn profile_search_url(database_base: &str, query: &str) -> (u: String)
    ensures
        u@ == trim_slashes_end(database_base@) + "/profiles/search?q="@ + form_encoded(query.spec_bytes())
            + "&limit=20"@,
{
    let mut u = trim_trailing_slashes(database_base);
    push_text(&mut u, "/profiles/search?q=");
    let q = form_urlencode(query);
    push_text(&mut u, q.as_str());
    push_text(&mut u, "&limit=20");
    u
}

/// URL of one match's details.
pub fn match_detail_url(database_base: &str, match_id: &str) -> (u: String)
    ensures
        u@ == trim_slashes_end(database_base@) + "/matches/"@ + form_encoded(match_id.spec_bytes()),
{
    let mut u = trim_trailing_slashes(database_base);
    push_text(&mut u, "/matches/");
    let m = form_urlencode(match_id);
    push_text(&mut u, m.as_str());
    u
}

/// How the client fetches its profile.
#[derive(Clone, Copy, Debug, PartialEq, Eq, Structural)]
pub enum ProfileFetch {
    /// A rename or another profile request is under way: refresh after it.
    Queue,
    /// Ask for the portal account's profile.
    Portal,
    /// Ask for the anonymous account's profile.
    Anonymous,
}

/// How to fetch the profile: queued behind a rename or a request in flight;
/// by portal account for the `crazygames`, `wou` and `playgames` portals
/// when the portal gives a non-empty account id; anonymously otherwise.
pub fn profile_fetch_plan(
    rename_pending: bool,
    request_in_flight: bool,
    provider: &str,
    external_id: Option<&str>,
) -> (p: ProfileFetch)
    ensures
        p == if rename_pending || request_in_flight {
            ProfileFetch::Queue
        } else if (external_id matches Some(e) && e@.len() > 0) && (provider@ == "crazygames"@ || provider@
            == "wou"@ || provider@ == "playgames"@) {
            ProfileFetch::Portal
        } else {
            ProfileFetch::Anonymous
        },
{
    if rename_pending || request_in_flight {
        return ProfileFetch::Queue;
    }
    let has_id = match external_id {
        Some(e) => e.unicode_len() > 0,
        None => false,
    };
    if has_id && (same_text(provider, "crazygames") || same_text(provider, "wou") || same_text(provider, "playgames")) {
        ProfileFetch::Portal
    } else {
        ProfileFetch::Anonymous
    }
}

/// A portal build opens the intro match at boot unless a lobby invite is
/// pending; a returning player also skips it when a private lobby is to be
/// hosted.
pub fn should_portal_auto_intro(first_game: bool, pending_join_lobby: bool, host_private_pending: bool) -> (r: bool)
    ensures
        r == if first_game { !pending_join_lobby } else { !pending_join_lobby && !host_private_pending },
{
    if first_game {
        !pending_join_lobby
    } else {
        !pending_join_lobby && !host_private_pending
    }
}

/// How a loaded profile relates to the one shown.
#[derive(Clone, Copy, Debug, PartialEq, Eq, Structural)]
pub struct ProfileSwitch {
    /// The profile is for another account than the one shown (or none was).
    pub changed: bool,
    /// It replaces another loaded account.
    pub switched: bool,
    /// Same account, but the server has not recorded the finished tutorial
    /// yet: keep the local profile and send the completion again.
    pub retry_tutorial: bool,
}

/// Classifies a loaded profile for `account_id` against the account shown.
pub fn profile_switch(
    shown_account: Option<&str>,
    account_id: &str,
    local_intro_done: bool,
    cloud_intro_done: bool,
) -> (r: ProfileSwitch)
    ensures
        r.changed == !(shown_account matches Some(a) && a@ == account_id@),
        r.switched == (r.changed && shown_account is Some),
        r.retry_tutorial == (!r.changed && local_intro_done && !cloud_intro_done),
{
    let same = match shown_account {
        Some(a) => same_text(a, account_id),
        None => false,
    };
    let changed = !same;
    ProfileSwitch {
        changed,
        switched: changed && shown_account.is_some(),
        retry_tutorial: !changed && local_intro_done && !cloud_intro_done,
    }
}

/// A pending receipt the server now shows as settled (verified replay).
pub open spec fn settled(cloud: Map<Seq<char>, RewardReceipt>, id: Seq<char>) -> bool {
    cloud.contains_key(id) && !cloud[id].pending_verification
}

/// Receipt ids whose replay the server is still verifying.
pub open spec fn unverified_ids(receipts: Map<Seq<char>, RewardReceipt>) -> Set<Seq<char>> {
    Set::new(|id: Seq<char>| exists|k: Seq<char>| #[trigger] receipts.contains_key(k) && receipts[k].pending_verification && receipts[k].id@ == id)
}

/// Settles the receipts the client waits for after a profile load: those the
/// loaded (cloud) profile shows as settled are done (returned, to report, in
/// the order the pending set lists them),
/// the rest stay pending, and every receipt of the resulting profile still
/// under verification is awaited too.
pub fn settle_pending_receipts(
    pending: &StrSet,
    cloud: &StrMap<RewardReceipt>,
    progress: &StrMap<RewardReceipt>,
) -> (r: (StrSet, Vec<String>))
    requires
        pending.wf(),
        cloud.wf(),
        progress.wf(),
    ensures
        r.0.wf(),
        r.0@ == pending@.filter(|id: Seq<char>| !settled(cloud@, id)).union(unverified_ids(progress@)),
        views(r.1@).to_set() == pending@.filter(|id: Seq<char>| settled(cloud@, id)),
        views(r.1@) == pending.listing().filter(|id: Seq<char>| settled(cloud@, id)),
{
    let ids = pending.to_vec();
    let ghost all = views(ids@);
    let mut kept = StrSet::new();
    let mut ready: Vec<String> = Vec::new();
    let mut i: usize = 0;
    while i < ids.len()
        invariant
            i <= ids@.len(),
            all == views(ids@),
            all.to_set() == pending@,
            cloud.wf(),
            kept.wf(),
            kept@ == all.take(i as int).to_set().filter(|id: Seq<char>| !settled(cloud@, id)),
            views(ready@).to_set() == all.take(i as int).to_set().filter(|id: Seq<char>| settled(cloud@, id)),
            views(ready@) == all.take(i as int).filter(|id: Seq<char>| settled(cloud@, id)),
        decreases ids@.len() - i,
    {
        let id = ids[i].clone();
        let ghost before_kept = kept@;
        let ghost before_ready = views(ready@);
        proof {
            assert(all.take(i + 1) =~= all.take(i as int).push(id@));
            all.take(i as int).lemma_push_to_set_commute(id@);
            reveal(Seq::filter);
            assert(all.take(i + 1).drop_last() =~= all.take(i as int));
        }
        let done = match cloud.get(&id) {
            Some(receipt) => !receipt.pending_verification,
            None => false,
        };
        if done {
            ready.push(id);
            proof {
                assert(views(ready@) =~= before_ready.push(views(ready@).last()));
                before_ready.lemma_push_to_set_commute(views(ready@).last());
                assert(views(ready@).to_set() =~= all.take(i + 1).to_set().filter(
                    |x: Seq<char>| settled(cloud@, x),
                ));
                assert(kept@ =~= all.take(i + 1).to_set().filter(|x: Seq<char>| !settled(cloud@, x)));
            }
        } else {
            kept.insert(id);
            proof {
                assert(kept@ =~= all.take(i + 1).to_set().filter(|x: Seq<char>| !settled(cloud@, x)));
                assert(views(ready@).to_set() =~= all.take(i + 1).to_set().filter(
                    |x: Seq<char>| settled(cloud@, x),
                ));
            }
        }
        i = i + 1;
    }
    proof {
        assert(all.take(ids@.len() as int) =~= all);
    }
    assert(views(ready@) == pending.listing().filter(|id: Seq<char>| settled(cloud@, id)));
    let ghost base = kept@;
    let keys = progress.keys();
    let mut j: usize = 0;
    while j < keys.len()
        invariant
            j <= keys@.len(),
            progress.wf(),
            views(keys@).to_set() == progress@.dom(),
            kept.wf(),
            kept@ == base.union(Set::new(
                |id: Seq<char>|
                    exists|t: int|
                        0 <= t < j && #[trigger] progress@[keys@[t]@].pending_verification
                            && progress@[keys@[t]@].id@ == id,
            )),
        decreases keys@.len() - j,
    {
        let k = &keys[j];
        proof {
            assert(views(keys@)[j as int] == keys@[j as int]@);
            assert(views(keys@).to_set().contains(keys@[j as int]@));
        }
        match progress.get(k) {
            Some(receipt) => {
                if receipt.pending_verification {
                    kept.insert(receipt.id.clone());
                }
            },
            None => {},
        }
        proof {
            assert(kept@ =~= base.union(Set::new(
                |id: Seq<char>|
                    exists|t: int|
                        0 <= t < j + 1 && #[trigger] progress@[keys@[t]@].pending_verification
                            && progress@[keys@[t]@].id@ == id,
            ))) by {
                assert forall|id: Seq<char>| kept@.contains(id) <==> base.union(Set::new(
                    |x: Seq<char>|
                        exists|t: int|
                            0 <= t < j + 1 && #[trigger] progress@[keys@[t]@].pending_verification
                                && progress@[keys@[t]@].id@ == x,
                )).contains(id) by {
                    if progress@[keys@[j as int]@].pending_verification && progress@[keys@[j as int]@].id@ == id {
                        assert(progress@[keys@[j as int]@].pending_verification);
                    }
                }
            }
        }
        j = j + 1;
    }
    proof {
        assert(kept@ =~= pending@.filter(|id: Seq<char>| !settled(cloud@, id)).union(unverified_ids(progress@))) by {
            assert forall|id: Seq<char>| #[trigger] unverified_ids(progress@).contains(id) implies Set::new(
                |x: Seq<char>|
                    exists|t: int|
                        0 <= t < keys@.len() && #[trigger] progress@[keys@[t]@].pending_verification
                            && progress@[keys@[t]@].id@ == x,
            ).contains(id) by {
                let k = choose|k: Seq<char>| #[trigger] progress@.contains_key(k) && progress@[k].pending_verification && progress@[k].id@ == id;
                assert(views(keys@).to_set().contains(k));
                let t = choose|t: int| 0 <= t < views(keys@).len() && views(keys@)[t] == k;
                assert(keys@[t]@ == k);
            }
            assert forall|id: Seq<char>| Set::new(
                |x: Seq<char>|
                    exists|t: int|
                        0 <= t < keys@.len() && #[trigger] progress@[keys@[t]@].pending_verification
                            && progress@[keys@[t]@].id@ == x,
            ).contains(id) implies #[trigger] unverified_ids(progress@).contains(id) by {
                let t = choose|t: int|
                    0 <= t < keys@.len() && #[trigger] progress@[keys@[t]@].pending_verification
                        && progress@[keys@[t]@].id@ == id;
                assert(views(keys@)[t] == keys@[t]@);
                assert(views(keys@).to_set().contains(keys@[t]@));
                assert(progress@.contains_key(keys@[t]@));
            }
        }
    }
    (kept, ready)
}

/// The display name after a profile of `account_id` with server name
/// `server_name` loads: `(pending name, whether the stored pending name is
/// dropped, name shown)`. Without a pending name in memory, a stored one is
/// taken when it belongs to no account or to this one, and dropped
/// otherwise; a pending name the server already has is done (and dropped).
pub fn pending_name_after_load(
    current: Option<String>,
    stored: Option<(Option<String>, String)>,
    account_id: &str,
    server_name: &str,
) -> (r: (Option<String>, bool, String))
    ensures
        ({
            let adopted: Option<String> = match current {
                Some(c) => Some(c),
                None => match stored {
                    Some((acc, name)) => if acc is None || (acc matches Some(a) && a@ == account_id@) {
                        Some(name)
                    } else {
                        None
                    },
                    None => None,
                },
            };
            let drop_foreign = current is None && (stored matches Some((acc, _)) && (acc matches Some(a)
                && a@ != account_id@));
            let done = adopted matches Some(n) && n@ == server_name@;
            &&& r.0 == if done { None } else { adopted }
            &&& r.1 == (drop_foreign || done)
            &&& r.2@ == match r.0 {
                Some(n) => n@,
                None => server_name@,
            }
        }),
{
    let mut drop_stored = false;
    let adopted = match current {
        Some(c) => Some(c),
        None => match stored {
            Some((acc, name)) => {
                let mine = match &acc {
                    None => true,
                    Some(a) => same_text(a.as_str(), account_id),
                };
                if mine {
                    Some(name)
                } else {
                    drop_stored = true;
                    None
                }
            },
            None => None,
        },
    };
    let done = match &adopted {
        Some(n) => same_text(n.as_str(), server_name),
        None => false,
    };
    let pending = if done {
        drop_stored = true;
        None
    } else {
        adopted
    };
    let shown = match &pending {
        Some(n) => n.clone(),
        None => server_name.to_owned(),
    };
    (pending, drop_stored, shown)
}

} // verus!
