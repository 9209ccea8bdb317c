//! Product analytics queue: a bounded queue of named events that is flushed
//! in batches to the database's ingest endpoint. Failures never affect
//! gameplay: a rejected batch goes back to the front of the queue, and the
//! queue drops its oldest events rather than grow past its cap. Portal builds
//! for Poki record nothing here.

use vstd::prelude::*;
use crate::text::{push_char, push_text, trim_slashes_end, trim_trailing_slashes};

verus! {

/// Milliseconds between regular flushes.
pub const FLUSH_INTERVAL_MS: u64 = 10_000;
/// Queue length at which a flush is forced.
pub const FLUSH_THRESHOLD: usize = 20;
/// Largest batch sent in one request.
pub const MAX_BATCH: usize = 100;
/// Largest number of queued events.
pub const MAX_QUEUED: usize = 200;

/// Envelope fields sent with every event.
#[derive(Clone, Debug)]
pub struct AnalyticsConfig {
    pub endpoint: String,
    pub portal: String,
    pub platform: String,
    pub build: String,
    pub locale: String,
    pub session_id: String,
}

/// One queued event; `props` is its JSON object text, absent when the event
/// has no properties.
#[derive(Clone, Debug)]
pub struct QueueEntry {
    pub name: String,
    pub ts_ms: u64,
    pub props: Option<String>,
}

/// The shape of a JSON value, as far as event properties care.
#[derive(Clone, Copy, Debug, PartialEq, Eq, Structural)]
pub enum PropsShape {
    Null,
    /// An object with this many members.
    Object(usize),
    /// Any other value.
    Other,
}

/// The shape of the JSON value `serde_json` reads from a text (`None` when
/// the text is not JSON).
pub uninterp spec fn json_props_shape(text: Seq<char>) -> Option<PropsShape>;

/// Reads a JSON text and tells its value's shape (`serde_json::from_str`
/// into a JSON value).
///
/// Trusted: the contract only names the shape, as a function of the text.
#[verifier::external_body]
fn props_shape(text: &str) -> (r: Option<PropsShape>)
    ensures
        r == json_props_shape(text@),
{
    match serde_json::from_str::<serde_json::Value>(text) {
        Ok(serde_json::Value::Null) => Some(PropsShape::Null),
        Ok(serde_json::Value::Object(members)) => Some(PropsShape::Object(members.len())),
        Ok(_) => Some(PropsShape::Other),
        Err(_) => None,
    }
}

/// Properties worth sending: JSON that is neither null nor an empty object.
pub open spec fn props_kept(shape: Option<PropsShape>) -> bool {
    match shape {
        None => false,
        Some(PropsShape::Null) => false,
        Some(PropsShape::Object(n)) => n > 0,
        Some(PropsShape::Other) => true,
    }
}

/// The properties an event carries, as JSON text: dropped when they are
/// null, an empty object or not JSON at all, kept as they are otherwise.
pub fn queued_props(props: &str) -> (r: Option<String>)
    ensures
        r is None <==> !props_kept(json_props_shape(props@)),
        r matches Some(t) ==> t@ == props@,
{
    if props_kept_exec(props_shape(props)) {
        Some(props.to_owned())
    } else {
        None
    }
}

fn props_kept_exec(shape: Option<PropsShape>) -> (r: bool)
    ensures
        r == props_kept(shape),
{
    match shape {
        None => false,
        Some(PropsShape::Null) => false,
        Some(PropsShape::Object(n)) => n > 0,
        Some(PropsShape::Other) => true,
    }
}

/// The analytics state of a client.
pub struct Analytics {
    /// This is a Poki build: nothing is recorded.
    pub portal_is_poki: bool,
    pub config: Option<AnalyticsConfig>,
    pub queue: Vec<QueueEntry>,
    pub last_flush_ms: u64,
    pub gameplay_active: bool,
}

/// Ingest endpoint for a database base URL: trailing slashes dropped, then
/// `/event`.
pub open spec fn endpoint_for(base: Seq<char>) -> Seq<char> {
    trim_slashes_end(base) + "/event"@
}

/// Queue after recording `e` on `q`: the oldest event is dropped when the
/// queue is full.
pub open spec fn pushed(q: Seq<QueueEntry>, e: QueueEntry) -> Seq<QueueEntry> {
    if q.len() >= MAX_QUEUED {
        q.drop_first().push(e)
    } else {
        q.push(e)
    }
}

/// Queue after putting `batch` back in front of `q`, cut to the cap.
pub open spec fn requeued(batch: Seq<QueueEntry>, q: Seq<QueueEntry>) -> Seq<QueueEntry> {
    let all = batch + q;
    if all.len() > MAX_QUEUED {
        all.take(MAX_QUEUED as int)
    } else {
        all
    }
}

/// Lower-case hexadecimal digit of `d < 16`.
pub open spec fn hex_digit(d: nat) -> char {
    if d < 10 {
        (('0' as nat) + d) as char
    } else {
        (('a' as nat) + d - 10) as char
    }
}

/// Lower-case hexadecimal digits of `n`, without leading zeros.
pub open spec fn hex(n: nat) -> Seq<char>
    decreases n,
{
    if n < 16 {
        seq![hex_digit(n)]
    } else {
        hex(n / 16).push(hex_digit(n % 16))
    }
}

/// `s` left-padded with `0` to at least `width` characters.
pub open spec fn zero_padded(s: Seq<char>, width: nat) -> Seq<char> {
    if s.len() >= width {
        s
    } else {
        Seq::new((width - s.len()) as nat, |i: int| '0') + s
    }
}

fn hex_char(d: u64) -> (c: char)
    requires
        d < 16,
    ensures
        c == hex_digit(d as nat),
{
    if d < 10 {
        let v: u8 = 48 + d as u8;
        v as char
    } else {
        let v: u8 = 87 + d as u8;
        v as char
    }
}

fn push_hex(out: &mut String, n: u64)
    ensures
        final(out)@ == old(out)@ + hex(n as nat),
    decreases n,
{
    if n >= 16 {
        push_hex(out, n / 16);
    }
    push_char(out, hex_char(n % 16));
    proof {
        if n >= 16 {
            assert(old(out)@ + hex((n / 16) as nat) + seq![hex_digit((n % 16) as nat)] =~= old(out)@ + hex(
                n as nat,
            ));
        } else {
            assert(old(out)@ + seq![hex_digit(n as nat)] =~= old(out)@ + hex(n as nat));
        }
    }
}

/// A session id: the time in hexadecimal followed by a sequence number in at
/// least four hexadecimal digits.
pub fn session_id(now_ms: u64, seq: u32) -> (s: String)
    ensures
        s@ == hex(now_ms as nat) + zero_padded(hex(seq as nat), 4),
{
    let mut s = String::new();
    push_hex(&mut s, now_ms);
    let ghost head = s@;
    let mut digits = String::new();
    push_hex(&mut digits, seq as u64);
    let width = digits.as_str().unicode_len();
    let mut pad: usize = width;
    while pad < 4
        invariant
            width <= pad <= 4 || (width >= 4 && pad == width),
            width == hex(seq as nat).len(),
            s@ == head + Seq::new((pad - width) as nat, |i: int| '0'),
        decreases 4 - pad,
    {
        push_char(&mut s, '0');
        assert(s@ =~= head + Seq::new((pad + 1 - width) as nat, |i: int| '0'));
        pad = pad + 1;
    }
    push_text(&mut s, digits.as_str());
    proof {
        if width >= 4 {
            assert(Seq::new((pad - width) as nat, |i: int| '0') =~= Seq::<char>::empty());
        }
        assert(s@ =~= hex(now_ms as nat) + zero_padded(hex(seq as nat), 4));
    }
    s
}

/// Name of the platform the client runs on.
pub fn platform_name() -> (s: String)
    ensures
        s@ == "web"@,
{
    "web".to_owned()
}

impl Analytics {
    /// The queue is within its cap.
    pub open spec fn wf(&self) -> bool {
        self.queue@.len() <= MAX_QUEUED
    }

    /// Analytics for the portal the page names (`SOW_PORTAL`): a Poki build
    /// (portal `poki`) records nothing.
    pub fn for_portal(portal: Option<&str>) -> (a: Self)
        ensures
            a.wf(),
            a.portal_is_poki == (portal matches Some(p) && p@ == "poki"@),
            a.config is None,
            a.queue@.len() == 0,
            a.last_flush_ms == 0,
            !a.gameplay_active,
    {
        let poki = match portal {
            Some(p) => crate::text::same_text(p, "poki"),
            None => false,
        };
        Self::new(poki)
    }

    /// Analytics before boot configuration: nothing queued or sent.
    pub fn new(portal_is_poki: bool) -> (a: Self)
        ensures
            a.wf(),
            a.portal_is_poki == portal_is_poki,
            a.config is None,
            a.queue@.len() == 0,
            a.last_flush_ms == 0,
            !a.gameplay_active,
    {
        Analytics { portal_is_poki, config: None, queue: Vec::new(), last_flush_ms: 0, gameplay_active: false }
    }

    /// Records event `name` at `ts_ms`; the oldest event gives way when the
    /// queue is full. Answers whether a flush is now due (the queue reached
    /// the flush threshold). A Poki build records nothing.
    pub fn track(&mut self, name: &str, ts_ms: u64, props: Option<String>) -> (due: bool)
        requires
            old(self).wf(),
        ensures
            final(self).wf(),
            final(self).portal_is_poki == old(self).portal_is_poki,
            final(self).config == old(self).config,
            final(self).last_flush_ms == old(self).last_flush_ms,
            final(self).gameplay_active == old(self).gameplay_active,
            old(self).portal_is_poki ==> !due && final(self).queue@ == old(self).queue@,
            !old(self).portal_is_poki ==> {
                &&& final(self).queue@.len() == pushed(old(self).queue@, final(self).queue@.last()).len()
                &&& final(self).queue@.last().name@ == name@
                &&& final(self).queue@.last().ts_ms == ts_ms
                &&& final(self).queue@.last().props == props
                &&& final(self).queue@ == pushed(old(self).queue@, final(self).queue@.last())
                &&& due == (final(self).queue@.len() >= FLUSH_THRESHOLD)
            },
    {
        if self.portal_is_poki {
            return false;
        }
        if self.queue.len() >= MAX_QUEUED {
            self.queue.remove(0);
        }
        self.queue.push(QueueEntry { name: name.to_owned(), ts_ms, props });
        self.queue.len() >= FLUSH_THRESHOLD
    }

    /// Captures the ingest endpoint and envelope fields at boot. A Poki build
    /// stays unconfigured; configuration happens once, later calls change
    /// nothing. The portal defaults to `site`.
    pub fn configure(
        &mut self,
        database_base: &str,
        portal: Option<String>,
        platform: String,
        build: String,
        locale: String,
        session_id: String,
    )
        requires
            old(self).wf(),
        ensures
            final(self).wf(),
            final(self).queue@ == old(self).queue@,
            final(self).portal_is_poki == old(self).portal_is_poki,
            final(self).last_flush_ms == old(self).last_flush_ms,
            final(self).gameplay_active == old(self).gameplay_active,
            old(self).portal_is_poki || old(self).config is Some ==> final(self).config == old(self).config,
            !old(self).portal_is_poki && old(self).config is None ==> (final(self).config matches Some(c) && c.endpoint@ == endpoint_for(database_base@) && c.portal@ == match portal {
                Some(p) => p@,
                None => "site"@,
            } && c.platform == platform && c.build == build && c.locale == locale && c.session_id
                == session_id),
    {
        if self.portal_is_poki || self.config.is_some() {
            return;
        }
        let mut endpoint = trim_trailing_slashes(database_base);
        push_text(&mut endpoint, "/event");
        let portal = match portal {
            Some(p) => p,
            None => "site".to_owned(),
        };
        self.config = Some(AnalyticsConfig { endpoint, portal, platform, build, locale, session_id });
    }

    /// Takes the batch to send now: when configured and either forced or the
    /// flush interval has passed, the oldest events up to a full batch leave
    /// the queue and the flush time becomes `now` (an empty queue only moves
    /// the flush time).
    pub fn take_due_batch(&mut self, now: u64, force: bool) -> (batch: Option<Vec<QueueEntry>>)
        requires
            old(self).wf(),
        ensures
            final(self).wf(),
            final(self).portal_is_poki == old(self).portal_is_poki,
            final(self).config == old(self).config,
            final(self).gameplay_active == old(self).gameplay_active,
            ({
                let due = old(self).config is Some && (force || (if now >= old(self).last_flush_ms {
                    now - old(self).last_flush_ms
                } else {
                    0
                }) >= FLUSH_INTERVAL_MS);
                let n = if old(self).queue@.len() < MAX_BATCH { old(self).queue@.len() } else { MAX_BATCH as nat };
                &&& !due ==> batch is None && final(self).queue@ == old(self).queue@
                    && final(self).last_flush_ms == old(self).last_flush_ms
                &&& due ==> final(self).last_flush_ms == now
                &&& due && old(self).queue@.len() == 0 ==> batch is None && final(self).queue@.len() == 0
                &&& due && old(self).queue@.len() > 0 ==> (batch matches Some(b) && b@ == old(self).queue@.take(n as int) && final(self).queue@ == old(self).queue@.skip(n as int))
            }),
    {
        if self.config.is_none() {
            return None;
        }
        if !force && now.saturating_sub(self.last_flush_ms) < FLUSH_INTERVAL_MS {
            return None;
        }
        self.last_flush_ms = now;
        if self.queue.len() == 0 {
            return None;
        }
        let take = if self.queue.len() < MAX_BATCH { self.queue.len() } else { MAX_BATCH };
        let ghost q = self.queue@;
        let mut batch: Vec<QueueEntry> = Vec::new();
        let mut i: usize = 0;
        while i < take
            invariant
                i <= take,
                take <= q.len(),
                batch@ == q.take(i as int),
                self.queue@ == q.skip(i as int),
                self.queue@.len() == q.len() - i,
                self.portal_is_poki == old(self).portal_is_poki,
                self.config == old(self).config,
                self.gameplay_active == old(self).gameplay_active,
                self.last_flush_ms == now,
                q == old(self).queue@,
            decreases take - i,
        {
            let e = self.queue.remove(0);
            batch.push(e);
            assert(batch@ =~= q.take(i + 1));
            assert(self.queue@ =~= q.skip(i + 1));
            i = i + 1;
        }
        Some(batch)
    }

    /// Puts a batch the endpoint did not accept back in front of the queue,
    /// keeping at most the cap.
    pub fn requeue(&mut self, entries: Vec<QueueEntry>)
        requires
            old(self).wf(),
        ensures
            final(self).wf(),
            final(self).queue@ == requeued(entries@, old(self).queue@),
            final(self).portal_is_poki == old(self).portal_is_poki,
            final(self).config == old(self).config,
            final(self).last_flush_ms == old(self).last_flush_ms,
            final(self).gameplay_active == old(self).gameplay_active,
    {
        let mut all = entries;
        let ghost front = all@;
        let mut rest: Vec<QueueEntry> = Vec::new();
        std::mem::swap(&mut rest, &mut self.queue);
        let ghost back = rest@;
        all.append(&mut rest);
        assert(all@ == front + back);
        if all.len() > MAX_QUEUED {
            all.truncate(MAX_QUEUED);
        }
        self.queue = all;
    }

    /// Marks the start of gameplay; records `gameplay_start` when gameplay
    /// was not already running. Answers whether a flush is due.
    pub fn gameplay_start(&mut self, ts_ms: u64) -> (due: bool)
        requires
            old(self).wf(),
        ensures
            final(self).wf(),
            final(self).gameplay_active,
            final(self).config == old(self).config,
            old(self).gameplay_active ==> !due && final(self).queue@ == old(self).queue@,
            !old(self).gameplay_active && !old(self).portal_is_poki ==> final(self).queue@.last().name@
                == "gameplay_start"@ && final(self).queue@.last().ts_ms == ts_ms && final(self).queue@.last().props is None
                && final(self).queue@ == pushed(old(self).queue@, final(self).queue@.last()) && due == (final(self).queue@.len() >= FLUSH_THRESHOLD),
            !old(self).gameplay_active && old(self).portal_is_poki ==> !due && final(self).queue@ == old(self).queue@,
            final(self).portal_is_poki == old(self).portal_is_poki,
            final(self).last_flush_ms == old(self).last_flush_ms,
    {
        if self.gameplay_active {
            return false;
        }
        self.gameplay_active = true;
        self.track("gameplay_start", ts_ms, None)
    }

    /// Marks the end of gameplay; records `gameplay_stop` when gameplay was
    /// running. Answers whether a flush is due.
    pub fn gameplay_stop(&mut self, ts_ms: u64) -> (due: bool)
        requires
            old(self).wf(),
        ensures
            final(self).wf(),
            !final(self).gameplay_active,
            final(self).config == old(self).config,
            !old(self).gameplay_active ==> !due && final(self).queue@ == old(self).queue@,
            old(self).gameplay_active && !old(self).portal_is_poki ==> final(self).queue@.last().name@
                == "gameplay_stop"@ && final(self).queue@.last().ts_ms == ts_ms && final(self).queue@.last().props is None
                && final(self).queue@ == pushed(old(self).queue@, final(self).queue@.last()) && due == (final(self).queue@.len() >= FLUSH_THRESHOLD),
            old(self).gameplay_active && old(self).portal_is_poki ==> !due && final(self).queue@ == old(self).queue@,
            final(self).portal_is_poki == old(self).portal_is_poki,
            final(self).last_flush_ms == old(self).last_flush_ms,
    {
        if !self.gameplay_active {
            return false;
        }
        self.gameplay_active = false;
        self.track("gameplay_stop", ts_ms, None)
    }
}

/// Configures `analytics` at boot (see [`Analytics::configure`]).
pub fn configure(
    analytics: &mut Analytics,
    database_base: &str,
    portal: Option<String>,
    platform: String,
    build: String,
    locale: String,
    session_id: String,
)
    requires
        old(analytics).wf(),
    ensures
        final(analytics).wf(),
        final(analytics).queue@ == old(analytics).queue@,
        final(analytics).portal_is_poki == old(analytics).portal_is_poki,
        final(analytics).last_flush_ms == old(analytics).last_flush_ms,
        final(analytics).gameplay_active == old(analytics).gameplay_active,
        old(analytics).portal_is_poki || old(analytics).config is Some ==> final(analytics).config
            == old(analytics).config,
        !old(analytics).portal_is_poki && old(analytics).config is None ==> (final(analytics).config matches Some(c)
            && c.endpoint@ == endpoint_for(database_base@) && c.portal@ == match portal {
            Some(p) => p@,
            None => "site"@,
        } && c.platform == platform && c.build == build && c.locale == locale && c.session_id == session_id),
{
    analytics.configure(database_base, portal, platform, build, locale, session_id);
}

/// Marks the start of gameplay (see [`Analytics::gameplay_start`]).
pub fn gameplay_start(analytics: &mut Analytics, ts_ms: u64) -> (due: bool)
    requires
        old(analytics).wf(),
    ensures
        final(analytics).wf(),
        final(analytics).gameplay_active,
        old(analytics).gameplay_active ==> !due && final(analytics).queue@ == old(analytics).queue@,
        !old(analytics).gameplay_active && !old(analytics).portal_is_poki ==> final(analytics).queue@.last().name@
            == "gameplay_start"@ && final(analytics).queue@.last().ts_ms == ts_ms && final(analytics).queue@.last().props is None
            && final(analytics).queue@ == pushed(old(analytics).queue@, final(analytics).queue@.last()) && due == (final(analytics).queue@.len() >= FLUSH_THRESHOLD),
        !old(analytics).gameplay_active && old(analytics).portal_is_poki ==> !due && final(analytics).queue@ == old(analytics).queue@,
        final(analytics).portal_is_poki == old(analytics).portal_is_poki,
        final(analytics).last_flush_ms == old(analytics).last_flush_ms,
        final(analytics).config == old(analytics).config,
{
    analytics.gameplay_start(ts_ms)
}

/// Marks the end of gameplay (see [`Analytics::gameplay_stop`]).
pub fn gameplay_stop(analytics: &mut Analytics, ts_ms: u64) -> (due: bool)
    requires
        old(analytics).wf(),
    ensures
        final(analytics).wf(),
        !final(analytics).gameplay_active,
        !old(analytics).gameplay_active ==> !due && final(analytics).queue@ == old(analytics).queue@,
        old(analytics).gameplay_active && !old(analytics).portal_is_poki ==> final(analytics).queue@.last().name@
            == "gameplay_stop"@ && final(analytics).queue@.last().ts_ms == ts_ms && final(analytics).queue@.last().props is None
            && final(analytics).queue@ == pushed(old(analytics).queue@, final(analytics).queue@.last()) && due == (final(analytics).queue@.len() >= FLUSH_THRESHOLD),
        old(analytics).gameplay_active && old(analytics).portal_is_poki ==> !due && final(analytics).queue@ == old(analytics).queue@,
        final(analytics).portal_is_poki == old(analytics).portal_is_poki,
        final(analytics).last_flush_ms == old(analytics).last_flush_ms,
        final(analytics).config == old(analytics).config,
{
    analytics.gameplay_stop(ts_ms)
}

/// A rejected batch put back right after it was taken restores the queue as
/// it was: taking the front of a queue and requeueing it loses nothing.
pub proof fn law_requeue_restores(q: Seq<QueueEntry>, n: int)
    requires
        q.len() <= MAX_QUEUED,
        0 <= n <= q.len(),
    ensures
        requeued(q.take(n), q.skip(n)) == q,
{
    assert(q.take(n) + q.skip(n) =~= q);
}

/// The queue never holds more than its cap, however many events are recorded.
pub proof fn law_queue_capped(q: Seq<QueueEntry>, e: QueueEntry, batch: Seq<QueueEntry>)
    requires
        q.len() <= MAX_QUEUED,
    ensures
        pushed(q, e).len() <= MAX_QUEUED,
        requeued(batch, q).len() <= MAX_QUEUED,
{
}

} // verus!
