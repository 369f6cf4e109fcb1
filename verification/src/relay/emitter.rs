//! Browser-side relay: logger configuration, the record-to-payload mapping
//! and the bounded queue of payloads waiting to be sent.

use std::collections::VecDeque;
use vstd::prelude::*;
use crate::backend::{LogRecord, opt_view};
use crate::level::{LevelFilter, LogFacade, is_off, level_filter_of, level_key, level_lowercase_name, parse_level_filter, set_max_log_level};
use crate::relay::{DEFAULT_WEB_LOG_RELAY_ENDPOINT, RelayLogPayload};

verus! {

/// The most payloads the relay queue holds; when full, the oldest is dropped.
pub const MAX_RELAY_QUEUE_LEN: usize = 1024;

/// Resolved browser logger configuration.
#[derive(Clone, Copy, Debug)]
pub struct WebLoggerConfig {
    /// Configured level string used for parsing.
    pub configured_level: &'static str,
    /// Parsed level filter used by the logger.
    pub level_filter: LevelFilter,
    /// Endpoint path used for browser-to-server log relay requests.
    pub endpoint: &'static str,
}

/// What browser logging setup leaves for the caller to do: remember the
/// configuration's endpoint, and install the relay logger unless logging is off.
#[derive(Clone, Copy, Debug)]
pub struct WebLoggingSetup {
    /// The configuration logging was set up with.
    pub config: WebLoggerConfig,
    /// Whether the relay logger is to be installed.
    pub install_relay_logger: bool,
}

impl WebLoggerConfig {
    /// A configuration from the build-time `WEB_LOG_LEVEL` value
    /// (`web_log_level`), which takes precedence, or else `default_level`,
    /// with the default relay endpoint.
    pub fn new(default_level: &'static str, web_log_level: Option<&'static str>) -> (res: Self)
        ensures
            res.configured_level == match web_log_level {
                Some(l) => l,
                None => default_level,
            },
            res.level_filter == level_filter_of(res.configured_level@),
            res.endpoint == DEFAULT_WEB_LOG_RELAY_ENDPOINT,
    {
        let configured_level = match web_log_level {
            Some(l) => l,
            None => default_level,
        };
        let level_filter = parse_level_filter(configured_level);
        WebLoggerConfig { configured_level, level_filter, endpoint: DEFAULT_WEB_LOG_RELAY_ENDPOINT }
    }

    /// This configuration with a custom relay endpoint.
    pub fn with_endpoint(self, endpoint: &'static str) -> (res: Self)
        ensures
            res.configured_level == self.configured_level,
            res.level_filter == self.level_filter,
            res.endpoint == endpoint,
    {
        WebLoggerConfig { endpoint, ..self }
    }
}

/// Sets the `log` facade's maximum level to the configured filter and
/// returns the configuration; the relay logger is to be installed unless
/// the level is `off`.
pub fn init_web_logging_with_config(facade: &mut LogFacade, config: WebLoggerConfig) -> (res:
    WebLoggingSetup)
    ensures
        final(facade).max_level() == config.level_filter,
        res.config == config,
        res.install_relay_logger == (config.level_filter != LevelFilter::Off),
{
    set_max_log_level(facade, config.level_filter);
    WebLoggingSetup { config, install_relay_logger: !is_off(config.level_filter) }
}

/// Sets up browser logging with the default relay endpoint and the level
/// that `WEB_LOG_LEVEL` (`web_log_level`) or else `default_level` names.
pub fn init_web_logging(
    facade: &mut LogFacade,
    default_level: &'static str,
    web_log_level: Option<&'static str>,
) -> (res: WebLoggingSetup)
    ensures
        res.config.configured_level == match web_log_level {
            Some(l) => l,
            None => default_level,
        },
        res.config.level_filter == level_filter_of(res.config.configured_level@),
        res.config.endpoint == DEFAULT_WEB_LOG_RELAY_ENDPOINT,
        res.install_relay_logger == (res.config.level_filter != LevelFilter::Off),
        final(facade).max_level() == res.config.level_filter,
{
    init_web_logging_with_config(facade, WebLoggerConfig::new(default_level, web_log_level))
}

/// An optional copy of an optional string.
fn clone_opt(o: &Option<String>) -> (res: Option<String>)
    ensures
        opt_view(res) == opt_view(*o),
{
    match o {
        Some(s) => Some(s.clone()),
        None => None,
    }
}

impl RelayLogPayload {
    /// The payload that relays `record`: the lower-case level name, the
    /// message, the target, and the source location.
    pub fn from_record(record: &LogRecord) -> (res: RelayLogPayload)
        ensures
            res.level@ == level_key(record.level),
            res.message@ == record.message@,
            opt_view(res.target) == Some(record.target@),
            opt_view(res.file) == opt_view(record.file),
            res.line == record.line,
    {
        RelayLogPayload {
            level: level_lowercase_name(record.level),
            message: record.message.clone(),
            target: Some(record.target.clone()),
            file: clone_opt(&record.file),
            line: record.line,
        }
    }
}

/// The last `n` elements of `s` (all of them when there are at most `n`).
pub open spec fn keep_last<T>(s: Seq<T>, n: nat) -> Seq<T> {
    if s.len() <= n {
        s
    } else {
        s.skip(s.len() - n)
    }
}

/// Enqueuing keeps the order of the waiting payloads: the new payload goes
/// last, and only when the queue is full is one payload dropped, the oldest.
pub proof fn lemma_enqueue_drops_only_the_oldest(pending: Seq<RelayLogPayload>, p: RelayLogPayload)
    requires
        pending.len() <= MAX_RELAY_QUEUE_LEN,
    ensures
        keep_last(pending.push(p), MAX_RELAY_QUEUE_LEN as nat) == if pending.len()
            < MAX_RELAY_QUEUE_LEN {
            pending.push(p)
        } else {
            pending.drop_first().push(p)
        },
{
    if pending.len() == MAX_RELAY_QUEUE_LEN {
        assert(pending.push(p).skip(1) =~= pending.drop_first().push(p));
    }
}

/// One queue operation on the waiting payloads `pending`: `Some(p)`
/// enqueues `p`, `None` takes the next payload to send. Gives the waiting
/// payloads afterwards and the payloads handed out (none or one).
pub open spec fn queue_step(pending: Seq<RelayLogPayload>, op: Option<RelayLogPayload>) -> (
    Seq<RelayLogPayload>,
    Seq<RelayLogPayload>,
) {
    match op {
        Some(p) => (keep_last(pending.push(p), MAX_RELAY_QUEUE_LEN as nat), Seq::empty()),
        None => if pending.len() > 0 {
            (pending.drop_first(), seq![pending[0]])
        } else {
            (pending, Seq::empty())
        },
    }
}

/// A run of queue operations from the waiting payloads `pending`: the
/// waiting payloads at its end and all payloads handed out, in order.
pub open spec fn queue_run(pending: Seq<RelayLogPayload>, ops: Seq<Option<RelayLogPayload>>) -> (
    Seq<RelayLogPayload>,
    Seq<RelayLogPayload>,
)
    decreases ops.len(),
{
    if ops.len() == 0 {
        (pending, Seq::empty())
    } else {
        let (next, out) = queue_step(pending, ops[0]);
        let (last, rest) = queue_run(next, ops.drop_first());
        (last, out + rest)
    }
}

/// The payloads that a run of operations enqueues, in order.
pub open spec fn enqueued(ops: Seq<Option<RelayLogPayload>>) -> Seq<RelayLogPayload>
    decreases ops.len(),
{
    if ops.len() == 0 {
        Seq::empty()
    } else {
        match ops[0] {
            Some(p) => seq![p] + enqueued(ops.drop_first()),
            None => enqueued(ops.drop_first()),
        }
    }
}

/// No enqueue in the run finds the queue full, so none drops a payload.
pub open spec fn never_full(pending: Seq<RelayLogPayload>, ops: Seq<Option<RelayLogPayload>>) -> bool
    decreases ops.len(),
{
    if ops.len() == 0 {
        true
    } else {
        (ops[0] is Some ==> pending.len() < MAX_RELAY_QUEUE_LEN) && never_full(
            queue_step(pending, ops[0]).0,
            ops.drop_first(),
        )
    }
}

/// Over any run of enqueues and sends in which no enqueue finds the queue
/// full, every payload comes out exactly once and in order: the payloads
/// handed out, followed by those still waiting, are the payloads waiting at
/// the start followed by those enqueued.
pub proof fn lemma_relay_queue_is_fifo(
    pending: Seq<RelayLogPayload>,
    ops: Seq<Option<RelayLogPayload>>,
)
    requires
        never_full(pending, ops),
    ensures
        queue_run(pending, ops).1 + queue_run(pending, ops).0 == pending + enqueued(ops),
    decreases ops.len(),
{
    if ops.len() > 0 {
        let (next, out) = queue_step(pending, ops[0]);
        lemma_relay_queue_is_fifo(next, ops.drop_first());
        let (last, rest) = queue_run(next, ops.drop_first());
        match ops[0] {
            Some(p) => {
                assert(next == pending.push(p));
                assert(enqueued(ops) == seq![p] + enqueued(ops.drop_first()));
                assert(out =~= Seq::<RelayLogPayload>::empty());
                assert(rest + last == pending.push(p) + enqueued(ops.drop_first()));
                assert(out + rest =~= rest);
                assert(pending.push(p) + enqueued(ops.drop_first()) =~= pending + (seq![p]
                    + enqueued(ops.drop_first())));
            },
            None => {
                assert(enqueued(ops) == enqueued(ops.drop_first()));
                if pending.len() > 0 {
                    assert(out == seq![pending[0]]);
                    assert(rest + last == pending.drop_first() + enqueued(ops.drop_first()));
                    assert(pending =~= seq![pending[0]] + pending.drop_first());
                    assert(out + rest + last =~= out + (rest + last));
                    assert(out + rest + last =~= pending + enqueued(ops));
                } else {
                    assert(out + rest + last =~= pending + enqueued(ops));
                }
            },
        }
    } else {
        assert(Seq::<RelayLogPayload>::empty() + pending =~= pending + Seq::empty());
    }
}

/// The payloads waiting to be relayed, oldest first, and whether a sender
/// is draining them.
pub struct RelayQueue {
    items: VecDeque<RelayLogPayload>,
    sending: bool,
}

impl RelayQueue {
    #[verifier::type_invariant]
    spec fn bounded(self) -> bool {
        self.items@.len() <= MAX_RELAY_QUEUE_LEN
    }

    /// The waiting payloads, oldest first.
    pub closed spec fn pending(self) -> Seq<RelayLogPayload> {
        self.items@
    }

    /// Whether a sender is draining the queue.
    pub closed spec fn sender_running(self) -> bool {
        self.sending
    }

    /// An empty queue with no sender running.
    pub fn new() -> (res: Self)
        ensures
            res.pending() == Seq::<RelayLogPayload>::empty(),
            !res.sender_running(),
    {
        RelayQueue { items: VecDeque::new(), sending: false }
    }

    /// The number of waiting payloads.
    pub fn len(&self) -> (res: usize)
        ensures
            res == self.pending().len(),
            res <= MAX_RELAY_QUEUE_LEN,
    {
        proof {
            use_type_invariant(self);
        }
        self.items.len()
    }

    /// Whether a sender is draining the queue.
    pub fn is_sending(&self) -> (res: bool)
        ensures
            res == self.sender_running(),
    {
        self.sending
    }

    /// Adds `payload` at the back, dropping the oldest payload when the
    /// queue is full, and marks a sender as running. Returns whether a
    /// sender has to be started, which is when none was running.
    pub fn enqueue(&mut self, payload: RelayLogPayload) -> (start_sender: bool)
        ensures
            final(self).pending() == keep_last(
                old(self).pending().push(payload),
                MAX_RELAY_QUEUE_LEN as nat,
            ),
            (final(self).pending(), Seq::<RelayLogPayload>::empty()) == queue_step(
                old(self).pending(),
                Some(payload),
            ),
            final(self).pending().len() <= MAX_RELAY_QUEUE_LEN,
            final(self).sender_running(),
            start_sender == !old(self).sender_running(),
    {
        proof {
            use_type_invariant(&*self);
        }
        let mut items: VecDeque<RelayLogPayload> = VecDeque::new();
        std::mem::swap(&mut items, &mut self.items);
        if items.len() >= MAX_RELAY_QUEUE_LEN {
            let _ = items.pop_front();
        }
        items.push_back(payload);
        self.items = items;
        if self.sending {
            false
        } else {
            self.sending = true;
            true
        }
    }

    /// Takes the oldest waiting payload for sending; when none is left,
    /// marks the sender as stopped.
    pub fn next_to_send(&mut self) -> (res: Option<RelayLogPayload>)
        ensures
            queue_step(old(self).pending(), None) == (
                final(self).pending(),
                match res {
                    Some(p) => seq![p],
                    None => Seq::<RelayLogPayload>::empty(),
                },
            ),
            old(self).pending().len() > 0 ==> {
                &&& res == Some(old(self).pending()[0])
                &&& final(self).pending() == old(self).pending().drop_first()
                &&& final(self).sender_running() == old(self).sender_running()
            },
            old(self).pending().len() == 0 ==> {
                &&& res is None
                &&& final(self).pending() == old(self).pending()
                &&& !final(self).sender_running()
            },
    {
        proof {
            use_type_invariant(&*self);
        }
        let mut items: VecDeque<RelayLogPayload> = VecDeque::new();
        std::mem::swap(&mut items, &mut self.items);
        let next = items.pop_front();
        self.items = items;
        match next {
            Some(p) => Some(p),
            None => {
                self.sending = false;
                None
            },
        }
    }
}

} // verus!
