//! Priority-aware multi-producer multi-consumer job queue.
//!
//! Four bounded FIFO bands, one per priority, plus an unbounded
//! dead-letter sideband for messages whose retries are exhausted.
//! Consumers always drain higher bands before lower ones; a flood of
//! high-priority messages may starve the low bands, by design.
//!
//! The queue here is the sequential core: every operation takes the
//! queue exclusively and its effect on the bands is stated exactly.
//! Callers that share one queue between threads wrap it in a lock.

use vstd::prelude::*;

verus! {

/// Message priority levels, in increasing order of urgency.
#[derive(Debug, Clone, Copy, PartialEq, Eq, PartialOrd, Ord, Structural)]
pub enum Priority {
    Low,
    Normal,
    High,
    Critical,
}

impl Priority {
    /// Numeric urgency: a larger rank is drained first.
    pub open spec fn rank_spec(self) -> int {
        match self {
            Priority::Low => 0,
            Priority::Normal => 1,
            Priority::High => 2,
            Priority::Critical => 3,
        }
    }

    /// Executable form of [`Priority::rank_spec`].
    pub fn rank(&self) -> (r: u8)
        ensures
            r as int == self.rank_spec(),
    {
        match self {
            Priority::Low => 0,
            Priority::Normal => 1,
            Priority::High => 2,
            Priority::Critical => 3,
        }
    }
}

/// A payload together with its queue metadata.
#[derive(Debug, Clone)]
pub struct Message<T> {
    pub id: u64,
    pub payload: T,
    pub priority: Priority,
    pub timestamp: u64,
    pub retry_count: u32,
    pub topic: String,
}

/// Relies on std::time::SystemTime: milliseconds since the Unix
/// epoch, zero when the clock reads earlier than the epoch.
#[verifier::external_body]
fn current_timestamp_millis() -> u64 {
    std::time::SystemTime::now()
        .duration_since(std::time::UNIX_EPOCH)
        .unwrap_or_default()
        .as_millis() as u64
}

impl<T> Message<T> {
    /// A fresh message at `Normal` priority with no retries yet.  The
    /// message id is zero until a queue stamps its own monotonic id
    /// at send time; the timestamp is the wall clock now.
    pub fn new(payload: T, topic: String) -> (m: Message<T>)
        ensures
            m.id == 0,
            m.payload == payload,
            m.priority is Normal,
            m.retry_count == 0,
            m.topic == topic,
    {
        Message {
            id: 0,
            payload,
            priority: Priority::Normal,
            timestamp: current_timestamp_millis(),
            retry_count: 0,
            topic,
        }
    }

    /// The same message at another priority.
    pub fn with_priority(self, priority: Priority) -> (m: Message<T>)
        ensures
            m == (Message { priority, ..self }),
    {
        Message { priority, ..self }
    }
}

/// Configuration of the queue.
#[derive(Debug, Clone)]
pub struct RusqConfig {
    /// Capacity of each priority band (`None` for unbounded).
    pub capacity: Option<usize>,
    /// Whether priority bands are advertised to producers.
    pub enable_priority: bool,
    /// Retries allowed before a message goes to the dead-letter queue.
    pub max_retries: u32,
    /// How long a blocking consumer waits, in milliseconds.
    pub consumer_timeout_ms: u64,
    /// Whether the metric counters are maintained.
    pub enable_metrics: bool,
}

impl Default for RusqConfig {
    fn default() -> (c: RusqConfig)
        ensures
            c.capacity == Some(10000usize),
            c.enable_priority,
            c.max_retries == 3,
            c.consumer_timeout_ms == 1000,
            c.enable_metrics,
    {
        RusqConfig {
            capacity: Some(10000),
            enable_priority: true,
            max_retries: 3,
            consumer_timeout_ms: 1000,
            enable_metrics: true,
        }
    }
}

/// Saturating increment, used by all metric counters.
pub open spec fn counter_inc(x: u64) -> u64 {
    if x < u64::MAX {
        (x + 1) as u64
    } else {
        x
    }
}

/// Saturating decrement, used by the live-handle gauges.
pub open spec fn counter_dec(x: u64) -> u64 {
    if x > 0 {
        (x - 1) as u64
    } else {
        0
    }
}

/// Counters describing queue traffic.  Accuracy beyond monotonic
/// growth is not promised; the counters saturate instead of wrapping.
#[derive(Debug)]
pub struct RusqMetrics {
    pub messages_sent: u64,
    pub messages_received: u64,
    pub messages_failed: u64,
    pub messages_retried: u64,
    pub active_producers: u64,
    pub active_consumers: u64,
}

impl RusqMetrics {
    /// All counters at zero.
    pub fn new() -> (m: RusqMetrics)
        ensures
            m == (RusqMetrics {
                messages_sent: 0u64,
                messages_received: 0u64,
                messages_failed: 0u64,
                messages_retried: 0u64,
                active_producers: 0u64,
                active_consumers: 0u64,
            }),
    {
        RusqMetrics {
            messages_sent: 0,
            messages_received: 0,
            messages_failed: 0,
            messages_retried: 0,
            active_producers: 0,
            active_consumers: 0,
        }
    }

    pub fn increment_sent(&mut self)
        ensures
            *final(self) == (RusqMetrics {
                messages_sent: counter_inc(old(self).messages_sent),
                ..*old(self)
            }),
    {
        if self.messages_sent < u64::MAX {
            self.messages_sent = self.messages_sent + 1;
        }
    }

    pub fn increment_received(&mut self)
        ensures
            *final(self) == (RusqMetrics {
                messages_received: counter_inc(old(self).messages_received),
                ..*old(self)
            }),
    {
        if self.messages_received < u64::MAX {
            self.messages_received = self.messages_received + 1;
        }
    }

    pub fn increment_failed(&mut self)
        ensures
            *final(self) == (RusqMetrics {
                messages_failed: counter_inc(old(self).messages_failed),
                ..*old(self)
            }),
    {
        if self.messages_failed < u64::MAX {
            self.messages_failed = self.messages_failed + 1;
        }
    }

    pub fn increment_retried(&mut self)
        ensures
            *final(self) == (RusqMetrics {
                messages_retried: counter_inc(old(self).messages_retried),
                ..*old(self)
            }),
    {
        if self.messages_retried < u64::MAX {
            self.messages_retried = self.messages_retried + 1;
        }
    }

    pub fn add_producer(&mut self)
        ensures
            *final(self) == (RusqMetrics {
                active_producers: counter_inc(old(self).active_producers),
                ..*old(self)
            }),
    {
        if self.active_producers < u64::MAX {
            self.active_producers = self.active_producers + 1;
        }
    }

    pub fn remove_producer(&mut self)
        ensures
            *final(self) == (RusqMetrics {
                active_producers: counter_dec(old(self).active_producers),
                ..*old(self)
            }),
    {
        if self.active_producers > 0 {
            self.active_producers = self.active_producers - 1;
        }
    }

    pub fn add_consumer(&mut self)
        ensures
            *final(self) == (RusqMetrics {
                active_consumers: counter_inc(old(self).active_consumers),
                ..*old(self)
            }),
    {
        if self.active_consumers < u64::MAX {
            self.active_consumers = self.active_consumers + 1;
        }
    }

    pub fn remove_consumer(&mut self)
        ensures
            *final(self) == (RusqMetrics {
                active_consumers: counter_dec(old(self).active_consumers),
                ..*old(self)
            }),
    {
        if self.active_consumers > 0 {
            self.active_consumers = self.active_consumers - 1;
        }
    }

    /// A point-in-time copy of all counters.
    pub fn snapshot(&self) -> (s: MetricsSnapshot)
        ensures
            s.messages_sent == self.messages_sent,
            s.messages_received == self.messages_received,
            s.messages_failed == self.messages_failed,
            s.messages_retried == self.messages_retried,
            s.active_producers == self.active_producers,
            s.active_consumers == self.active_consumers,
    {
        MetricsSnapshot {
            messages_sent: self.messages_sent,
            messages_received: self.messages_received,
            messages_failed: self.messages_failed,
            messages_retried: self.messages_retried,
            active_producers: self.active_producers,
            active_consumers: self.active_consumers,
        }
    }
}

/// A copy of the metric counters at one moment.
#[derive(Debug, Clone)]
pub struct MetricsSnapshot {
    pub messages_sent: u64,
    pub messages_received: u64,
    pub messages_failed: u64,
    pub messages_retried: u64,
    pub active_producers: u64,
    pub active_consumers: u64,
}

/// Errors surfaced by queue operations.
#[derive(Debug, Clone, PartialEq, Eq, Structural)]
pub enum RusqError {
    QueueFull,
    QueueShutdown,
    Empty,
    Timeout,
    RetryRequired,
}

impl RusqError {
    /// A human-readable description of the error.
    pub fn message(&self) -> (r: String)
        ensures
            *self is QueueFull ==> r@ == "Queue is full"@,
            *self is QueueShutdown ==> r@ == "Queue is shutdown"@,
            *self is Empty ==> r@ == "Queue is empty"@,
            *self is Timeout ==> r@ == "Operation timed out"@,
            *self is RetryRequired ==> r@ == "Message retry required"@,
    {
        match self {
            RusqError::QueueFull => String::from_str("Queue is full"),
            RusqError::QueueShutdown => String::from_str("Queue is shutdown"),
            RusqError::Empty => String::from_str("Queue is empty"),
            RusqError::Timeout => String::from_str("Operation timed out"),
            RusqError::RetryRequired => String::from_str("Message retry required"),
        }
    }
}

/// The queue: four priority bands and the dead-letter sideband.
pub struct MpmcQueue<T> {
    critical: Vec<Message<T>>,
    high: Vec<Message<T>>,
    normal: Vec<Message<T>>,
    low: Vec<Message<T>>,
    dead_letter: Vec<Message<T>>,
    config: RusqConfig,
    metrics: RusqMetrics,
    next_message_id: u64,
    is_shutdown: bool,
}

impl<T> MpmcQueue<T> {
    /// The messages waiting in the band of priority `p`, front first.
    pub closed spec fn band(&self, p: Priority) -> Seq<Message<T>> {
        match p {
            Priority::Critical => self.critical@,
            Priority::High => self.high@,
            Priority::Normal => self.normal@,
            Priority::Low => self.low@,
        }
    }

    /// The dead-letter sideband, front first.
    pub closed spec fn dlq(&self) -> Seq<Message<T>> {
        self.dead_letter@
    }

    /// The configuration the queue was created with.
    pub closed spec fn spec_config(&self) -> RusqConfig {
        self.config
    }

    /// The metric counters.
    pub closed spec fn spec_metrics(&self) -> RusqMetrics {
        self.metrics
    }

    /// The id the next stamped message will get.
    pub closed spec fn spec_next_message_id(&self) -> u64 {
        self.next_message_id
    }

    /// Whether `shutdown` has been called.
    pub closed spec fn spec_is_shutdown(&self) -> bool {
        self.is_shutdown
    }

    /// Every message rests in the band of its own priority.
    pub closed spec fn wf(&self) -> bool {
        &&& forall|i: int|
            0 <= i < self.critical@.len() ==> (#[trigger] self.critical@[i]).priority is Critical
        &&& forall|i: int|
            0 <= i < self.high@.len() ==> (#[trigger] self.high@[i]).priority is High
        &&& forall|i: int|
            0 <= i < self.normal@.len() ==> (#[trigger] self.normal@[i]).priority is Normal
        &&& forall|i: int| 0 <= i < self.low@.len() ==> (#[trigger] self.low@[i]).priority is Low
    }

    /// The band of priority `p` cannot take another message.
    pub open spec fn band_full(&self, p: Priority) -> bool {
        match self.spec_config().capacity {
            Some(c) => self.band(p).len() >= c,
            None => false,
        }
    }

    /// All four bands are empty.
    pub open spec fn all_bands_empty(&self) -> bool {
        forall|p: Priority| (#[trigger] self.band(p)).len() == 0
    }

    /// `m` is waiting in the queue.
    pub open spec fn msg_present(&self, m: Message<T>) -> bool {
        self.band(m.priority).contains(m)
    }

    /// A fresh, empty queue.
    pub fn new(config: RusqConfig) -> (q: MpmcQueue<T>)
        ensures
            q.wf(),
            q.all_bands_empty(),
            q.dlq().len() == 0,
            q.spec_config() == config,
            q.spec_metrics() == (RusqMetrics {
                messages_sent: 0u64,
                messages_received: 0u64,
                messages_failed: 0u64,
                messages_retried: 0u64,
                active_producers: 0u64,
                active_consumers: 0u64,
            }),
            q.spec_next_message_id() == 0,
            !q.spec_is_shutdown(),
    {
        MpmcQueue {
            critical: Vec::new(),
            high: Vec::new(),
            normal: Vec::new(),
            low: Vec::new(),
            dead_letter: Vec::new(),
            config,
            metrics: RusqMetrics::new(),
            next_message_id: 0,
            is_shutdown: false,
        }
    }

    /// Stamp and return the next queue-local message id.  Ids are
    /// handed out in increasing order until the counter wraps.
    pub fn generate_message_id(&mut self) -> (id: u64)
        ensures
            id == old(self).spec_next_message_id(),
            final(self).spec_next_message_id() == if old(self).spec_next_message_id() == u64::MAX {
                0u64
            } else {
                (old(self).spec_next_message_id() + 1) as u64
            },
            old(self).wf() ==> final(self).wf(),
            forall|p: Priority| final(self).band(p) == old(self).band(p),
            final(self).dlq() == old(self).dlq(),
            final(self).spec_config() == old(self).spec_config(),
            final(self).spec_metrics() == old(self).spec_metrics(),
            final(self).spec_is_shutdown() == old(self).spec_is_shutdown(),
    {
        let id = self.next_message_id;
        if self.next_message_id == u64::MAX {
            self.next_message_id = 0;
        } else {
            self.next_message_id = self.next_message_id + 1;
        }
        id
    }

    /// What `send_message` leaves behind on success: the message is
    /// appended to the band of its priority, everything else stays.
    pub open spec fn sent_to_band(pre: MpmcQueue<T>, post: MpmcQueue<T>, m: Message<T>) -> bool {
        &&& post.band(m.priority) == pre.band(m.priority).push(m)
        &&& forall|p: Priority| p != m.priority ==> post.band(p) == pre.band(p)
        &&& post.dlq() == pre.dlq()
        &&& post.spec_config() == pre.spec_config()
        &&& post.spec_next_message_id() == pre.spec_next_message_id()
        &&& post.spec_is_shutdown() == pre.spec_is_shutdown()
        &&& post.spec_metrics() == (RusqMetrics {
            messages_sent: if pre.spec_config().enable_metrics {
                counter_inc(pre.spec_metrics().messages_sent)
            } else {
                pre.spec_metrics().messages_sent
            },
            ..pre.spec_metrics()
        })
    }

    /// What `send` and `send_with_priority` leave behind on success:
    /// a freshly stamped message is appended to the band of its
    /// priority and the id counter advances.
    pub open spec fn stamped_send(pre: MpmcQueue<T>, post: MpmcQueue<T>, m: Message<T>) -> bool {
        &&& post.band(m.priority) == pre.band(m.priority).push(m)
        &&& forall|p: Priority| p != m.priority ==> post.band(p) == pre.band(p)
        &&& post.dlq() == pre.dlq()
        &&& post.spec_config() == pre.spec_config()
        &&& post.spec_next_message_id() == if pre.spec_next_message_id() == u64::MAX {
            0u64
        } else {
            (pre.spec_next_message_id() + 1) as u64
        }
        &&& post.spec_is_shutdown() == pre.spec_is_shutdown()
        &&& post.spec_metrics() == (RusqMetrics {
            messages_sent: if pre.spec_config().enable_metrics {
                counter_inc(pre.spec_metrics().messages_sent)
            } else {
                pre.spec_metrics().messages_sent
            },
            ..pre.spec_metrics()
        })
    }

    /// Enqueue a pre-built message into the band of its priority.
    /// Fails fast when the queue is shut down or the band is full.
    pub fn send_message(&mut self, message: Message<T>) -> (r: Result<(), RusqError>)
        requires
            old(self).wf(),
        ensures
            final(self).wf(),
            old(self).spec_is_shutdown() ==> r == Result::<(), RusqError>::Err(
                RusqError::QueueShutdown,
            ) && *final(self) == *old(self),
            !old(self).spec_is_shutdown() && old(self).band_full(message.priority) ==> r
                == Result::<(), RusqError>::Err(RusqError::QueueFull) && *final(self) == *old(
                self,
            ),
            !old(self).spec_is_shutdown() && !old(self).band_full(message.priority) ==> r
                == Result::<(), RusqError>::Ok(()) && Self::sent_to_band(
                *old(self),
                *final(self),
                message,
            ),
    {
        if self.is_shutdown {
            return Err(RusqError::QueueShutdown);
        }
        let full = match self.config.capacity {
            Some(c) => {
                let len = match message.priority {
                    Priority::Critical => self.critical.len(),
                    Priority::High => self.high.len(),
                    Priority::Normal => self.normal.len(),
                    Priority::Low => self.low.len(),
                };
                len >= c
            },
            None => false,
        };
        if full {
            return Err(RusqError::QueueFull);
        }
        match message.priority {
            Priority::Critical => self.critical.push(message),
            Priority::High => self.high.push(message),
            Priority::Normal => self.normal.push(message),
            Priority::Low => self.low.push(message),
        }
        if self.config.enable_metrics {
            self.metrics.increment_sent();
        }
        Ok(())
    }

    /// Build a message at `Normal` priority, stamp a fresh id, and
    /// enqueue it.
    pub fn send(&mut self, payload: T, topic: String) -> (r: Result<(), RusqError>)
        requires
            old(self).wf(),
        ensures
            final(self).wf(),
            old(self).spec_is_shutdown() ==> r == Result::<(), RusqError>::Err(
                RusqError::QueueShutdown,
            ) && *final(self) == *old(self),
            !old(self).spec_is_shutdown() && old(self).band_full(Priority::Normal) ==> r
                == Result::<(), RusqError>::Err(RusqError::QueueFull) && *final(self) == *old(
                self,
            ),
            !old(self).spec_is_shutdown() && !old(self).band_full(Priority::Normal) ==> r
                == Result::<(), RusqError>::Ok(()) && exists|m: Message<T>|
                {
                    &&& #[trigger] Self::stamped_send(*old(self), *final(self), m)
                    &&& m.id == old(self).spec_next_message_id()
                    &&& m.payload == payload
                    &&& m.priority is Normal
                    &&& m.retry_count == 0
                    &&& m.topic == topic
                },
    {
        self.send_with_priority(payload, topic, Priority::Normal)
    }

    /// Build a message at the given priority, stamp a fresh id, and
    /// enqueue it.
    pub fn send_with_priority(&mut self, payload: T, topic: String, priority: Priority) -> (r:
        Result<(), RusqError>)
        requires
            old(self).wf(),
        ensures
            final(self).wf(),
            old(self).spec_is_shutdown() ==> r == Result::<(), RusqError>::Err(
                RusqError::QueueShutdown,
            ) && *final(self) == *old(self),
            !old(self).spec_is_shutdown() && old(self).band_full(priority) ==> r
                == Result::<(), RusqError>::Err(RusqError::QueueFull) && *final(self) == *old(
                self,
            ),
            !old(self).spec_is_shutdown() && !old(self).band_full(priority) ==> r
                == Result::<(), RusqError>::Ok(()) && exists|m: Message<T>|
                {
                    &&& #[trigger] Self::stamped_send(*old(self), *final(self), m)
                    &&& m.id == old(self).spec_next_message_id()
                    &&& m.payload == payload
                    &&& m.priority == priority
                    &&& m.retry_count == 0
                    &&& m.topic == topic
                },
    {
        if self.is_shutdown {
            return Err(RusqError::QueueShutdown);
        }
        let full = match self.config.capacity {
            Some(c) => {
                let len = match priority {
                    Priority::Critical => self.critical.len(),
                    Priority::High => self.high.len(),
                    Priority::Normal => self.normal.len(),
                    Priority::Low => self.low.len(),
                };
                len >= c
            },
            None => false,
        };
        if full {
            return Err(RusqError::QueueFull);
        }
        let ghost pre = *self;
        let mut message = Message::new(payload, topic).with_priority(priority);
        message.id = self.generate_message_id();
        let ghost stamped = *self;
        let r = self.send_message(message);
        proof {
            assert(forall|p: Priority| stamped.band(p) == pre.band(p));
            assert(!stamped.band_full(priority));
            assert(r == Result::<(), RusqError>::Ok(()));
            assert(Self::stamped_send(pre, *self, message));
        }
        Ok(())
    }

    /// What `try_recv` leaves behind on success: the head of the
    /// highest non-empty band is removed and returned.  Shutdown does
    /// not block this: queued messages stay drainable.
    pub open spec fn recv_transition(pre: MpmcQueue<T>, post: MpmcQueue<T>, m: Message<T>) -> bool {
        &&& pre.band(m.priority).len() > 0
        &&& m == pre.band(m.priority)[0]
        &&& post.band(m.priority) == pre.band(m.priority).subrange(
            1,
            pre.band(m.priority).len() as int,
        )
        &&& forall|p: Priority|
            p.rank_spec() > m.priority.rank_spec() ==> (#[trigger] pre.band(p)).len() == 0
        &&& forall|p: Priority| p != m.priority ==> post.band(p) == pre.band(p)
        &&& post.dlq() == pre.dlq()
        &&& post.spec_config() == pre.spec_config()
        &&& post.spec_next_message_id() == pre.spec_next_message_id()
        &&& post.spec_is_shutdown() == pre.spec_is_shutdown()
        &&& post.spec_metrics() == (RusqMetrics {
            messages_received: if pre.spec_config().enable_metrics {
                counter_inc(pre.spec_metrics().messages_received)
            } else {
                pre.spec_metrics().messages_received
            },
            ..pre.spec_metrics()
        })
    }

    /// Non-blocking receive in strict priority order: Critical, then
    /// High, then Normal, then Low.  A shut-down queue keeps handing
    /// out what is already queued; only once the bands are empty does
    /// it report the shutdown instead of plain emptiness.
    pub fn try_recv(&mut self) -> (r: Result<Message<T>, RusqError>)
        requires
            old(self).wf(),
        ensures
            final(self).wf(),
            old(self).spec_is_shutdown() && old(self).all_bands_empty() ==> r
                == Result::<Message<T>, RusqError>::Err(RusqError::QueueShutdown) && *final(self)
                == *old(self),
            !old(self).spec_is_shutdown() && old(self).all_bands_empty() ==> r
                == Result::<Message<T>, RusqError>::Err(RusqError::Empty) && *final(self) == *old(
                self,
            ),
            !old(self).all_bands_empty() ==> r is Ok && Self::recv_transition(
                *old(self),
                *final(self),
                r->Ok_0,
            ),
    {
        if self.critical.len() > 0 {
            proof {
                assert(old(self).band(Priority::Critical).len() > 0);
            }
            let m = self.critical.remove(0);
            proof {
                assert(self.critical@ =~= old(self).critical@.subrange(
                    1,
                    old(self).critical@.len() as int,
                ));
            }
            if self.config.enable_metrics {
                self.metrics.increment_received();
            }
            return Ok(m);
        }
        if self.high.len() > 0 {
            proof {
                assert(old(self).band(Priority::High).len() > 0);
            }
            let m = self.high.remove(0);
            proof {
                assert(self.high@ =~= old(self).high@.subrange(1, old(self).high@.len() as int));
            }
            if self.config.enable_metrics {
                self.metrics.increment_received();
            }
            return Ok(m);
        }
        if self.normal.len() > 0 {
            proof {
                assert(old(self).band(Priority::Normal).len() > 0);
            }
            let m = self.normal.remove(0);
            proof {
                assert(self.normal@ =~= old(self).normal@.subrange(
                    1,
                    old(self).normal@.len() as int,
                ));
            }
            if self.config.enable_metrics {
                self.metrics.increment_received();
            }
            return Ok(m);
        }
        if self.low.len() > 0 {
            proof {
                assert(old(self).band(Priority::Low).len() > 0);
            }
            let m = self.low.remove(0);
            proof {
                assert(self.low@ =~= old(self).low@.subrange(1, old(self).low@.len() as int));
            }
            if self.config.enable_metrics {
                self.metrics.increment_received();
            }
            return Ok(m);
        }
        proof {
            assert forall|p: Priority| (#[trigger] old(self).band(p)).len() == 0 by {
                match p {
                    Priority::Critical => assert(old(self).band(p) == old(self).critical@),
                    Priority::High => assert(old(self).band(p) == old(self).high@),
                    Priority::Normal => assert(old(self).band(p) == old(self).normal@),
                    Priority::Low => assert(old(self).band(p) == old(self).low@),
                }
            }
        }
        if self.is_shutdown {
            Err(RusqError::QueueShutdown)
        } else {
            Err(RusqError::Empty)
        }
    }

    /// Record a failed delivery.  The retry counter is bumped; once
    /// it exceeds `max_retries` the message moves to the dead-letter
    /// queue, otherwise the caller is asked to re-send it.
    pub fn nack(&mut self, message: Message<T>) -> (r: Result<(), RusqError>)
        requires
            old(self).wf(),
            message.retry_count < u32::MAX,
        ensures
            final(self).wf(),
            forall|p: Priority| final(self).band(p) == old(self).band(p),
            final(self).spec_config() == old(self).spec_config(),
            final(self).spec_next_message_id() == old(self).spec_next_message_id(),
            final(self).spec_is_shutdown() == old(self).spec_is_shutdown(),
            message.retry_count + 1 > old(self).spec_config().max_retries ==> {
                &&& r == Result::<(), RusqError>::Ok(())
                &&& final(self).dlq() == old(self).dlq().push(
                    Message { retry_count: (message.retry_count + 1) as u32, ..message },
                )
            },
            message.retry_count + 1 <= old(self).spec_config().max_retries ==> {
                &&& r == Result::<(), RusqError>::Err(RusqError::RetryRequired)
                &&& final(self).dlq() == old(self).dlq()
            },
            final(self).spec_metrics() == (RusqMetrics {
                messages_failed: if old(self).spec_config().enable_metrics {
                    counter_inc(old(self).spec_metrics().messages_failed)
                } else {
                    old(self).spec_metrics().messages_failed
                },
                messages_retried: if old(self).spec_config().enable_metrics && message.retry_count
                    + 1 <= old(self).spec_config().max_retries {
                    counter_inc(old(self).spec_metrics().messages_retried)
                } else {
                    old(self).spec_metrics().messages_retried
                },
                ..old(self).spec_metrics()
            }),
    {
        let mut message = message;
        message.retry_count = message.retry_count + 1;
        if self.config.enable_metrics {
            self.metrics.increment_failed();
        }
        if message.retry_count > self.config.max_retries {
            self.dead_letter.push(message);
            Ok(())
        } else {
            if self.config.enable_metrics {
                self.metrics.increment_retried();
            }
            Err(RusqError::RetryRequired)
        }
    }

    /// Pop the oldest message from the dead-letter queue, if any.
    pub fn dead_letter_try_recv(&mut self) -> (r: Result<Message<T>, RusqError>)
        requires
            old(self).wf(),
        ensures
            final(self).wf(),
            forall|p: Priority| final(self).band(p) == old(self).band(p),
            final(self).spec_config() == old(self).spec_config(),
            final(self).spec_metrics() == old(self).spec_metrics(),
            final(self).spec_next_message_id() == old(self).spec_next_message_id(),
            final(self).spec_is_shutdown() == old(self).spec_is_shutdown(),
            old(self).dlq().len() == 0 ==> r == Result::<Message<T>, RusqError>::Err(
                RusqError::Empty,
            ) && final(self).dlq() == old(self).dlq(),
            old(self).dlq().len() > 0 ==> r == Result::<Message<T>, RusqError>::Ok(
                old(self).dlq()[0],
            ) && final(self).dlq() == old(self).dlq().subrange(1, old(self).dlq().len() as int),
    {
        if self.dead_letter.len() > 0 {
            let m = self.dead_letter.remove(0);
            proof {
                assert(self.dead_letter@ =~= old(self).dead_letter@.subrange(
                    1,
                    old(self).dead_letter@.len() as int,
                ));
            }
            Ok(m)
        } else {
            Err(RusqError::Empty)
        }
    }

    /// A point-in-time copy of the metric counters.
    pub fn metrics(&self) -> (s: MetricsSnapshot)
        ensures
            s.messages_sent == self.spec_metrics().messages_sent,
            s.messages_received == self.spec_metrics().messages_received,
            s.messages_failed == self.spec_metrics().messages_failed,
            s.messages_retried == self.spec_metrics().messages_retried,
            s.active_producers == self.spec_metrics().active_producers,
            s.active_consumers == self.spec_metrics().active_consumers,
    {
        self.metrics.snapshot()
    }

    /// Shut the queue down: sticky, observed by every later send.
    /// Messages already queued stay drainable.
    pub fn shutdown(&mut self)
        ensures
            final(self).spec_is_shutdown(),
            forall|p: Priority| final(self).band(p) == old(self).band(p),
            final(self).dlq() == old(self).dlq(),
            final(self).spec_config() == old(self).spec_config(),
            final(self).spec_metrics() == old(self).spec_metrics(),
            final(self).spec_next_message_id() == old(self).spec_next_message_id(),
            final(self).wf() == old(self).wf(),
    {
        self.is_shutdown = true;
    }

    /// Whether `shutdown` has been called.
    pub fn is_shutdown(&self) -> (r: bool)
        ensures
            r == self.spec_is_shutdown(),
    {
        self.is_shutdown
    }
}

/// Priority dominance: when a consumer call returns one of two
/// messages that were both waiting in the queue, it returns the one
/// with the higher priority.
pub proof fn lemma_priority_dominance<T>(
    pre: MpmcQueue<T>,
    post: MpmcQueue<T>,
    returned: Message<T>,
    m1: Message<T>,
    m2: Message<T>,
)
    requires
        pre.wf(),
        MpmcQueue::recv_transition(pre, post, returned),
        pre.msg_present(m1),
        pre.msg_present(m2),
        m1.priority.rank_spec() > m2.priority.rank_spec(),
        returned == m1 || returned == m2,
    ensures
        returned == m1,
{
    if returned == m2 {
        assert(pre.band(m1.priority).len() > 0);
        assert(m1.priority.rank_spec() > returned.priority.rank_spec());
        assert(pre.band(m1.priority).len() == 0);
    }
}

} // verus!
