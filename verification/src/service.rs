//! The service itself: the four-counter store, the single-slot registration
//! of a live-stream consumer, and the notification that follows every
//! mutation.

use vstd::prelude::*;
use vstd::string::StringSliceAdditionalSpecFns;
use vstd::utf8::encode_utf8_decode_utf8;
use futures::channel::mpsc::{UnboundedReceiver, UnboundedSender};
use crate::channel::{new_stream_channel, queued, try_send};
use crate::counting::spec_increment_counters;
use crate::msg::Msg;

verus! {

/// The liveness probe's response, and the acknowledgment body of every
/// successful mutation: a fixed text, produced without touching any state.
pub fn health_check() -> (r: &'static str)
    ensures
        r@ == "OK"@,
{
    "OK"
}

/// Why a reset request was refused.
#[derive(Clone, Copy, PartialEq, Eq, Structural, Debug)]
pub enum ResetError {
    /// The bearer token did not match the shared secret.
    InvalidToken,
}

/// The fixed shared secret that authorizes a reset.
pub open spec fn spec_secret() -> Seq<char> {
    "P_LEON_KHOD_THEP"@
}

/// Whether `token` is exactly the shared secret. The comparison goes byte by
/// byte over the UTF-8 encodings, which agree exactly when the strings do.
pub fn token_ok(token: &str) -> (r: bool)
    ensures
        r <==> token@ == spec_secret(),
{
    let secret: &str = "P_LEON_KHOD_THEP";
    let tb = token.as_bytes();
    let sb = secret.as_bytes();
    proof {
        encode_utf8_decode_utf8(token@);
        encode_utf8_decode_utf8(secret@);
    }
    if tb.len() != sb.len() {
        return false;
    }
    let n: usize = tb.len();
    let mut i: usize = 0;
    while i < n
        invariant
            n == tb@.len(),
            n == sb@.len(),
            i <= n,
            tb@ == token.spec_bytes(),
            sb@ == secret.spec_bytes(),
            secret@ == spec_secret(),
            forall|k: int| 0 <= k < i ==> tb@[k] == sb@[k],
        decreases n - i,
    {
        if tb[i] != sb[i] {
            return false;
        }
        i += 1;
    }
    proof {
        assert(tb@ =~= sb@);
    }
    true
}

/// The shared state of the counter service: four counters and the slot
/// holding the currently registered live-stream consumer, if any.
///
/// The ghost fields record the notification history: `generation` counts the
/// consumers registered so far, and `log` lists every delivery attempt as the
/// generation it addressed together with the snapshot it carried.
pub struct App {
    score_1: u32,
    score_2: u32,
    score_3: u32,
    score_4: u32,
    tx: Option<UnboundedSender<(u32, u32, u32, u32)>>,
    generation: Ghost<nat>,
    log: Ghost<Seq<(nat, (u32, u32, u32, u32))>>,
}

impl App {
    /// The four counter values.
    pub closed spec fn counters(self) -> (u32, u32, u32, u32) {
        (self.score_1, self.score_2, self.score_3, self.score_4)
    }

    /// Whether a live-stream consumer is registered.
    pub closed spec fn has_consumer(self) -> bool {
        self.tx is Some
    }

    /// How many consumers have registered so far; the one in the slot, when
    /// the slot is occupied, is the latest of them.
    pub closed spec fn consumer(self) -> nat {
        self.generation@
    }

    /// Every delivery attempt made so far, oldest first: the registration
    /// generation of the consumer it addressed, and the snapshot it carried.
    pub closed spec fn deliveries(self) -> Seq<(nat, (u32, u32, u32, u32))> {
        self.log@
    }

    /// What the registered consumer's channel holds (empty when none is
    /// registered).
    pub closed spec fn consumer_queue(self) -> Seq<(u32, u32, u32, u32)> {
        match self.tx {
            Some(t) => queued(t),
            None => Seq::empty(),
        }
    }

    /// A well-formed service state: the slot is occupied exactly once a first
    /// consumer has registered, and the delivery log addresses registered
    /// consumers in registration order.
    pub closed spec fn wf(self) -> bool {
        &&& (self.tx is Some <==> self.generation@ >= 1)
        &&& (forall|i: int|
            0 <= i < self.log@.len() ==> 1 <= (#[trigger] self.log@[i]).0 <= self.generation@)
        &&& (forall|i: int, j: int|
            0 <= i <= j < self.log@.len() ==> (#[trigger] self.log@[i]).0
                <= (#[trigger] self.log@[j]).0)
    }
}

/// Both states see the same consumer: the slot's occupancy and the latest
/// registration generation agree.
pub open spec fn keeps_consumer(pre: App, post: App) -> bool {
    &&& post.has_consumer() == pre.has_consumer()
    &&& post.consumer() == pre.consumer()
}

/// Exactly one delivery attempt, carrying `snap` and addressed to the
/// consumer registered in `pre`, separates `pre` from `post` — or none at
/// all when no consumer is registered, in which case the snapshot is
/// dropped.
pub open spec fn notifies(pre: App, post: App, snap: (u32, u32, u32, u32)) -> bool {
    if pre.has_consumer() {
        post.deliveries() == pre.deliveries().push((pre.consumer(), snap))
    } else {
        post.deliveries() == pre.deliveries()
    }
}

/// The registered consumer's channel either accepted `snap` as its newest
/// message, or — only when the consumer has hung up — was left unchanged;
/// with no consumer registered nothing is queued anywhere.
pub open spec fn channel_accepts(pre: App, post: App, snap: (u32, u32, u32, u32)) -> bool {
    if pre.has_consumer() {
        post.consumer_queue() == pre.consumer_queue().push(snap) || post.consumer_queue()
            == pre.consumer_queue()
    } else {
        post.consumer_queue() == pre.consumer_queue()
    }
}

impl Default for App {
    /// A fresh service: all counters 0, no consumer ever registered, no
    /// delivery ever attempted.
    fn default() -> (r: App)
        ensures
            r.wf(),
            r.counters() == (0u32, 0u32, 0u32, 0u32),
            !r.has_consumer(),
            r.consumer() == 0,
            r.deliveries() == Seq::<(nat, (u32, u32, u32, u32))>::empty(),
    {
        App {
            score_1: 0,
            score_2: 0,
            score_3: 0,
            score_4: 0,
            tx: None,
            generation: Ghost(0),
            log: Ghost(Seq::empty()),
        }
    }
}

impl App {
    /// A service whose counters start at the given values, with no consumer
    /// registered.
    pub fn with_counts(score_1: u32, score_2: u32, score_3: u32, score_4: u32) -> (r: App)
        ensures
            r.wf(),
            r.counters() == (score_1, score_2, score_3, score_4),
            !r.has_consumer(),
            r.consumer() == 0,
            r.deliveries() == Seq::<(nat, (u32, u32, u32, u32))>::empty(),
    {
        App {
            score_1,
            score_2,
            score_3,
            score_4,
            tx: None,
            generation: Ghost(0),
            log: Ghost(Seq::empty()),
        }
    }

    /// Registers `tx` as the live-stream consumer, replacing any previous
    /// one: every later notification addresses the new consumer only.
    pub fn set_writer(&mut self, tx: UnboundedSender<(u32, u32, u32, u32)>)
        requires
            old(self).wf(),
        ensures
            final(self).wf(),
            final(self).counters() == old(self).counters(),
            final(self).has_consumer(),
            final(self).consumer() == old(self).consumer() + 1,
            final(self).deliveries() == old(self).deliveries(),
            final(self).consumer_queue() == queued(tx),
    {
        self.tx = Some(tx);
        self.generation = Ghost(self.generation@ + 1);
    }

    /// A snapshot of the four counters as they stand now.
    pub fn get_message(&self) -> (m: Msg)
        ensures
            m.spec_tuple() == self.counters(),
    {
        Msg {
            score_1: self.score_1,
            score_2: self.score_2,
            score_3: self.score_3,
            score_4: self.score_4,
        }
    }

    /// Creates a fresh delivery channel, registers its sending end as the
    /// live-stream consumer, and hands back the receiving end. The new
    /// channel starts empty: a new consumer sees no replay of earlier
    /// snapshots.
    pub fn open_stream(&mut self) -> (rx: UnboundedReceiver<(u32, u32, u32, u32)>)
        requires
            old(self).wf(),
        ensures
            final(self).wf(),
            final(self).counters() == old(self).counters(),
            final(self).has_consumer(),
            final(self).consumer() == old(self).consumer() + 1,
            final(self).deliveries() == old(self).deliveries(),
            final(self).consumer_queue() == Seq::<(u32, u32, u32, u32)>::empty(),
    {
        let pair = new_stream_channel();
        self.set_writer(pair.0);
        pair.1
    }

    /// Attempts to deliver the current snapshot to the registered consumer,
    /// if any. A failed delivery — the consumer has hung up — is dropped
    /// silently, though the attempt is still on record; with no consumer
    /// registered the snapshot is dropped without an attempt.
    pub fn try_send_update(&mut self)
        requires
            old(self).wf(),
        ensures
            final(self).wf(),
            final(self).counters() == old(self).counters(),
            keeps_consumer(*old(self), *final(self)),
            notifies(*old(self), *final(self), old(self).counters()),
            channel_accepts(*old(self), *final(self), old(self).counters()),
    {
        let snap = self.get_message().to_tuple();
        match &mut self.tx {
            Some(tx) => {
                let _delivered = try_send(tx, snap);
                self.log = Ghost(self.log@.push((self.generation@, snap)));
            },
            None => {},
        }
    }

    /// Adds one — wrapping at the counter width — to the counter named by
    /// `id` and notifies the registered consumer with the updated snapshot.
    pub fn increment(&mut self, id: usize)
        requires
            old(self).wf(),
            1 <= id <= 4,
        ensures
            final(self).wf(),
            final(self).counters() == spec_increment_counters(old(self).counters(), id as int),
            keeps_consumer(*old(self), *final(self)),
            notifies(*old(self), *final(self), final(self).counters()),
            channel_accepts(*old(self), *final(self), final(self).counters()),
    {
        if id == 1 {
            self.score_1 = self.score_1.wrapping_add(1);
        } else if id == 2 {
            self.score_2 = self.score_2.wrapping_add(1);
        } else if id == 3 {
            self.score_3 = self.score_3.wrapping_add(1);
        } else {
            self.score_4 = self.score_4.wrapping_add(1);
        }
        self.try_send_update();
    }

    /// Resets all counters if `token` matches the shared secret exactly. On
    /// a match every counter is set to 0 and the registered consumer is
    /// notified once with the all-zero snapshot; any other token is refused
    /// and the whole state — counters, consumer and delivery log — is left
    /// untouched.
    pub fn reset(&mut self, token: &str) -> (r: Result<(), ResetError>)
        requires
            old(self).wf(),
        ensures
            final(self).wf(),
            r is Ok <==> token@ == spec_secret(),
            token@ != spec_secret() ==> r == Result::<(), ResetError>::Err(
                ResetError::InvalidToken,
            ) && *final(self) == *old(self),
            token@ == spec_secret() ==> final(self).counters() == (0u32, 0u32, 0u32, 0u32),
            token@ == spec_secret() ==> keeps_consumer(*old(self), *final(self)),
            token@ == spec_secret() ==> notifies(
                *old(self),
                *final(self),
                (0u32, 0u32, 0u32, 0u32),
            ),
            token@ == spec_secret() ==> channel_accepts(
                *old(self),
                *final(self),
                (0u32, 0u32, 0u32, 0u32),
            ),
    {
        if !token_ok(token) {
            return Err(ResetError::InvalidToken);
        }
        self.reset_all();
        Ok(())
    }

    /// Sets all four counters back to 0 and notifies the registered consumer
    /// with the all-zero snapshot.
    pub fn reset_all(&mut self)
        requires
            old(self).wf(),
        ensures
            final(self).wf(),
            final(self).counters() == (0u32, 0u32, 0u32, 0u32),
            keeps_consumer(*old(self), *final(self)),
            notifies(*old(self), *final(self), (0u32, 0u32, 0u32, 0u32)),
            channel_accepts(*old(self), *final(self), (0u32, 0u32, 0u32, 0u32)),
    {
        self.score_1 = 0;
        self.score_2 = 0;
        self.score_3 = 0;
        self.score_4 = 0;
        self.try_send_update();
    }
}

/// Once a consumer has been replaced it receives nothing further: the
/// delivery log addresses consumers in registration order, each entry within
/// the generations registered so far, so no delivery after one addressed to a
/// later consumer ever falls back to an earlier one.
pub proof fn lemma_deliveries_in_registration_order(a: App, i: int, j: int)
    requires
        a.wf(),
        0 <= i <= j < a.deliveries().len(),
    ensures
        1 <= a.deliveries()[i].0,
        a.deliveries()[j].0 <= a.consumer(),
        a.deliveries()[i].0 <= a.deliveries()[j].0,
{
}

} // verus!
