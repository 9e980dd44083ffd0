//! An in-process event bus for plugins: events are kept in a bounded history,
//! oldest first, and read back newest first.

use vstd::prelude::*;

verus! {

/// The JSON value that an event carries; the library passes it through unread.
#[verifier::external_type_specification]
#[verifier::external_body]
pub struct ExJsonValue(serde_json::Value);

/// `serde_json::Value::clone`: the derived, structural copy, equal to its source.
#[verifier::external_body]
fn clone_json(v: &serde_json::Value) -> (r: serde_json::Value)
    ensures
        r == *v,
{
    v.clone()
}

/// An event published by a plugin and broadcast by the host.
#[derive(Debug)]
pub struct Event {
    /// Topic, such as `"news-published"`.
    pub topic: String,
    /// Arbitrary JSON payload.
    pub payload: serde_json::Value,
    /// Id of the plugin that published the event.
    pub source: String,
}

impl Clone for Event {
    fn clone(&self) -> (r: Self)
        ensures
            r == *self,
    {
        Event {
            topic: self.topic.clone(),
            payload: clone_json(&self.payload),
            source: self.source.clone(),
        }
    }
}

/// The events of `s` in reverse order whose topic is `topic`: what a reader asking
/// for one topic gets.
pub open spec fn newest_first_on_topic(s: Seq<Event>, topic: Seq<char>) -> Seq<Event> {
    s.reverse().filter(|e: Event| e.topic@ == topic)
}

/// The history after `e` is recorded: appended, and the oldest event dropped when the
/// history then holds more than `max` events.
pub open spec fn recorded(h: Seq<Event>, e: Event, max: nat) -> Seq<Event> {
    if h.push(e).len() > max {
        h.push(e).drop_first()
    } else {
        h.push(e)
    }
}

/// The default number of events kept.
pub const DEFAULT_MAX_HISTORY: usize = 100;

/// The event bus: a history of at most `max_history` events, oldest first.
#[derive(Debug)]
pub struct EventBus {
    history: Vec<Event>,
    max_history: usize,
}

impl EventBus {
    /// The recorded events, oldest first.
    pub closed spec fn events(&self) -> Seq<Event> {
        self.history@
    }

    /// The number of events that the history keeps.
    pub closed spec fn capacity(&self) -> nat {
        self.max_history as nat
    }

    /// Creates an event bus that keeps the last 100 events.
    pub fn new() -> (r: Self)
        ensures
            r.events() == Seq::<Event>::empty(),
            r.capacity() == DEFAULT_MAX_HISTORY,
    {
        EventBus { history: Vec::new(), max_history: DEFAULT_MAX_HISTORY }
    }

    /// Creates an event bus that keeps the last `max` events.
    pub fn with_max_history(max: usize) -> (r: Self)
        ensures
            r.events() == Seq::<Event>::empty(),
            r.capacity() == max,
    {
        EventBus { history: Vec::new(), max_history: max }
    }

    /// Records an event; when the history then holds more than its capacity, the
    /// oldest event is dropped.
    pub fn publish(&mut self, event: Event)
        ensures
            final(self).capacity() == old(self).capacity(),
            final(self).events() == recorded(old(self).events(), event, old(self).capacity()),
    {
        self.history.push(event);
        if self.history.len() > self.max_history {
            let _ = self.history.remove(0);
        }
    }

    /// The recorded events, newest first.
    pub fn history(&self) -> (r: Vec<Event>)
        ensures
            r@ == self.events().reverse(),
    {
        let n = self.history.len();
        let mut r: Vec<Event> = Vec::new();
        let mut i: usize = n;
        while i > 0
            invariant
                n == self.history@.len(),
                i <= n,
                r@.len() == n - i,
                forall|k: int| 0 <= k < r@.len() ==> #[trigger] r@[k] == self.history@[n - 1 - k],
            decreases i,
        {
            i = i - 1;
            r.push(self.history[i].clone());
        }
        assert(r@ =~= self.events().reverse());
        r
    }

    /// The recorded events of one topic, newest first.
    pub fn history_by_topic(&self, topic: &str) -> (r: Vec<Event>)
        ensures
            r@ == newest_first_on_topic(self.events(), topic@),
    {
        let ghost rev = self.history@.reverse();
        let ghost pred = |e: Event| e.topic@ == topic@;
        let n = self.history.len();
        let mut r: Vec<Event> = Vec::new();
        let mut j: usize = 0;
        while j < n
            invariant
                n == self.history@.len(),
                rev == self.history@.reverse(),
                pred == (|e: Event| e.topic@ == topic@),
                j <= n,
                r@ == rev.take(j as int).filter(pred),
            decreases n - j,
        {
            let e = &self.history[n - 1 - j];
            assert(rev[j as int] == *e);
            assert(rev.take(j + 1).drop_last() =~= rev.take(j as int));
            let ghost t = rev.take(j + 1);
            assert(t.last() == rev[j as int]);
            if crate::text::same_text(e.topic.as_str(), topic) {
                r.push(e.clone());
                assert(pred(t.last()));
            } else {
                assert(!pred(t.last()));
            }
            assert(t.filter(pred) == (if pred(t.last()) {
                t.drop_last().filter(pred).push(t.last())
            } else {
                t.drop_last().filter(pred)
            })) by {
                reveal(Seq::filter);
            }
            j = j + 1;
        }
        assert(rev.take(n as int) =~= rev);
        r
    }

    /// Empties the history.
    pub fn clear_history(&mut self)
        ensures
            final(self).events() == Seq::<Event>::empty(),
            final(self).capacity() == old(self).capacity(),
    {
        self.history.clear();
    }
}

/// The last `n` events of `s` (all of them when there are fewer).
pub open spec fn last_n(s: Seq<Event>, n: nat) -> Seq<Event> {
    if s.len() <= n {
        s
    } else {
        s.subrange(s.len() - n, s.len() as int)
    }
}

/// A history that holds at most `max` events keeps exactly the last `max` events
/// of everything published to it, the new event included; so it never grows past
/// `max`, and when `max` is positive the event just published is the newest.
pub proof fn lemma_publish_keeps_last(h: Seq<Event>, e: Event, max: nat)
    requires
        h.len() <= max,
    ensures
        recorded(h, e, max) == last_n(h.push(e), max),
        recorded(h, e, max).len() <= max,
        max > 0 ==> recorded(h, e, max).last() == e,
        max > 0 ==> recorded(h, e, max).reverse()[0] == e,
{
    if h.push(e).len() > max {
        assert(h.push(e).drop_first() =~= h.push(e).subrange(h.push(e).len() - max, h.push(e).len() as int));
    }
}

/// The history of a bus that keeps `max` events, after the events `es` are published in
/// order to an empty history.
pub open spec fn history_after(es: Seq<Event>, max: nat) -> Seq<Event>
    decreases es.len(),
{
    if es.len() == 0 {
        Seq::<Event>::empty()
    } else {
        recorded(history_after(es.drop_last(), max), es.last(), max)
    }
}

/// After events are published in order to an empty bus that keeps `max` events, its
/// history is exactly the last `min(n, max)` of them; `history()` then gives them newest
/// first.
pub proof fn lemma_history_after_publishes(es: Seq<Event>, max: nat)
    ensures
        history_after(es, max) == last_n(es, max),
        history_after(es, max).len() == if es.len() <= max { es.len() } else { max },
        forall|k: int| 0 <= k < history_after(es, max).len()
            ==> #[trigger] history_after(es, max).reverse()[k] == es[es.len() - 1 - k],
    decreases es.len(),
{
    if es.len() > 0 {
        let prev = es.drop_last();
        lemma_history_after_publishes(prev, max);
        let h = history_after(prev, max);
        lemma_publish_keeps_last(h, es.last(), max);
        let lp = last_n(prev, max);
        if prev.len() <= max {
            assert(lp.push(es.last()) =~= es);
        } else {
            let q = prev.len() - max;
            assert(lp.push(es.last()) =~= es.subrange(q, es.len() as int));
            assert(last_n(lp.push(es.last()), max) =~= last_n(es, max));
        }
    }
    let r = history_after(es, max);
    assert forall|k: int| 0 <= k < r.len() implies #[trigger] r.reverse()[k] == es[es.len() - 1 - k] by {
        assert(r.reverse()[k] == r[r.len() - 1 - k]);
    }
}

/// What a topic query returns holds only events of that topic, newest first, and
/// no more events than the whole history.
pub proof fn lemma_topic_history_sound(s: Seq<Event>, topic: Seq<char>)
    ensures
        forall|i: int| 0 <= i < newest_first_on_topic(s, topic).len()
            ==> (#[trigger] newest_first_on_topic(s, topic)[i]).topic@ == topic,
        newest_first_on_topic(s, topic).len() <= s.len(),
{
    let pred = |e: Event| e.topic@ == topic;
    let f = s.reverse().filter(pred);
    assert forall|i: int| 0 <= i < f.len() implies (#[trigger] f[i]).topic@ == topic by {
        s.reverse().lemma_filter_pred(pred, i);
    }
    s.reverse().lemma_filter_len(pred);
}

impl Default for EventBus {
    fn default() -> (r: Self)
        ensures
            r.events() == Seq::<Event>::empty(),
            r.capacity() == DEFAULT_MAX_HISTORY,
    {
        EventBus::new()
    }
}

} // verus!
