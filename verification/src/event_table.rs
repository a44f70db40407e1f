//! The table from log topics to pool event kinds.
use crate::bytes::{same_bytes, Topic};
use crate::pool_event::{
    all_pool_events, event_topic, lemma_event_position, pool_events, UnifiedPoolEvent,
};
use vstd::prelude::*;

verus! {

/// The map that the topics of `kinds` make, each topic to its kind, built
/// by inserting them in order (a later kind with the same topic wins).
pub open spec fn topic_map(kinds: Seq<UnifiedPoolEvent>) -> Map<Seq<u8>, UnifiedPoolEvent>
    decreases kinds.len(),
{
    if kinds.len() == 0 {
        Map::empty()
    } else {
        topic_map(kinds.drop_last()).insert(event_topic(kinds.last()), kinds.last())
    }
}

/// A map from log topics to event kinds, each topic at most once.
#[derive(Debug)]
pub struct EventTable {
    entries: Vec<(Topic, UnifiedPoolEvent)>,
}

impl EventTable {
    #[verifier::type_invariant]
    spec fn distinct_topics(self) -> bool {
        forall|i: int, j: int|
            0 <= i < j < self.entries@.len() ==> (#[trigger] self.entries@[i]).0@
                != (#[trigger] self.entries@[j]).0@
    }

    spec fn has_topic_at(self, k: Seq<u8>, i: int) -> bool {
        0 <= i < self.entries@.len() && self.entries@[i].0@ == k
    }

    /// The topics and kinds the table holds.
    pub closed spec fn view(self) -> Map<Seq<u8>, UnifiedPoolEvent> {
        Map::new(
            |k: Seq<u8>| exists|i: int| self.has_topic_at(k, i),
            |k: Seq<u8>| self.entries@[choose|i: int| self.has_topic_at(k, i)].1,
        )
    }

    proof fn lemma_view_at(self, i: int)
        requires
            self.distinct_topics(),
            0 <= i < self.entries@.len(),
        ensures
            self.view().contains_key(self.entries@[i].0@),
            self.view()[self.entries@[i].0@] == self.entries@[i].1,
    {
        let k = self.entries@[i].0@;
        assert(self.has_topic_at(k, i));
        let c = choose|c: int| self.has_topic_at(k, c);
        assert(c == i);
    }

    /// Storing `(k, event)` at position `i`, either over an entry with
    /// topic `k` or as a new last entry, inserts `k` into the view.
    proof fn lemma_view_after_store(
        before: Self,
        after: Self,
        i: int,
        k: Seq<u8>,
        event: UnifiedPoolEvent,
    )
        requires
            before.distinct_topics(),
            after.distinct_topics(),
            0 <= i < after.entries@.len(),
            after.entries@[i].0@ == k,
            after.entries@[i].1 == event,
            i < before.entries@.len() ==> before.entries@[i].0@ == k,
            after.entries@.len() == before.entries@.len() || (after.entries@.len()
                == before.entries@.len() + 1 && i == before.entries@.len()),
            forall|j: int| 0 <= j < after.entries@.len() && j != i ==> after.entries@[j] == before.entries@[j],
        ensures
            after.view() == before.view().insert(k, event),
    {
        assert forall|x: Seq<u8>| #[trigger]
            after.view().contains_key(x) == before.view().insert(k, event).contains_key(x) by {
            if after.view().contains_key(x) {
                let j = choose|j: int| after.has_topic_at(x, j);
                if j != i {
                    assert(before.has_topic_at(x, j));
                }
            }
            if before.view().contains_key(x) {
                let j = choose|j: int| before.has_topic_at(x, j);
                assert(after.has_topic_at(x, j));
            }
            if x == k {
                assert(after.has_topic_at(x, i));
            }
        }
        assert forall|x: Seq<u8>| #[trigger]
            after.view().contains_key(x) implies after.view()[x] == before.view().insert(k, event)[x] by {
            let j = choose|j: int| after.has_topic_at(x, j);
            after.lemma_view_at(j);
            if j != i {
                before.lemma_view_at(j);
            }
        }
        assert(after.view() =~= before.view().insert(k, event));
    }

    /// An empty table.
    pub fn new() -> (t: Self)
        ensures
            t.view() == Map::<Seq<u8>, UnifiedPoolEvent>::empty(),
    {
        let t = EventTable { entries: Vec::new() };
        assert(t.view() =~= Map::<Seq<u8>, UnifiedPoolEvent>::empty());
        t
    }

    /// The position of `topic` in the entries, if it is there.
    fn position(&self, topic: &Topic) -> (r: Option<usize>)
        ensures
            match r {
                Some(i) => i < self.entries@.len() && self.entries@[i as int].0@ == topic@,
                None => !self.view().contains_key(topic@),
            },
    {
        let mut i: usize = 0;
        while i < self.entries.len()
            invariant
                i <= self.entries@.len(),
                forall|j: int| 0 <= j < i ==> self.entries@[j].0@ != topic@,
            decreases self.entries@.len() - i,
        {
            if same_bytes(&self.entries[i].0, topic) {
                return Some(i);
            }
            i = i + 1;
        }
        None
    }

    /// The kind stored under `topic`, if any.
    pub fn get(&self, topic: &Topic) -> (r: Option<UnifiedPoolEvent>)
        ensures
            r == (if self.view().contains_key(topic@) {
                Some(self.view()[topic@])
            } else {
                None
            }),
    {
        proof {
            use_type_invariant(self);
        }
        match self.position(topic) {
            Some(i) => {
                proof {
                    self.lemma_view_at(i as int);
                }
                Some(self.entries[i].1)
            },
            None => None,
        }
    }

    /// Stores `event` under `topic`, replacing what was stored there.
    pub fn insert(&mut self, topic: Topic, event: UnifiedPoolEvent)
        ensures
            final(self).view() == old(self).view().insert(topic@, event),
    {
        proof {
            use_type_invariant(&*self);
        }
        let ghost old_table = *self;
        let found = self.position(&topic);
        let mut entries: Vec<(Topic, UnifiedPoolEvent)> = Vec::new();
        std::mem::swap(&mut entries, &mut self.entries);
        match found {
            Some(i) => {
                entries.set(i, (topic, event));
                self.entries = entries;
                proof {
                    EventTable::lemma_view_after_store(old_table, *self, i as int, topic@, event);
                }
            },
            None => {
                entries.push((topic, event));
                proof {
                    assert forall|i: int, j: int|
                        0 <= i < j < entries@.len() implies (#[trigger] entries@[i]).0@
                            != (#[trigger] entries@[j]).0@ by {
                        if j == old_table.entries@.len() {
                            assert(!old_table.has_topic_at(topic@, i));
                        }
                    }
                }
                self.entries = entries;
                proof {
                    EventTable::lemma_view_after_store(
                        old_table,
                        *self,
                        old_table.entries@.len() as int,
                        topic@,
                        event,
                    );
                }
            },
        }
    }
}

impl View for EventTable {
    type V = Map<Seq<u8>, UnifiedPoolEvent>;

    open spec fn view(&self) -> Map<Seq<u8>, UnifiedPoolEvent> {
        EventTable::view(*self)
    }
}

/// The table from the topic of every known event kind to that kind.
pub fn generate_pools_events_map() -> (t: EventTable)
    ensures
        t@ == topic_map(all_pool_events()),
{
    let kinds = pool_events();
    let mut t = EventTable::new();
    let mut i: usize = 0;
    while i < kinds.len()
        invariant
            kinds@ == all_pool_events(),
            i <= kinds@.len(),
            t@ == topic_map(kinds@.take(i as int)),
        decreases kinds@.len() - i,
    {
        let kind = kinds[i];
        let topic = kind.topic();
        t.insert(topic, kind);
        proof {
            assert(kinds@.take(i + 1).drop_last() =~= kinds@.take(i as int));
        }
        i = i + 1;
    }
    assert(kinds@.take(kinds@.len() as int) =~= kinds@);
    t
}

/// No two of `kinds` share a topic.
pub open spec fn topics_distinct(kinds: Seq<UnifiedPoolEvent>) -> bool {
    forall|i: int, j: int|
        0 <= i < j < kinds.len() ==> event_topic(#[trigger] kinds[i]) != event_topic(
            #[trigger] kinds[j],
        )
}

/// The topics of `kinds`, in order.
pub open spec fn kind_topics(kinds: Seq<UnifiedPoolEvent>) -> Seq<Seq<u8>> {
    kinds.map_values(|e: UnifiedPoolEvent| event_topic(e))
}

/// The table of `kinds` holds exactly their topics.
pub proof fn lemma_topic_map_domain(kinds: Seq<UnifiedPoolEvent>)
    ensures
        topic_map(kinds).dom() == kind_topics(kinds).to_set(),
    decreases kinds.len(),
{
    if kinds.len() > 0 {
        let prefix = kinds.drop_last();
        lemma_topic_map_domain(prefix);
        assert(kind_topics(kinds) =~= kind_topics(prefix).push(event_topic(kinds.last())));
        kind_topics(prefix).lemma_push_to_set_commute(event_topic(kinds.last()));
        assert(topic_map(kinds).dom() =~= kind_topics(kinds).to_set());
    } else {
        assert(topic_map(kinds).dom() =~= kind_topics(kinds).to_set());
    }
}

/// When no two of `kinds` share a topic, the table of `kinds` maps the
/// topic of each to that kind.
pub proof fn lemma_topic_map_value(kinds: Seq<UnifiedPoolEvent>, i: int)
    requires
        topics_distinct(kinds),
        0 <= i < kinds.len(),
    ensures
        topic_map(kinds).contains_key(event_topic(kinds[i])),
        topic_map(kinds)[event_topic(kinds[i])] == kinds[i],
    decreases kinds.len(),
{
    let prefix = kinds.drop_last();
    if i < kinds.len() - 1 {
        assert(prefix[i] == kinds[i]);
        assert(topics_distinct(prefix)) by {
            assert forall|a: int, b: int| 0 <= a < b < prefix.len() implies event_topic(
                #[trigger] prefix[a],
            ) != event_topic(#[trigger] prefix[b]) by {
                assert(prefix[a] == kinds[a] && prefix[b] == kinds[b]);
            }
        }
        lemma_topic_map_value(prefix, i);
        assert(event_topic(kinds[i]) != event_topic(kinds[kinds.len() - 1]));
    }
}

/// The default table holds the topics of the known event kinds and nothing
/// else.
pub proof fn default_table_holds_known_topics()
    ensures
        topic_map(all_pool_events()).dom() == kind_topics(all_pool_events()).to_set(),
{
    lemma_topic_map_domain(all_pool_events());
}

/// As long as no two known event signatures hash to the same topic, the
/// default table maps the topic of every known event kind back to that kind.
pub proof fn default_table_resolves(e: UnifiedPoolEvent)
    requires
        topics_distinct(all_pool_events()),
    ensures
        topic_map(all_pool_events()).contains_key(event_topic(e)),
        topic_map(all_pool_events())[event_topic(e)] == e,
{
    let i = lemma_event_position(e);
    lemma_topic_map_value(all_pool_events(), i);
}

} // verus!
