//! The subscription registry: which channel feeds which delivery sink.

use vstd::prelude::*;
use super::types::Channel;

verus! {

/// Identity of a delivery sink: the queue between the session and one subscriber.
pub type SinkId = u64;

/// An active subscription: inbound messages of `channel` go to `sink`.
#[derive(Debug, Clone, Copy, PartialEq, Eq, Structural)]
pub struct SubscriptionEntry {
    pub channel: Channel,
    pub sink: SinkId,
}

/// No channel occurs in two entries.
pub open spec fn distinct_channels(entries: Seq<SubscriptionEntry>) -> bool {
    forall|i: int, j: int|
        0 <= i < j < entries.len() ==> (#[trigger] entries[i]).channel != (#[trigger] entries[j]).channel
}

/// No sink occurs in two entries.
pub open spec fn distinct_sinks(entries: Seq<SubscriptionEntry>) -> bool {
    forall|i: int, j: int|
        0 <= i < j < entries.len() ==> (#[trigger] entries[i]).sink != (#[trigger] entries[j]).sink
}

/// Whether some entry feeds the sink.
pub open spec fn live(entries: Seq<SubscriptionEntry>, sink: SinkId) -> bool {
    exists|i: int| 0 <= i < entries.len() && (#[trigger] entries[i]).sink == sink
}

/// `i` is the first place in `entries` that holds `channel`.
pub open spec fn first_at(entries: Seq<SubscriptionEntry>, channel: Channel, i: int) -> bool {
    &&& 0 <= i < entries.len()
    &&& entries[i].channel == channel
    &&& forall|j: int| 0 <= j < i ==> (#[trigger] entries[j]).channel != channel
}

/// Where `channel` stands in `entries`, if it does.
pub open spec fn position(entries: Seq<SubscriptionEntry>, channel: Channel) -> Option<int> {
    if exists|i: int| first_at(entries, channel, i) {
        Some(choose|i: int| first_at(entries, channel, i))
    } else {
        None
    }
}

/// The sink that `channel` feeds, if it is subscribed.
pub open spec fn sink_of(entries: Seq<SubscriptionEntry>, channel: Channel) -> Option<SinkId> {
    match position(entries, channel) {
        Some(i) => Some(entries[i].sink),
        None => None,
    }
}

/// `entries` after `channel` was given `sink`: in place of its earlier entry, or
/// at the end if it had none.
pub open spec fn with_entry(
    entries: Seq<SubscriptionEntry>,
    channel: Channel,
    sink: SinkId,
) -> Seq<SubscriptionEntry> {
    match position(entries, channel) {
        Some(i) => entries.update(i, SubscriptionEntry { channel, sink }),
        None => entries.push(SubscriptionEntry { channel, sink }),
    }
}

/// `entries` without the entry of `channel`.
pub open spec fn without(entries: Seq<SubscriptionEntry>, channel: Channel) -> Seq<
    SubscriptionEntry,
> {
    match position(entries, channel) {
        Some(i) => entries.remove(i),
        None => entries,
    }
}

/// How many entries hold `channel`.
pub open spec fn occurrences(entries: Seq<SubscriptionEntry>, channel: Channel) -> nat
    decreases entries.len(),
{
    if entries.len() == 0 {
        0
    } else {
        occurrences(entries.drop_last(), channel) + (if entries.last().channel == channel {
            1nat
        } else {
            0nat
        })
    }
}

/// The place found by scanning from the front is the position.
pub proof fn lemma_position_found(entries: Seq<SubscriptionEntry>, channel: Channel, i: int)
    requires
        first_at(entries, channel, i),
    ensures
        position(entries, channel) == Some(i),
{
    let k = choose|k: int| first_at(entries, channel, k);
    assert(first_at(entries, channel, k));
    if k < i {
        assert(entries[k].channel != channel);
    }
    if i < k {
        assert(entries[i].channel != channel);
    }
}

/// A channel that no entry holds has no position.
pub proof fn lemma_position_absent(entries: Seq<SubscriptionEntry>, channel: Channel)
    requires
        forall|j: int| 0 <= j < entries.len() ==> (#[trigger] entries[j]).channel != channel,
    ensures
        position(entries, channel) is None,
{
    if exists|i: int| first_at(entries, channel, i) {
        let k = choose|k: int| first_at(entries, channel, k);
        assert(entries[k].channel != channel);
    }
}

/// What a position says of the entries.
pub proof fn lemma_position_meaning(entries: Seq<SubscriptionEntry>, channel: Channel)
    ensures
        (match position(entries, channel) {
            Some(i) => first_at(entries, channel, i),
            None => forall|j: int|
                0 <= j < entries.len() ==> (#[trigger] entries[j]).channel != channel,
        }),
{
    if exists|i: int| first_at(entries, channel, i) {
    } else {
        assert forall|j: int| 0 <= j < entries.len() implies (#[trigger] entries[j]).channel
            != channel by {
            if entries[j].channel == channel {
                lemma_some_first(entries, channel, j);
            }
        }
    }
}

/// Where some entry holds the channel, one of them is the first.
proof fn lemma_some_first(entries: Seq<SubscriptionEntry>, channel: Channel, j: int)
    requires
        0 <= j < entries.len(),
        entries[j].channel == channel,
    ensures
        exists|i: int| first_at(entries, channel, i),
    decreases j,
{
    if forall|k: int| 0 <= k < j ==> (#[trigger] entries[k]).channel != channel {
        assert(first_at(entries, channel, j));
    } else {
        let k = choose|k: int| 0 <= k < j && (#[trigger] entries[k]).channel == channel;
        lemma_some_first(entries, channel, k);
    }
}

/// Giving a channel a sink keeps the channels distinct.
pub proof fn lemma_with_entry_distinct(
    entries: Seq<SubscriptionEntry>,
    channel: Channel,
    sink: SinkId,
)
    requires
        distinct_channels(entries),
    ensures
        distinct_channels(with_entry(entries, channel, sink)),
{
    lemma_position_meaning(entries, channel);
    let after = with_entry(entries, channel, sink);
    assert forall|i: int, j: int| 0 <= i < j < after.len() implies (#[trigger] after[i]).channel
        != (#[trigger] after[j]).channel by {
        match position(entries, channel) {
            Some(p) => {
                if i != p && j != p {
                    assert(entries[i].channel != entries[j].channel);
                } else if i == p {
                    assert(entries[p].channel != entries[j].channel);
                } else {
                    assert(entries[i].channel != entries[p].channel);
                }
            },
            None => {
                if j < entries.len() {
                    assert(entries[i].channel != entries[j].channel);
                } else {
                    assert(entries[i].channel != channel);
                }
            },
        }
    }
}

/// Taking a channel out keeps the channels distinct.
pub proof fn lemma_without_distinct(entries: Seq<SubscriptionEntry>, channel: Channel)
    requires
        distinct_channels(entries),
    ensures
        distinct_channels(without(entries, channel)),
{
    let after = without(entries, channel);
    assert forall|i: int, j: int| 0 <= i < j < after.len() implies (#[trigger] after[i]).channel
        != (#[trigger] after[j]).channel by {
        match position(entries, channel) {
            Some(p) => {
                lemma_position_meaning(entries, channel);
                let a = if i < p { i } else { i + 1 };
                let b = if j < p { j } else { j + 1 };
                assert(entries[a].channel != entries[b].channel);
            },
            None => {
                assert(entries[i].channel != entries[j].channel);
            },
        }
    }
}

/// After a channel was given a sink, it feeds that sink, and every other channel
/// feeds what it fed before.
pub proof fn lemma_sink_after_insert(
    entries: Seq<SubscriptionEntry>,
    channel: Channel,
    sink: SinkId,
    other: Channel,
)
    ensures
        sink_of(with_entry(entries, channel, sink), channel) == Some(sink),
        other != channel ==> sink_of(with_entry(entries, channel, sink), other) == sink_of(
            entries,
            other,
        ),
{
    let after = with_entry(entries, channel, sink);
    lemma_position_meaning(entries, channel);
    lemma_position_meaning(entries, other);
    match position(entries, channel) {
        Some(p) => {
            assert(first_at(after, channel, p)) by {
                assert forall|j: int| 0 <= j < p implies (#[trigger] after[j]).channel
                    != channel by {
                    assert(entries[j].channel != channel);
                }
            }
            lemma_position_found(after, channel, p);
        },
        None => {
            let p = entries.len() as int;
            assert(first_at(after, channel, p)) by {
                assert forall|j: int| 0 <= j < p implies (#[trigger] after[j]).channel
                    != channel by {
                    assert(entries[j].channel != channel);
                }
            }
            lemma_position_found(after, channel, p);
        },
    }
    if other != channel {
        match position(entries, other) {
            Some(q) => {
                assert(first_at(after, other, q)) by {
                    assert forall|j: int| 0 <= j < q implies (#[trigger] after[j]).channel
                        != other by {
                        assert(entries[j].channel != other);
                    }
                }
                lemma_position_found(after, other, q);
            },
            None => {
                assert forall|j: int| 0 <= j < after.len() implies (#[trigger] after[j]).channel
                    != other by {
                    if j < entries.len() {
                        assert(entries[j].channel != other);
                    }
                }
                lemma_position_absent(after, other);
            },
        }
    }
}

/// After a channel was taken out it feeds nothing, and every other channel feeds
/// what it fed before.
pub proof fn lemma_sink_after_remove(
    entries: Seq<SubscriptionEntry>,
    channel: Channel,
    other: Channel,
)
    requires
        distinct_channels(entries),
    ensures
        sink_of(without(entries, channel), channel) is None,
        other != channel ==> sink_of(without(entries, channel), other) == sink_of(entries, other),
{
    let after = without(entries, channel);
    lemma_position_meaning(entries, channel);
    lemma_position_meaning(entries, other);
    match position(entries, channel) {
        Some(p) => {
            assert forall|j: int| 0 <= j < after.len() implies (#[trigger] after[j]).channel
                != channel by {
                let k = if j < p { j } else { j + 1 };
                assert(entries[k].channel != entries[p].channel);
            }
            lemma_position_absent(after, channel);
            if other != channel {
                match position(entries, other) {
                    Some(q) => {
                        let r = if q < p { q } else { q - 1 };
                        assert(first_at(after, other, r)) by {
                            assert forall|j: int| 0 <= j < r implies (#[trigger] after[j]).channel
                                != other by {
                                let k = if j < p { j } else { j + 1 };
                                assert(entries[k].channel != other);
                            }
                        }
                        lemma_position_found(after, other, r);
                    },
                    None => {
                        assert forall|j: int| 0 <= j < after.len() implies (
                        #[trigger] after[j]).channel != other by {
                            let k = if j < p { j } else { j + 1 };
                            assert(entries[k].channel != other);
                        }
                        lemma_position_absent(after, other);
                    },
                }
            }
        },
        None => {},
    }
}

/// Subscribing a channel and then taking it out leaves what taking it out at
/// once would have left.
pub proof fn lemma_insert_then_remove(
    entries: Seq<SubscriptionEntry>,
    channel: Channel,
    sink: SinkId,
)
    ensures
        without(with_entry(entries, channel, sink), channel) == without(entries, channel),
{
    let after = with_entry(entries, channel, sink);
    lemma_position_meaning(entries, channel);
    match position(entries, channel) {
        Some(p) => {
            assert(first_at(after, channel, p)) by {
                assert forall|j: int| 0 <= j < p implies (#[trigger] after[j]).channel
                    != channel by {
                    assert(entries[j].channel != channel);
                }
            }
            lemma_position_found(after, channel, p);
            assert(after.remove(p) =~= entries.remove(p));
        },
        None => {
            let p = entries.len() as int;
            assert(first_at(after, channel, p)) by {
                assert forall|j: int| 0 <= j < p implies (#[trigger] after[j]).channel
                    != channel by {
                    assert(entries[j].channel != channel);
                }
            }
            lemma_position_found(after, channel, p);
            assert(after.remove(p) =~= entries);
        },
    }
}

/// Where the channels are distinct, a channel occurs once if it is subscribed
/// and not at all if it is not.
pub proof fn lemma_occurrences(entries: Seq<SubscriptionEntry>, channel: Channel)
    requires
        distinct_channels(entries),
    ensures
        occurrences(entries, channel) == (if sink_of(entries, channel) is Some {
            1nat
        } else {
            0nat
        }),
    decreases entries.len(),
{
    lemma_position_meaning(entries, channel);
    if entries.len() > 0 {
        let front = entries.drop_last();
        let last = entries.len() - 1;
        assert forall|i: int, j: int| 0 <= i < j < front.len() implies (#[trigger] front[i]).channel
            != (#[trigger] front[j]).channel by {
            assert(entries[i].channel != entries[j].channel);
        }
        lemma_occurrences(front, channel);
        lemma_position_meaning(front, channel);
        if entries.last().channel == channel {
            assert forall|j: int| 0 <= j < front.len() implies (#[trigger] front[j]).channel
                != channel by {
                assert(entries[j].channel != entries[last].channel);
            }
            assert(position(front, channel) is None);
            assert(first_at(entries, channel, last)) by {
                assert forall|j: int| 0 <= j < last implies (#[trigger] entries[j]).channel
                    != channel by {
                    assert(front[j].channel != channel);
                }
            }
            lemma_position_found(entries, channel, last);
        } else {
            match position(front, channel) {
                Some(p) => {
                    assert(first_at(entries, channel, p)) by {
                        assert forall|j: int| 0 <= j < p implies (#[trigger] entries[j]).channel
                            != channel by {
                            assert(front[j].channel != channel);
                        }
                    }
                    lemma_position_found(entries, channel, p);
                },
                None => {
                    assert forall|j: int| 0 <= j < entries.len() implies (
                    #[trigger] entries[j]).channel != channel by {
                        if j < last {
                            assert(front[j].channel != channel);
                        }
                    }
                    lemma_position_absent(entries, channel);
                },
            }
        }
    }
}

/// The sinks that are live after a channel was given a sink that no entry fed:
/// the new sink, and every earlier one but the channel's own.
pub proof fn lemma_live_after_insert(
    entries: Seq<SubscriptionEntry>,
    channel: Channel,
    sink: SinkId,
    other: SinkId,
)
    requires
        distinct_sinks(entries),
        !live(entries, sink),
    ensures
        distinct_sinks(with_entry(entries, channel, sink)),
        live(with_entry(entries, channel, sink), other) <==> other == sink || (live(entries, other)
            && sink_of(entries, channel) != Some(other)),
{
    let after = with_entry(entries, channel, sink);
    lemma_position_meaning(entries, channel);
    assert forall|i: int, j: int| 0 <= i < j < after.len() implies (#[trigger] after[i]).sink != (
    #[trigger] after[j]).sink by {
        let p = match position(entries, channel) {
            Some(p) => p,
            None => entries.len() as int,
        };
        if i != p && j != p {
            assert(entries[i].sink != entries[j].sink);
        } else if i == p {
            assert(entries[j].sink != sink);
        } else {
            assert(entries[i].sink != sink);
        }
    }
    let p = match position(entries, channel) {
        Some(p) => p,
        None => entries.len() as int,
    };
    assert(after[p].sink == sink);
    if live(after, other) && other != sink {
        let i = choose|i: int| 0 <= i < after.len() && (#[trigger] after[i]).sink == other;
        assert(i != p);
        assert(entries[i].sink == other);
        if position(entries, channel) is Some {
            assert(entries[p].sink != entries[i].sink);
        }
    }
    if live(entries, other) && sink_of(entries, channel) != Some(other) {
        let i = choose|i: int| 0 <= i < entries.len() && (#[trigger] entries[i]).sink == other;
        assert(i != p);
        assert(after[i].sink == other);
    }
}

/// The sinks that are live after a channel was taken out: every earlier one but
/// the channel's own.
pub proof fn lemma_live_after_remove(
    entries: Seq<SubscriptionEntry>,
    channel: Channel,
    other: SinkId,
)
    requires
        distinct_sinks(entries),
    ensures
        distinct_sinks(without(entries, channel)),
        live(without(entries, channel), other) <==> live(entries, other) && sink_of(
            entries,
            channel,
        ) != Some(other),
{
    let after = without(entries, channel);
    lemma_position_meaning(entries, channel);
    match position(entries, channel) {
        Some(p) => {
            assert forall|i: int, j: int| 0 <= i < j < after.len() implies (
            #[trigger] after[i]).sink != (#[trigger] after[j]).sink by {
                let a = if i < p { i } else { i + 1 };
                let b = if j < p { j } else { j + 1 };
                assert(entries[a].sink != entries[b].sink);
            }
            if live(after, other) {
                let i = choose|i: int| 0 <= i < after.len() && (#[trigger] after[i]).sink == other;
                let a = if i < p { i } else { i + 1 };
                assert(entries[a].sink == other);
                if a < p {
                    assert(entries[a].sink != entries[p].sink);
                } else {
                    assert(entries[p].sink != entries[a].sink);
                }
            }
            if live(entries, other) && sink_of(entries, channel) != Some(other) {
                let a = choose|a: int|
                    0 <= a < entries.len() && (#[trigger] entries[a]).sink == other;
                assert(a != p);
                let i = if a < p { a } else { a - 1 };
                assert(after[i].sink == other);
            }
        },
        None => {},
    }
}

/// The registry of a session: at most one entry for each channel, in the order in
/// which the channels were first subscribed.
pub struct Registry {
    entries: Vec<SubscriptionEntry>,
}

impl View for Registry {
    type V = Seq<SubscriptionEntry>;

    closed spec fn view(&self) -> Seq<SubscriptionEntry> {
        self.entries@
    }
}

impl Registry {
    /// The registry's invariant: no channel has two entries.
    pub open spec fn wf(&self) -> bool {
        distinct_channels(self@)
    }

    /// A registry without entries.
    pub fn new() -> (registry: Self)
        ensures
            registry@ == Seq::<SubscriptionEntry>::empty(),
            registry.wf(),
    {
        Registry { entries: Vec::new() }
    }

    /// The number of subscribed channels.
    pub fn len(&self) -> (n: usize)
        ensures
            n == self@.len(),
    {
        self.entries.len()
    }

    /// Whether no channel is subscribed.
    pub fn is_empty(&self) -> (empty: bool)
        ensures
            empty == (self@.len() == 0),
    {
        self.entries.len() == 0
    }

    fn find(&self, channel: Channel) -> (found: Option<usize>)
        ensures
            (match found {
                Some(i) => position(self@, channel) == Some(i as int) && i < self@.len(),
                None => position(self@, channel) is None,
            }),
    {
        let mut i: usize = 0;
        while i < self.entries.len()
            invariant
                i <= self.entries.len(),
                forall|j: int| 0 <= j < i ==> (#[trigger] self.entries@[j]).channel != channel,
            decreases self.entries.len() - i,
        {
            if self.entries[i].channel == channel {
                proof {
                    lemma_position_found(self.entries@, channel, i as int);
                }
                return Some(i);
            }
            i = i + 1;
        }
        proof {
            lemma_position_absent(self.entries@, channel);
        }
        None
    }

    /// The sink that `channel` feeds, if it is subscribed.
    pub fn get(&self, channel: Channel) -> (sink: Option<SinkId>)
        ensures
            sink == sink_of(self@, channel),
    {
        match self.find(channel) {
            Some(i) => Some(self.entries[i].sink),
            None => None,
        }
    }

    /// Gives `channel` the sink `sink`. An earlier entry of the channel is replaced,
    /// and its sink is returned.
    pub fn insert(&mut self, channel: Channel, sink: SinkId) -> (replaced: Option<SinkId>)
        ensures
            final(self)@ == with_entry(old(self)@, channel, sink),
            replaced == sink_of(old(self)@, channel),
            old(self).wf() ==> final(self).wf(),
    {
        proof {
            if self.wf() {
                lemma_with_entry_distinct(self.entries@, channel, sink);
            }
        }
        let entry = SubscriptionEntry { channel, sink };
        match self.find(channel) {
            Some(i) => {
                let earlier = self.entries[i].sink;
                self.entries.set(i, entry);
                Some(earlier)
            },
            None => {
                proof {
                    lemma_position_meaning(self.entries@, channel);
                }
                self.entries.push(entry);
                None
            },
        }
    }

    /// Takes the entry of `channel` out and returns its sink, if there was one.
    pub fn remove(&mut self, channel: Channel) -> (removed: Option<SinkId>)
        ensures
            final(self)@ == without(old(self)@, channel),
            removed == sink_of(old(self)@, channel),
            old(self).wf() ==> final(self).wf(),
    {
        proof {
            if self.wf() {
                lemma_without_distinct(self.entries@, channel);
            }
        }
        match self.find(channel) {
            Some(i) => {
                let entry = self.entries.remove(i);
                Some(entry.sink)
            },
            None => None,
        }
    }

    /// Takes every entry out and returns the sinks, in the order of the entries.
    pub fn drain(&mut self) -> (sinks: Vec<SinkId>)
        ensures
            final(self)@ == Seq::<SubscriptionEntry>::empty(),
            sinks@ == old(self)@.map_values(|e: SubscriptionEntry| e.sink),
    {
        let mut sinks: Vec<SinkId> = Vec::new();
        let mut i: usize = 0;
        while i < self.entries.len()
            invariant
                i <= self.entries.len(),
                self.entries@ == old(self).entries@,
                sinks@ == self.entries@.take(i as int).map_values(|e: SubscriptionEntry| e.sink),
            decreases self.entries.len() - i,
        {
            sinks.push(self.entries[i].sink);
            proof {
                let f = |e: SubscriptionEntry| e.sink;
                assert(self.entries@.take(i + 1).map_values(f) =~= self.entries@.take(
                    i as int,
                ).map_values(f).push(f(self.entries@[i as int])));
            }
            i = i + 1;
        }
        proof {
            assert(self.entries@.take(i as int) =~= self.entries@);
        }
        self.entries.clear();
        sinks
    }
}

} // verus!
