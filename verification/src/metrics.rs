//! Named metrics: counters and cardinality trackers.
//!
//! A metric accumulates observations until it is flushed; a flush hands the
//! accumulated value out together with the metric's tags and starts the next
//! interval from zero. The types here own their state and take `&mut self`;
//! callers that share a metric between threads put it behind a lock of
//! their own.
use std::collections::HashMap;
use vstd::hash_set::StringHashSet;
use vstd::prelude::*;

verus! {

pub type CardinalityItem = String;

/// What a counter is, as a mathematical value.
pub struct CounterView {
    pub name: Seq<char>,
    pub key: Seq<char>,
    pub tags: Map<String, String>,
    pub size: nat,
}

impl CounterView {
    /// The counter after `val` more has been accumulated.
    pub open spec fn add(self, val: nat) -> CounterView {
        CounterView { size: self.size + val, ..self }
    }

    /// The counter after a flush: the same metric, counting from zero.
    pub open spec fn flushed(self) -> CounterView {
        CounterView { size: 0, ..self }
    }

    /// The counter after its tags have been replaced, if any were given.
    pub open spec fn with_tags(self, tags: Option<Map<String, String>>) -> CounterView {
        match tags {
            Some(t) => CounterView { tags: t, ..self },
            None => self,
        }
    }

    /// The counter after one addition for each element of `vals`, in order.
    pub open spec fn add_all(self, vals: Seq<nat>) -> CounterView
        decreases vals.len(),
    {
        if vals.len() == 0 {
            self
        } else {
            self.add_all(vals.drop_last()).add(vals.last())
        }
    }
}

/// What a cardinality tracker is, as a mathematical value.
pub struct CardinalityView {
    pub name: Seq<char>,
    pub key: Seq<char>,
    pub tags: Map<String, String>,
    pub items: Set<Seq<char>>,
}

impl CardinalityView {
    /// The tracker after `item` has been observed.
    pub open spec fn add(self, item: Seq<char>) -> CardinalityView {
        CardinalityView { items: self.items.insert(item), ..self }
    }

    /// The tracker after a flush: the same metric with nothing observed.
    pub open spec fn flushed(self) -> CardinalityView {
        CardinalityView { items: Set::empty(), ..self }
    }

    /// The tracker after its tags have been replaced, if any were given.
    pub open spec fn with_tags(self, tags: Option<Map<String, String>>) -> CardinalityView {
        match tags {
            Some(t) => CardinalityView { tags: t, ..self },
            None => self,
        }
    }

    /// The number of distinct items observed since the last flush.
    pub open spec fn count(self) -> nat {
        self.items.len()
    }

    /// A tracker holds finitely many items. Every tracker that `new` made
    /// and the methods changed is well formed.
    pub open spec fn wf(self) -> bool {
        self.items.finite()
    }
}

/// The tags handed to `set_tags`, as a mathematical value.
pub open spec fn tags_view(tags: Option<HashMap<String, String>>) -> Option<Map<String, String>> {
    match tags {
        Some(t) => Some(t@),
        None => None,
    }
}

struct InnerCardinality {
    tags: HashMap<String, String>,
    set: StringHashSet,
}

impl InnerCardinality {
    fn new() -> (inner: Self)
        ensures
            inner.tags@ == Map::<String, String>::empty(),
            inner.set@ == Set::<Seq<char>>::empty(),
    {
        InnerCardinality { tags: HashMap::new(), set: StringHashSet::new() }
    }
}

/// Counts the distinct strings observed since the last flush.
pub struct Cardinality {
    name: String,
    key: String,
    inner: InnerCardinality,
}

impl View for Cardinality {
    type V = CardinalityView;

    closed spec fn view(&self) -> CardinalityView {
        CardinalityView {
            name: self.name@,
            key: self.key@,
            tags: self.inner.tags@,
            items: self.inner.set@,
        }
    }
}

impl Cardinality {
    pub fn new(name: String, key: String) -> (card: Cardinality)
        ensures
            card@ == (CardinalityView {
                name: name@,
                key: key@,
                tags: Map::empty(),
                items: Set::empty(),
            }),
            card@.wf(),
    {
        Cardinality { key, name, inner: InnerCardinality::new() }
    }

    /// Observes `item`; returns whether it had not been seen since the last flush.
    pub fn add(&mut self, item: CardinalityItem) -> (fresh: bool)
        ensures
            fresh == !old(self)@.items.contains(item@),
            final(self)@ == old(self)@.add(item@),
            old(self)@.wf() ==> final(self)@.wf(),
    {
        self.inner.set.insert(item)
    }

    /// Replaces the tags when some are given; leaves them alone otherwise.
    pub fn set_tags(&mut self, tags: Option<HashMap<String, String>>)
        ensures
            final(self)@ == old(self)@.with_tags(tags_view(tags)),
    {
        if let Some(tags) = tags {
            self.inner.tags = tags;
        }
    }

    /// The number of distinct items observed since the last flush.
    pub fn len(&self) -> (n: usize)
        ensures
            n == self@.count(),
    {
        self.inner.set.len()
    }

    /// Hands out the count and the tags, and forgets the observed items.
    pub fn flush(&mut self) -> (out: (usize, HashMap<String, String>))
        ensures
            out.0 == old(self)@.count(),
            out.1@ == old(self)@.tags,
            final(self)@ == old(self)@.flushed(),
            final(self)@.wf(),
    {
        let len = self.inner.set.len();
        let tags = self.inner.tags.clone();
        self.inner.set.clear();
        (len, tags)
    }
}

struct InnerCounter {
    tags: HashMap<String, String>,
    size: usize,
}

impl InnerCounter {
    fn new() -> (inner: Self)
        ensures
            inner.tags@ == Map::<String, String>::empty(),
            inner.size == 0,
    {
        InnerCounter { tags: HashMap::new(), size: 0 }
    }
}

/// Accumulates a sum until the next flush.
pub struct Counter {
    name: String,
    key: String,
    inner: InnerCounter,
}

impl View for Counter {
    type V = CounterView;

    closed spec fn view(&self) -> CounterView {
        CounterView {
            name: self.name@,
            key: self.key@,
            tags: self.inner.tags@,
            size: self.inner.size as nat,
        }
    }
}

impl Counter {
    pub fn new(name: String, key: String) -> (counter: Counter)
        ensures
            counter@ == (CounterView { name: name@, key: key@, tags: Map::empty(), size: 0 }),
    {
        Counter { key, name, inner: InnerCounter::new() }
    }

    /// Accumulates `val`; returns the sum before the addition.
    pub fn add(&mut self, val: usize) -> (before: usize)
        requires
            old(self)@.size + val <= usize::MAX,
        ensures
            before == old(self)@.size,
            final(self)@ == old(self)@.add(val as nat),
    {
        let before = self.inner.size;
        self.inner.size = before + val;
        before
    }

    /// Replaces the tags when some are given; leaves them alone otherwise.
    pub fn set_tags(&mut self, tags: Option<HashMap<String, String>>)
        ensures
            final(self)@ == old(self)@.with_tags(tags_view(tags)),
    {
        if let Some(tags) = tags {
            self.inner.tags = tags;
        }
    }

    /// The sum accumulated since the last flush.
    pub fn value(&self) -> (n: usize)
        ensures
            n == self@.size,
    {
        self.inner.size
    }

    /// Hands out the sum and the tags, and starts again from zero.
    pub fn flush(&mut self) -> (out: (usize, HashMap<String, String>))
        ensures
            out.0 == old(self)@.size,
            out.1@ == old(self)@.tags,
            final(self)@ == old(self)@.flushed(),
    {
        let before = self.inner.size;
        let tags = self.inner.tags.clone();
        self.inner.size = 0;
        (before, tags)
    }
}

/// A metric of either kind.
pub enum Metric {
    Cardinality(Cardinality),
    Counter(Counter),
}

/// What a metric is, as a mathematical value.
pub enum MetricView {
    Cardinality(CardinalityView),
    Counter(CounterView),
}

impl MetricView {
    /// The name that the registry keeps the metric under.
    pub open spec fn name(self) -> Seq<char> {
        match self {
            MetricView::Cardinality(card) => card.name,
            MetricView::Counter(counter) => counter.name,
        }
    }

    /// The key that the metric is reported under.
    pub open spec fn key(self) -> Seq<char> {
        match self {
            MetricView::Cardinality(card) => card.key,
            MetricView::Counter(counter) => counter.key,
        }
    }

    /// The tags that the metric is reported with.
    pub open spec fn tags(self) -> Map<String, String> {
        match self {
            MetricView::Cardinality(card) => card.tags,
            MetricView::Counter(counter) => counter.tags,
        }
    }

    /// The value that a flush reports: the number of distinct items of a
    /// tracker, the sum of a counter.
    pub open spec fn value(self) -> nat {
        match self {
            MetricView::Cardinality(card) => card.count(),
            MetricView::Counter(counter) => counter.size,
        }
    }

    /// The metric after a flush.
    pub open spec fn flushed(self) -> MetricView {
        match self {
            MetricView::Cardinality(card) => MetricView::Cardinality(card.flushed()),
            MetricView::Counter(counter) => MetricView::Counter(counter.flushed()),
        }
    }
}

impl View for Metric {
    type V = MetricView;

    open spec fn view(&self) -> MetricView {
        match self {
            Metric::Cardinality(card) => MetricView::Cardinality(card@),
            Metric::Counter(counter) => MetricView::Counter(counter@),
        }
    }
}

/// The place of the first metric named `name` among `metrics`.
pub open spec fn slot(metrics: Seq<MetricView>, name: Seq<char>) -> Option<int>
    decreases metrics.len(),
{
    if metrics.len() == 0 {
        None
    } else if metrics.first().name() == name {
        Some(0)
    } else {
        match slot(metrics.drop_first(), name) {
            Some(at) => Some(at + 1),
            None => None,
        }
    }
}

/// `metrics` with `metric` in the place of the metric named `name`, or
/// behind all of them where none has that name.
pub open spec fn with_metric(metrics: Seq<MetricView>, name: Seq<char>, metric: MetricView) -> Seq<
    MetricView,
> {
    match slot(metrics, name) {
        Some(at) => metrics.update(at, metric),
        None => metrics.push(metric),
    }
}

/// The tracker that a registry with the metrics `metrics` has for `name`:
/// the one that it keeps under that name, or a new one with the key and
/// the tags given where it keeps none or a counter.
pub open spec fn cardinality_for(
    metrics: Seq<MetricView>,
    name: Seq<char>,
    key: Seq<char>,
    tags: Option<Map<String, String>>,
) -> CardinalityView {
    match slot(metrics, name) {
        Some(at) => match metrics[at] {
            MetricView::Cardinality(card) => card,
            MetricView::Counter(_) => fresh_cardinality(name, key, tags),
        },
        None => fresh_cardinality(name, key, tags),
    }
}

/// A tracker that has observed nothing.
pub open spec fn fresh_cardinality(
    name: Seq<char>,
    key: Seq<char>,
    tags: Option<Map<String, String>>,
) -> CardinalityView {
    (CardinalityView { name, key, tags: Map::empty(), items: Set::empty() }).with_tags(tags)
}

/// The counter that a registry with the metrics `metrics` has for `name`:
/// the one that it keeps under that name, or a new one with the key and
/// the tags given where it keeps none or a tracker.
pub open spec fn counter_for(
    metrics: Seq<MetricView>,
    name: Seq<char>,
    key: Seq<char>,
    tags: Option<Map<String, String>>,
) -> CounterView {
    match slot(metrics, name) {
        Some(at) => match metrics[at] {
            MetricView::Counter(counter) => counter,
            MetricView::Cardinality(_) => fresh_counter(name, key, tags),
        },
        None => fresh_counter(name, key, tags),
    }
}

/// A counter that has counted nothing.
pub open spec fn fresh_counter(
    name: Seq<char>,
    key: Seq<char>,
    tags: Option<Map<String, String>>,
) -> CounterView {
    (CounterView { name, key, tags: Map::empty(), size: 0 }).with_tags(tags)
}

/// The metrics in `metrics`, each by its view.
pub open spec fn metrics_view(metrics: Seq<Metric>) -> Seq<MetricView> {
    metrics.map_values(|m: Metric| m@)
}

/// What a flush reports of one metric.
#[derive(Debug, Clone, PartialEq, Eq)]
pub struct Report {
    pub key: String,
    pub value: usize,
    pub tags: HashMap<String, String>,
}

impl Report {
    /// Whether this is what a flush reports of `metric`.
    pub open spec fn is_of(self, metric: MetricView) -> bool {
        self.key@ == metric.key() && self.value == metric.value() && self.tags@ == metric.tags()
    }
}

/// The metrics of a program, each under its name, in the order in which
/// they were first asked for.
pub struct Registry {
    metrics: Vec<Metric>,
}

impl View for Registry {
    type V = Seq<MetricView>;

    closed spec fn view(&self) -> Seq<MetricView> {
        metrics_view(self.metrics@)
    }
}

/// A place found by `slot` lies among the metrics and holds the name;
/// no place before it does.
pub proof fn lemma_slot(metrics: Seq<MetricView>, name: Seq<char>)
    ensures
        match slot(metrics, name) {
            Some(at) => 0 <= at < metrics.len() && metrics[at].name() == name && forall|i: int|
                0 <= i < at ==> (#[trigger] metrics[i]).name() != name,
            None => forall|i: int| 0 <= i < metrics.len() ==> (#[trigger] metrics[i]).name() != name,
        },
    decreases metrics.len(),
{
    if metrics.len() > 0 && metrics.first().name() != name {
        let rest = metrics.drop_first();
        lemma_slot(rest, name);
        assert(forall|i: int| 0 < i < metrics.len() ==> metrics[i] == rest[i - 1]);
    }
}

impl Metric {
    fn is_named(&self, name: &String) -> (r: bool)
        ensures
            r == (self@.name() == name@),
    {
        match self {
            Metric::Cardinality(card) => card.name == *name,
            Metric::Counter(counter) => counter.name == *name,
        }
    }
}

impl Registry {
    /// A registry without metrics.
    pub fn new() -> (registry: Registry)
        ensures
            registry@ == Seq::<MetricView>::empty(),
    {
        let registry = Registry { metrics: Vec::new() };
        assert(registry@ =~= Seq::<MetricView>::empty());
        registry
    }

    /// The number of metrics in the registry.
    pub fn len(&self) -> (n: usize)
        ensures
            n == self@.len(),
    {
        self.metrics.len()
    }

    /// The place of the first metric named `name`, or the number of metrics
    /// where none has that name.
    fn find(&self, name: &String) -> (at: usize)
        ensures
            match slot(self@, name@) {
                Some(found) => at == found && at < self.metrics@.len(),
                None => at == self.metrics@.len(),
            },
    {
        let ghost all = self@;
        let mut i: usize = 0;
        assert(all.skip(0) =~= all);
        while i < self.metrics.len()
            invariant
                i <= self.metrics@.len(),
                all == metrics_view(self.metrics@),
                match slot(all.skip(i as int), name@) {
                    Some(found) => slot(all, name@) == Some(found + i),
                    None => slot(all, name@) is None,
                },
            decreases self.metrics@.len() - i,
        {
            assert(all.skip(i as int).first() == self.metrics@[i as int]@);
            assert(all.skip(i as int).drop_first() =~= all.skip(i + 1));
            if self.metrics[i].is_named(name) {
                return i;
            }
            i += 1;
        }
        i
    }

    fn cardinality_at(&mut self, at: usize) -> (card: &mut Cardinality)
        requires
            at < old(self).metrics@.len(),
            old(self).metrics@[at as int] is Cardinality,
        ensures
            *card == old(self).metrics@[at as int]->Cardinality_0,
            final(self)@ == old(self)@.update(at as int, MetricView::Cardinality(final(card)@)),
    {
        match &mut self.metrics[at] {
            Metric::Cardinality(card) => card,
            Metric::Counter(_) => vstd::pervasive::unreached(),
        }
    }

    fn counter_at(&mut self, at: usize) -> (counter: &mut Counter)
        requires
            at < old(self).metrics@.len(),
            old(self).metrics@[at as int] is Counter,
        ensures
            *counter == old(self).metrics@[at as int]->Counter_0,
            final(self)@ == old(self)@.update(at as int, MetricView::Counter(final(counter)@)),
    {
        match &mut self.metrics[at] {
            Metric::Counter(counter) => counter,
            Metric::Cardinality(_) => vstd::pervasive::unreached(),
        }
    }

    /// The tracker that the registry keeps under `name`.
    ///
    /// Where the registry keeps no tracker under that name, a new one with
    /// the key and the tags given takes the place of whatever it kept there.
    /// What is done to the tracker through the reference is done to the
    /// registry's metric.
    pub fn get_cardinality(
        &mut self,
        name: String,
        key: String,
        tags: Option<HashMap<String, String>>,
    ) -> (card: &mut Cardinality)
        ensures
            card@ == cardinality_for(old(self)@, name@, key@, tags_view(tags)),
            final(self)@ == with_metric(old(self)@, name@, MetricView::Cardinality(final(card)@)),
    {
        proof {
            lemma_slot(self@, name@);
        }
        let ghost before = self.metrics@;
        let at = self.find(&name);
        let kept = at < self.metrics.len() && match &self.metrics[at] {
            Metric::Cardinality(_) => true,
            Metric::Counter(_) => false,
        };
        if !kept {
            let mut card = Cardinality::new(name, key);
            card.set_tags(tags);
            if at < self.metrics.len() {
                self.metrics[at] = Metric::Cardinality(card);
            } else {
                self.metrics.push(Metric::Cardinality(card));
            }
        }
        self.cardinality_at(at)
    }

    /// The counter that the registry keeps under `name`.
    ///
    /// Where the registry keeps no counter under that name, a new one with
    /// the key and the tags given takes the place of whatever it kept there.
    /// What is done to the counter through the reference is done to the
    /// registry's metric.
    pub fn get_counter(
        &mut self,
        name: String,
        key: String,
        tags: Option<HashMap<String, String>>,
    ) -> (counter: &mut Counter)
        ensures
            counter@ == counter_for(old(self)@, name@, key@, tags_view(tags)),
            final(self)@ == with_metric(old(self)@, name@, MetricView::Counter(final(counter)@)),
    {
        proof {
            lemma_slot(self@, name@);
        }
        let ghost before = self.metrics@;
        let at = self.find(&name);
        let kept = at < self.metrics.len() && match &self.metrics[at] {
            Metric::Counter(_) => true,
            Metric::Cardinality(_) => false,
        };
        if !kept {
            let mut counter = Counter::new(name, key);
            counter.set_tags(tags);
            if at < self.metrics.len() {
                self.metrics[at] = Metric::Counter(counter);
            } else {
                self.metrics.push(Metric::Counter(counter));
            }
        }
        self.counter_at(at)
    }
}

/// The metrics in `metrics`, each after a flush.
pub open spec fn all_flushed(metrics: Seq<MetricView>) -> Seq<MetricView> {
    metrics.map_values(|m: MetricView| m.flushed())
}

impl Registry {
    fn flush_at(&mut self, at: usize) -> (report: Report)
        requires
            at < old(self)@.len(),
        ensures
            report.is_of(old(self)@[at as int]),
            final(self)@ == old(self)@.update(at as int, old(self)@[at as int].flushed()),
    {
        let report = match &mut self.metrics[at] {
            Metric::Cardinality(card) => {
                let (value, tags) = card.flush();
                Report { key: card.key.clone(), value, tags }
            },
            Metric::Counter(counter) => {
                let (value, tags) = counter.flush();
                Report { key: counter.key.clone(), value, tags }
            },
        };
        assert(self@ =~= old(self)@.update(at as int, old(self)@[at as int].flushed()));
        report
    }

    /// Flushes every metric, in the order in which the metrics were first
    /// asked for, and hands out what each of them reports.
    pub fn flush(&mut self) -> (reports: Vec<Report>)
        ensures
            reports@.len() == old(self)@.len(),
            forall|i: int| 0 <= i < reports@.len() ==> (#[trigger] reports@[i]).is_of(old(self)@[i]),
            final(self)@ == all_flushed(old(self)@),
    {
        let mut reports: Vec<Report> = Vec::new();
        let mut i: usize = 0;
        while i < self.metrics.len()
            invariant
                i <= self@.len(),
                self@.len() == old(self)@.len(),
                self.metrics@.len() == self@.len(),
                reports@.len() == i,
                forall|j: int| 0 <= j < i ==> (#[trigger] reports@[j]).is_of(old(self)@[j]),
                forall|j: int| 0 <= j < i ==> (#[trigger] self@[j]) == old(self)@[j].flushed(),
                forall|j: int| i <= j < self@.len() ==> (#[trigger] self@[j]) == old(self)@[j],
            decreases self@.len() - i,
        {
            let report = self.flush_at(i);
            reports.push(report);
            i += 1;
        }
        assert(self@ =~= all_flushed(old(self)@));
        reports
    }
}

impl Cardinality {
    /// The name that a registry keeps the tracker under.
    pub fn name(&self) -> (name: &String)
        ensures
            name@ == self@.name,
    {
        &self.name
    }

    /// The key that the tracker is reported under.
    pub fn key(&self) -> (key: &String)
        ensures
            key@ == self@.key,
    {
        &self.key
    }
}

impl Counter {
    /// The name that a registry keeps the counter under.
    pub fn name(&self) -> (name: &String)
        ensures
            name@ == self@.name,
    {
        &self.name
    }

    /// The key that the counter is reported under.
    pub fn key(&self) -> (key: &String)
        ensures
            key@ == self@.key,
    {
        &self.key
    }
}

/// Observing an item that was observed before changes nothing; observing
/// one that was not makes the count one larger.
pub proof fn lemma_cardinality_counts_each_item_once(card: CardinalityView, item: Seq<char>)
    requires
        card.wf(),
    ensures
        card.add(item).add(item) == card.add(item),
        card.add(item).add(item).count() == card.add(item).count(),
        card.items.contains(item) ==> card.add(item).count() == card.count(),
        !card.items.contains(item) ==> card.add(item).count() == card.count() + 1,
        card.add(item).wf(),
{
    assert(card.items.insert(item).insert(item) =~= card.items.insert(item));
    if card.items.contains(item) {
        assert(card.items.insert(item) =~= card.items);
    }
}

/// A flush leaves a tracker that counts nothing, so the next flush reports
/// only what was observed after this one.
pub proof fn lemma_cardinality_flush_resets(card: CardinalityView, item: Seq<char>)
    ensures
        card.flushed().count() == 0,
        card.flushed().wf(),
        card.flushed().add(item).count() == 1,
        card.flushed().name == card.name && card.flushed().key == card.key && card.flushed().tags
            == card.tags,
{
    assert(Set::<Seq<char>>::empty().insert(item) =~= set![item]);
}

/// The sum of `vals`.
pub open spec fn total(vals: Seq<nat>) -> nat
    decreases vals.len(),
{
    if vals.len() == 0 {
        0
    } else {
        total(vals.drop_last()) + vals.last()
    }
}

/// A counter that has taken a series of additions holds what it held
/// before and the sum of the series: no addition is lost or counted twice.
pub proof fn lemma_counter_holds_the_total(counter: CounterView, vals: Seq<nat>)
    ensures
        counter.add_all(vals).size == counter.size + total(vals),
        counter.add_all(vals).name == counter.name,
        counter.add_all(vals).key == counter.key,
        counter.add_all(vals).tags == counter.tags,
    decreases vals.len(),
{
    if vals.len() > 0 {
        lemma_counter_holds_the_total(counter, vals.drop_last());
    }
}

/// A series of `count` additions of one has the sum `count`.
pub proof fn lemma_total_of_ones(vals: Seq<nat>)
    requires
        forall|i: int| 0 <= i < vals.len() ==> vals[i] == 1,
    ensures
        total(vals) == vals.len(),
    decreases vals.len(),
{
    if vals.len() > 0 {
        lemma_total_of_ones(vals.drop_last());
    }
}

/// Where each of `threads` threads adds one `times` times, the counter
/// holds `threads * times` more in the end, in whatever order the additions
/// were made: every order is a series of that many ones.
pub proof fn lemma_counter_counts_every_addition(
    counter: CounterView,
    threads: nat,
    times: nat,
    vals: Seq<nat>,
)
    requires
        vals.len() == threads * times,
        forall|i: int| 0 <= i < vals.len() ==> vals[i] == 1,
    ensures
        counter.add_all(vals).size == counter.size + threads * times,
{
    lemma_counter_holds_the_total(counter, vals);
    lemma_total_of_ones(vals);
}

/// A flush reports the sum and leaves a counter at zero; an addition that
/// comes before the flush is in this report, one that comes after it is in
/// the next, and none is in both.
pub proof fn lemma_counter_flush_splits_additions(counter: CounterView, early: nat, late: nat)
    ensures
        counter.add(early).flushed().size == 0,
        counter.add(early).size == counter.size + early,
        counter.add(early).flushed().add(late).size == late,
        counter.add(early).size + counter.add(early).flushed().add(late).size == counter.size
            + early + late,
{
}

/// The first place that holds a name is the place that `slot` finds.
pub proof fn lemma_slot_is_first(metrics: Seq<MetricView>, name: Seq<char>, at: int)
    requires
        0 <= at < metrics.len(),
        metrics[at].name() == name,
        forall|i: int| 0 <= i < at ==> (#[trigger] metrics[i]).name() != name,
    ensures
        slot(metrics, name) == Some(at),
    decreases at,
{
    if at > 0 {
        let rest = metrics.drop_first();
        assert(forall|i: int| 0 <= i < rest.len() ==> rest[i] == metrics[i + 1]);
        assert(rest[at - 1] == metrics[at]);
        lemma_slot_is_first(rest, name, at - 1);
    }
}

/// Asking for a tracker creates it at most once: once the registry keeps a
/// tracker under a name, asking again hands out that tracker, whatever key
/// and tags come with the question, and leaves the registry as it is.
pub proof fn lemma_cardinality_is_created_once(
    metrics: Seq<MetricView>,
    name: Seq<char>,
    key: Seq<char>,
    tags: Option<Map<String, String>>,
    other_key: Seq<char>,
    other_tags: Option<Map<String, String>>,
)
    ensures
        ({
            let card = cardinality_for(metrics, name, key, tags);
            let kept = with_metric(metrics, name, MetricView::Cardinality(card));
            &&& card.name == name
            &&& cardinality_for(kept, name, other_key, other_tags) == card
            &&& with_metric(kept, name, MetricView::Cardinality(card)) == kept
        }),
{
    let card = cardinality_for(metrics, name, key, tags);
    let kept = with_metric(metrics, name, MetricView::Cardinality(card));
    lemma_slot(metrics, name);
    let at = match slot(metrics, name) {
        Some(at) => at,
        None => metrics.len() as int,
    };
    assert(kept[at] == MetricView::Cardinality(card));
    lemma_slot_is_first(kept, name, at);
    assert(kept.update(at, MetricView::Cardinality(card)) =~= kept);
}

/// Asking for a counter creates it at most once: once the registry keeps a
/// counter under a name, asking again hands out that counter, whatever key
/// and tags come with the question, and leaves the registry as it is.
pub proof fn lemma_counter_is_created_once(
    metrics: Seq<MetricView>,
    name: Seq<char>,
    key: Seq<char>,
    tags: Option<Map<String, String>>,
    other_key: Seq<char>,
    other_tags: Option<Map<String, String>>,
)
    ensures
        ({
            let counter = counter_for(metrics, name, key, tags);
            let kept = with_metric(metrics, name, MetricView::Counter(counter));
            &&& counter.name == name
            &&& counter_for(kept, name, other_key, other_tags) == counter
            &&& with_metric(kept, name, MetricView::Counter(counter)) == kept
        }),
{
    let counter = counter_for(metrics, name, key, tags);
    let kept = with_metric(metrics, name, MetricView::Counter(counter));
    lemma_slot(metrics, name);
    let at = match slot(metrics, name) {
        Some(at) => at,
        None => metrics.len() as int,
    };
    assert(kept[at] == MetricView::Counter(counter));
    lemma_slot_is_first(kept, name, at);
    assert(kept.update(at, MetricView::Counter(counter)) =~= kept);
}

} // verus!
