//! The subscriptions of a publish/subscribe channel.
//!
//! Subscribers are registered under a topic, with the path of the actor
//! they stand for; a message published on a topic goes to every subscriber
//! of that topic, in the order they subscribed.
use vstd::prelude::*;
use vstd::string::*;
use vstd::std_specs::cmp::PartialEqSpecImpl;

verus! {

/// Topics allow channel subscribers to filter messages by interest.
/// When publishing a message to a channel a Topic is provided.
#[derive(Clone, Debug, Eq, Hash)]
pub struct Topic(String);

impl Topic {
    /// The name of the topic.
    pub closed spec fn name(&self) -> Seq<char> {
        self.0@
    }

    /// The topic named `name`.
    pub fn from(name: &str) -> (r: Topic)
        ensures
            r.name() == name@,
    {
        Topic(String::from_str(name))
    }

    /// The name of the topic.
    pub fn as_str(&self) -> (r: &str)
        ensures
            r@ == self.name(),
    {
        self.0.as_str()
    }
}

impl PartialEq for Topic {
    fn eq(&self, other: &Topic) -> (r: bool) {
        self.0 == other.0
    }
}

impl PartialEqSpecImpl for Topic {
    open spec fn obeys_eq_spec() -> bool {
        true
    }

    open spec fn eq_spec(&self, other: &Topic) -> bool {
        self.name() == other.name()
    }
}

/// What a channel is asked to do. `S` stands for the means of delivering a
/// message to a subscriber.
pub enum ChannelMsg<M, S> {
    /// Publish message
    Publish { topic: Topic, msg: M },
    /// Subscribe given actor path to a topic on a channel
    Subscribe { topic: Topic, path: String, send: S },
    /// Unsubscribe the given actor path from a topic on a channel
    Unsubscribe { topic: Topic, path: String },
    /// Unsubscribe the given actor path from all topics on a channel
    UnsubscribeAll { path: String },
}

/// A message published on a topic, with the topic's subscribers in the
/// order they subscribed.
pub struct Publication<'a, M, S> {
    pub topic: Topic,
    pub msg: M,
    pub subscribers: &'a [(String, S)],
}

/// The subscribers of a topic: actor paths with their means of delivery.
pub open spec fn subscribers_view<S>(v: Seq<(String, S)>) -> Seq<(Seq<char>, S)> {
    v.map_values(|e: (String, S)| (e.0@, e.1))
}

/// `s` without its first subscriber whose path is `path` (the same `s` when
/// there is none).
pub open spec fn remove_first<S>(s: Seq<(Seq<char>, S)>, path: Seq<char>) -> Seq<(Seq<char>, S)>
    decreases s.len(),
{
    if s.len() == 0 {
        s
    } else if s[0].0 == path {
        s.drop_first()
    } else {
        seq![s[0]] + remove_first(s.drop_first(), path)
    }
}

/// The subscriptions that `es` holds, by topic name.
pub open spec fn entries_view<S>(es: Seq<(Topic, Vec<(String, S)>)>) -> Map<
    Seq<char>,
    Seq<(Seq<char>, S)>,
> {
    Map::new(
        |t: Seq<char>| exists|i: int| 0 <= i < es.len() && es[i].0.name() == t,
        |t: Seq<char>|
            subscribers_view(es[choose|i: int| 0 <= i < es.len() && es[i].0.name() == t].1@),
    )
}

/// Each topic has at most one entry.
pub open spec fn unique_topics<S>(es: Seq<(Topic, Vec<(String, S)>)>) -> bool {
    forall|i: int, j: int| 0 <= i < j < es.len() ==> es[i].0.name() != es[j].0.name()
}

proof fn lemma_entries_update<S>(
    es: Seq<(Topic, Vec<(String, S)>)>,
    i: int,
    v: Vec<(String, S)>,
)
    requires
        unique_topics(es),
        0 <= i < es.len(),
    ensures
        unique_topics(es.update(i, (es[i].0, v))),
        entries_view(es.update(i, (es[i].0, v))) == entries_view(es).insert(
            es[i].0.name(),
            subscribers_view(v@),
        ),
{
    let es2 = es.update(i, (es[i].0, v));
    let k = es[i].0.name();
    assert forall|j: int, l: int| 0 <= j < l < es2.len() implies es2[j].0.name() != es2[l].0.name() by {
        assert(es2[j].0 == es[j].0);
        assert(es2[l].0 == es[l].0);
    }
    assert forall|t: Seq<char>| #[trigger]
        entries_view(es2).contains_key(t) == entries_view(es).insert(
            k,
            subscribers_view(v@),
        ).contains_key(t) by {
        if entries_view(es2).contains_key(t) {
            let j = choose|j: int| 0 <= j < es2.len() && es2[j].0.name() == t;
            assert(es[j].0 == es2[j].0);
        }
        if entries_view(es).contains_key(t) {
            let j = choose|j: int| 0 <= j < es.len() && es[j].0.name() == t;
            assert(es[j].0 == es2[j].0);
        }
        if t == k {
            assert(es2[i].0.name() == t);
        }
    }
    assert forall|t: Seq<char>| #[trigger]
        entries_view(es2).contains_key(t) implies entries_view(es2)[t] == entries_view(es).insert(
        k,
        subscribers_view(v@),
    )[t] by {
        let j = choose|j: int| 0 <= j < es2.len() && es2[j].0.name() == t;
        if t == k {
            assert(j == i);
        } else {
            assert(es[j] == es2[j]);
            let l = choose|l: int| 0 <= l < es.len() && es[l].0.name() == t;
            assert(l == j);
        }
    }
    assert(entries_view(es2) =~= entries_view(es).insert(k, subscribers_view(v@)));
}

proof fn lemma_entries_push<S>(es: Seq<(Topic, Vec<(String, S)>)>, t: Topic, v: Vec<(String, S)>)
    requires
        unique_topics(es),
        !entries_view(es).contains_key(t.name()),
    ensures
        unique_topics(es.push((t, v))),
        entries_view(es.push((t, v))) == entries_view(es).insert(t.name(), subscribers_view(v@)),
{
    let es2 = es.push((t, v));
    let k = t.name();
    assert forall|j: int, l: int| 0 <= j < l < es2.len() implies es2[j].0.name() != es2[l].0.name() by {
        if l == es.len() {
            assert(es2[j] == es[j]);
        } else {
            assert(es2[j] == es[j]);
            assert(es2[l] == es[l]);
        }
    }
    assert forall|u: Seq<char>| #[trigger]
        entries_view(es2).contains_key(u) == entries_view(es).insert(
            k,
            subscribers_view(v@),
        ).contains_key(u) by {
        if entries_view(es2).contains_key(u) && u != k {
            let j = choose|j: int| 0 <= j < es2.len() && es2[j].0.name() == u;
            assert(j < es.len());
            assert(es[j] == es2[j]);
        }
        if entries_view(es).contains_key(u) {
            let j = choose|j: int| 0 <= j < es.len() && es[j].0.name() == u;
            assert(es[j] == es2[j]);
        }
        if u == k {
            assert(es2[es.len() as int].0.name() == u);
        }
    }
    assert forall|u: Seq<char>| #[trigger]
        entries_view(es2).contains_key(u) implies entries_view(es2)[u] == entries_view(es).insert(
        k,
        subscribers_view(v@),
    )[u] by {
        let j = choose|j: int| 0 <= j < es2.len() && es2[j].0.name() == u;
        if u == k {
            assert(j == es.len());
        } else {
            assert(j < es.len());
            assert(es[j] == es2[j]);
            let l = choose|l: int| 0 <= l < es.len() && es[l].0.name() == u;
            assert(l == j);
        }
    }
    assert(entries_view(es2) =~= entries_view(es).insert(k, subscribers_view(v@)));
}

proof fn lemma_remove_first_at<S>(s: Seq<(Seq<char>, S)>, path: Seq<char>, i: int)
    requires
        0 <= i < s.len(),
        s[i].0 == path,
        forall|j: int| 0 <= j < i ==> s[j].0 != path,
    ensures
        remove_first(s, path) == s.remove(i),
    decreases i,
{
    if i > 0 {
        lemma_remove_first_at(s.drop_first(), path, i - 1);
        assert(seq![s[0]] + s.drop_first().remove(i - 1) =~= s.remove(i));
    } else {
        assert(s.drop_first() =~= s.remove(0));
    }
}

proof fn lemma_remove_first_absent<S>(s: Seq<(Seq<char>, S)>, path: Seq<char>)
    requires
        forall|j: int| 0 <= j < s.len() ==> s[j].0 != path,
    ensures
        remove_first(s, path) == s,
    decreases s.len(),
{
    if s.len() > 0 {
        lemma_remove_first_absent(s.drop_first(), path);
        assert(seq![s[0]] + s.drop_first() =~= s);
    }
}

/// Removes the first subscriber of `subs` whose path is `path`, if any.
fn remove_path<S>(subs: &mut Vec<(String, S)>, path: &String)
    ensures
        subscribers_view(final(subs)@) == remove_first(subscribers_view(old(subs)@), path@),
{
    let ghost sv = subscribers_view(subs@);
    let mut i: usize = 0;
    while i < subs.len()
        invariant
            sv == subscribers_view(subs@),
            sv == subscribers_view(old(subs)@),
            i <= subs@.len(),
            forall|j: int| 0 <= j < i ==> sv[j].0 != path@,
        decreases subs@.len() - i,
    {
        if subs[i].0 == *path {
            proof {
                lemma_remove_first_at(sv, path@, i as int);
            }
            subs.remove(i);
            assert(subscribers_view(subs@) =~= sv.remove(i as int));
            return;
        }
        i = i + 1;
    }
    proof {
        lemma_remove_first_absent(sv, path@);
    }
}

/// The subscriptions of a channel.
pub struct Channel<S> {
    subscriptions: Vec<(Topic, Vec<(String, S)>)>,
}

impl<S> Channel<S> {
    /// The subscribers of each topic that has had one.
    pub closed spec fn view(&self) -> Map<Seq<char>, Seq<(Seq<char>, S)>> {
        entries_view(self.subscriptions@)
    }

    pub closed spec fn wf(&self) -> bool {
        unique_topics(self.subscriptions@)
    }

    /// A channel with no subscription.
    pub fn new() -> (r: Self)
        ensures
            r.wf(),
            r@ == Map::<Seq<char>, Seq<(Seq<char>, S)>>::empty(),
    {
        let r = Channel { subscriptions: Vec::new() };
        assert(r@ =~= Map::<Seq<char>, Seq<(Seq<char>, S)>>::empty());
        r
    }

    fn position(&self, topic: &Topic) -> (r: Option<usize>)
        requires
            self.wf(),
        ensures
            match r {
                Some(i) => i < self.subscriptions@.len() && self.subscriptions@[i as int].0.name()
                    == topic.name(),
                None => !self@.contains_key(topic.name()),
            },
    {
        let mut i: usize = 0;
        while i < self.subscriptions.len()
            invariant
                i <= self.subscriptions@.len(),
                forall|j: int| 0 <= j < i ==> self.subscriptions@[j].0.name() != topic.name(),
            decreases self.subscriptions@.len() - i,
        {
            if self.subscriptions[i].0.0 == topic.0 {
                return Some(i);
            }
            i = i + 1;
        }
        None
    }

    /// The subscribers of `topic`, in the order they subscribed.
    pub fn subscribers(&self, topic: &Topic) -> (r: Option<&Vec<(String, S)>>)
        requires
            self.wf(),
        ensures
            match r {
                Some(v) => self@.contains_key(topic.name()) && subscribers_view(v@) == self@[topic.name()],
                None => !self@.contains_key(topic.name()),
            },
    {
        match self.position(topic) {
            Some(i) => {
                assert(self@.contains_key(topic.name()));
                Some(&self.subscriptions[i].1)
            },
            None => None,
        }
    }

    /// Subscribes the actor at `path` to `topic`, after the topic's other
    /// subscribers. An actor may subscribe several times.
    pub fn subscribe(&mut self, topic: Topic, path: String, send: S)
        requires
            old(self).wf(),
        ensures
            final(self).wf(),
            final(self)@ == old(self)@.insert(
                topic.name(),
                if old(self)@.contains_key(topic.name()) {
                    old(self)@[topic.name()]
                } else {
                    Seq::empty()
                }.push((path@, send)),
            ),
    {
        match self.position(&topic) {
            Some(i) => {
                let ghost es = self.subscriptions@;
                assert(self@.contains_key(topic.name()));
                let mut entry: (Topic, Vec<(String, S)>) = (topic, Vec::new());
                self.subscriptions.set_and_swap(i, &mut entry);
                let ghost old_subs = entry.1@;
                entry.1.push((path, send));
                assert(subscribers_view(entry.1@) =~= subscribers_view(old_subs).push((path@, send)));
                self.subscriptions.set_and_swap(i, &mut entry);
                proof {
                    assert(self.subscriptions@ =~= es.update(i as int, (es[i as int].0, self.subscriptions@[i as int].1)));
                    lemma_entries_update(es, i as int, self.subscriptions@[i as int].1);
                    let j = choose|j: int| 0 <= j < es.len() && es[j].0.name() == topic.name();
                    assert(j == i);
                }
            },
            None => {
                let ghost es = self.subscriptions@;
                let mut subs = Vec::new();
                subs.push((path, send));
                assert(subscribers_view(subs@) =~= Seq::<(Seq<char>, S)>::empty().push((path@, send)));
                let ghost t = topic;
                self.subscriptions.push((topic, subs));
                proof {
                    lemma_entries_push(es, t, subs);
                }
            },
        }
    }

    /// Unsubscribes the actor at `path` from `topic`: its first subscription
    /// to the topic goes, if it has one.
    pub fn unsubscribe(&mut self, topic: &Topic, path: &String)
        requires
            old(self).wf(),
        ensures
            final(self).wf(),
            old(self)@.contains_key(topic.name()) ==> final(self)@ == old(self)@.insert(
                topic.name(),
                remove_first(old(self)@[topic.name()], path@),
            ),
            !old(self)@.contains_key(topic.name()) ==> final(self)@ == old(self)@,
    {
        match self.position(topic) {
            Some(i) => {
                let ghost es = self.subscriptions@;
                assert(self@.contains_key(topic.name()));
                proof {
                    let j = choose|j: int| 0 <= j < es.len() && es[j].0.name() == topic.name();
                    assert(j == i);
                }
                self.remove_at(i, path);
            },
            None => {},
        }
    }

    /// Removes the first subscription of `path` in the entry at `i`.
    fn remove_at(&mut self, i: usize, path: &String)
        requires
            old(self).wf(),
            i < old(self).subscriptions@.len(),
        ensures
            final(self).wf(),
            final(self).subscriptions@.len() == old(self).subscriptions@.len(),
            forall|j: int|
                0 <= j < old(self).subscriptions@.len() ==> #[trigger] final(self).subscriptions@[j].0
                    == old(self).subscriptions@[j].0,
            final(self)@ == old(self)@.insert(
                old(self).subscriptions@[i as int].0.name(),
                remove_first(subscribers_view(old(self).subscriptions@[i as int].1@), path@),
            ),
    {
        let ghost es = self.subscriptions@;
        let vacant = self.subscriptions[i].0.clone();
        let mut entry: (Topic, Vec<(String, S)>) = (vacant, Vec::new());
        self.subscriptions.set_and_swap(i, &mut entry);
        remove_path(&mut entry.1, path);
        self.subscriptions.set_and_swap(i, &mut entry);
        proof {
            assert(self.subscriptions@ =~= es.update(i as int, (es[i as int].0, self.subscriptions@[i as int].1)));
            lemma_entries_update(es, i as int, self.subscriptions@[i as int].1);
        }
    }

    /// Unsubscribes the actor at `path` from every topic: its first
    /// subscription to each topic goes.
    pub fn unsubscribe_all(&mut self, path: &String)
        requires
            old(self).wf(),
        ensures
            final(self).wf(),
            final(self)@.dom() == old(self)@.dom(),
            forall|t: Seq<char>|
                #[trigger] old(self)@.contains_key(t) ==> final(self)@[t] == remove_first(
                    old(self)@[t],
                    path@,
                ),
    {
        let ghost m0 = self@;
        let mut i: usize = 0;
        while i < self.subscriptions.len()
            invariant
                self.wf(),
                i <= self.subscriptions@.len(),
                self.subscriptions@.len() == old(self).subscriptions@.len(),
                forall|j: int|
                    0 <= j < self.subscriptions@.len() ==> #[trigger] self.subscriptions@[j].0
                        == old(self).subscriptions@[j].0,
                self@.dom() == m0.dom(),
                forall|t: Seq<char>|
                    #[trigger] m0.contains_key(t) ==> if (exists|j: int|
                        0 <= j < i && self.subscriptions@[j].0.name() == t) {
                        self@[t] == remove_first(m0[t], path@)
                    } else {
                        self@[t] == m0[t]
                    },
            decreases self.subscriptions@.len() - i,
        {
            let ghost before = self@;
            let ghost es = self.subscriptions@;
            let ghost k = es[i as int].0.name();
            proof {
                assert(before.contains_key(k));
                let j = choose|j: int| 0 <= j < es.len() && es[j].0.name() == k;
                assert(j == i);
                assert(before[k] == subscribers_view(es[i as int].1@));
                assert(!(exists|j: int| 0 <= j < i && es[j].0.name() == k));
            }
            self.remove_at(i, path);
            proof {
                assert forall|t: Seq<char>| #[trigger] m0.contains_key(t) implies if (exists|j: int|
                    0 <= j < i + 1 && self.subscriptions@[j].0.name() == t) {
                    self@[t] == remove_first(m0[t], path@)
                } else {
                    self@[t] == m0[t]
                } by {
                    if t != k {
                        if exists|j: int| 0 <= j < i + 1 && self.subscriptions@[j].0.name() == t {
                            let j = choose|j: int|
                                0 <= j < i + 1 && self.subscriptions@[j].0.name() == t;
                            assert(j != i);
                            assert(self.subscriptions@[j].0 == es[j].0);
                        }
                        if exists|j: int| 0 <= j < i && es[j].0.name() == t {
                            let j = choose|j: int| 0 <= j < i && es[j].0.name() == t;
                            assert(self.subscriptions@[j].0 == es[j].0);
                        }
                    } else {
                        assert(self.subscriptions@[i as int].0 == es[i as int].0);
                    }
                }
            }
            i = i + 1;
        }
        proof {
            assert forall|t: Seq<char>| #[trigger] m0.contains_key(t) implies self@[t] == remove_first(
                m0[t],
                path@,
            ) by {
                let j = choose|j: int|
                    0 <= j < self.subscriptions@.len() && self.subscriptions@[j].0.name() == t;
            }
        }
    }

    /// Handles a message: subscription changes are applied, and a
    /// publication comes back with its topic and the topic's subscribers, in
    /// the order they subscribed: each of them is to be handed the message
    /// once, and no one else.
    pub fn recv<M>(&mut self, msg: ChannelMsg<M, S>) -> (r: Option<Publication<'_, M, S>>)
        requires
            old(self).wf(),
        ensures
            final(self).wf(),
            match msg {
                ChannelMsg::Publish { topic, msg } => {
                    &&& r matches Some(p) && p.topic == topic && p.msg == msg && subscribers_view(
                        p.subscribers@,
                    ) == if old(self)@.contains_key(topic.name()) {
                        old(self)@[topic.name()]
                    } else {
                        Seq::empty()
                    }
                    &&& final(self)@ == old(self)@
                },
                ChannelMsg::Subscribe { topic, path, send } => r is None && final(self)@ == old(
                    self,
                )@.insert(
                    topic.name(),
                    if old(self)@.contains_key(topic.name()) {
                        old(self)@[topic.name()]
                    } else {
                        Seq::empty()
                    }.push((path@, send)),
                ),
                ChannelMsg::Unsubscribe { topic, path } => r is None && (old(self)@.contains_key(
                    topic.name(),
                ) ==> final(self)@ == old(self)@.insert(
                    topic.name(),
                    remove_first(old(self)@[topic.name()], path@),
                )) && (!old(self)@.contains_key(topic.name()) ==> final(self)@ == old(self)@),
                ChannelMsg::UnsubscribeAll { path } => r is None && final(self)@.dom() == old(
                    self,
                )@.dom() && forall|t: Seq<char>|
                    #[trigger] old(self)@.contains_key(t) ==> final(self)@[t] == remove_first(
                        old(self)@[t],
                        path@,
                    ),
            },
    {
        match msg {
            ChannelMsg::Publish { topic, msg } => {
                let subscribers: &[(String, S)] = match self.position(&topic) {
                    Some(i) => {
                        assert(self@.contains_key(topic.name()));
                        self.subscriptions[i].1.as_slice()
                    },
                    None => {
                        let none: &[(String, S)] = &[];
                        assert(none@ =~= Seq::<(String, S)>::empty());
                        assert(subscribers_view(none@) =~= Seq::empty());
                        none
                    },
                };
                Some(Publication { topic, msg, subscribers })
            },
            ChannelMsg::Subscribe { topic, path, send } => {
                self.subscribe(topic, path, send);
                None
            },
            ChannelMsg::Unsubscribe { topic, path } => {
                self.unsubscribe(&topic, &path);
                None
            },
            ChannelMsg::UnsubscribeAll { path } => {
                self.unsubscribe_all(&path);
                None
            },
        }
    }
}

/// A subscriber receives what is published on its topic: after subscribing
/// to `topic`, the topic's subscribers end with it, and the subscribers of
/// other topics are unchanged.
pub proof fn law_subscribe_then_publish<S>(
    m: Map<Seq<char>, Seq<(Seq<char>, S)>>,
    topic: Seq<char>,
    path: Seq<char>,
    send: S,
)
    ensures
        ({
            let before = if m.contains_key(topic) {
                m[topic]
            } else {
                Seq::empty()
            };
            let m2 = m.insert(topic, before.push((path, send)));
            &&& m2[topic].last() == (path, send)
            &&& m2[topic].drop_last() == before
            &&& forall|t: Seq<char>| t != topic ==> #[trigger] m2.contains_key(t) == m.contains_key(t)
                && (m.contains_key(t) ==> m2[t] == m[t])
        }),
{
    let before = if m.contains_key(topic) {
        m[topic]
    } else {
        Seq::empty()
    };
    assert(before.push((path, send)).drop_last() =~= before);
}

/// Unsubscribing right after subscribing a path that had no subscription
/// to the topic leaves the topic's subscribers as they were.
pub proof fn law_unsubscribe_undoes_subscribe<S>(
    subs: Seq<(Seq<char>, S)>,
    path: Seq<char>,
    send: S,
)
    requires
        forall|j: int| 0 <= j < subs.len() ==> subs[j].0 != path,
    ensures
        remove_first(subs.push((path, send)), path) == subs,
{
    lemma_remove_first_at(subs.push((path, send)), path, subs.len() as int);
    assert(subs.push((path, send)).remove(subs.len() as int) =~= subs);
}

/// Unsubscribing a path that has no subscription changes nothing.
pub proof fn law_unsubscribe_absent_is_noop<S>(subs: Seq<(Seq<char>, S)>, path: Seq<char>)
    requires
        forall|j: int| 0 <= j < subs.len() ==> subs[j].0 != path,
    ensures
        remove_first(subs, path) == subs,
{
    lemma_remove_first_absent(subs, path);
}

} // verus!
