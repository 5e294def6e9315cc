//! Topics that carry the type of the messages published on them.
use vstd::prelude::*;
use vstd::string::*;
use std::marker::PhantomData;

verus! {

/// The name of a topic known at compile time, for messages of type `M`.
pub struct StaticTopic<M> {
    name: &'static str,
    marker: PhantomData<M>,
}

impl<M> StaticTopic<M> {
    pub closed spec fn name(&self) -> Seq<char> {
        self.name@
    }

    pub fn new(name: &'static str) -> (r: StaticTopic<M>)
        ensures
            r.name() == name@,
    {
        StaticTopic { name, marker: PhantomData }
    }

    /// The topic of that name.
    pub fn into_topic(self) -> (r: Topic<M>)
        ensures
            r.name() == self.name(),
    {
        Topic::new(self.name)
    }
}

/// A topic for messages of type `M`: channel subscribers filter messages by
/// topic.
pub struct Topic<M> {
    name: String,
    marker: PhantomData<M>,
}

impl<M> Topic<M> {
    pub closed spec fn name(&self) -> Seq<char> {
        self.name@
    }

    pub fn new(name: &str) -> (r: Topic<M>)
        ensures
            r.name() == name@,
    {
        Topic { name: String::from_str(name), marker: PhantomData }
    }

    /// The name of the topic.
    pub fn as_str(&self) -> (r: &str)
        ensures
            r@ == self.name(),
    {
        self.name.as_str()
    }

    /// Whether two topics have the same name.
    pub fn same_as(&self, other: &Topic<M>) -> (r: bool)
        ensures
            r == (self.name() == other.name()),
    {
        self.name == other.name
    }
}

} // verus!
