//! The bookkeeping of a very small actor system: the registry of its
//! actors by name, the subscriptions of its channels, and its scheduled jobs.
use vstd::prelude::*;
use vstd::string::*;

pub mod channel;
pub mod mailbox;
pub mod network;
pub mod timer;
pub mod typed;

verus! {

/// What actors exchange.
pub trait ActorMessage: std::fmt::Debug + Clone + Send + 'static {

}

/// Error when an actor cannot be created with `actor_of`.
#[derive(Debug, Clone)]
pub enum CreateError {
    /// An actor with this name already exists.
    AlreadyExists(String),
}

/// The names registered in `entries`, in registration order.
pub open spec fn names_of<R>(entries: Seq<(String, R)>) -> Seq<Seq<char>> {
    entries.map_values(|e: (String, R)| e.0@)
}

/// The actors of a system, by name: each name designates at most one actor
/// reference `R`.
pub struct ActorSystem<R> {
    actors: Vec<(String, R)>,
}

impl<R> ActorSystem<R> {
    /// The registered actors, by name.
    pub closed spec fn view(&self) -> Map<Seq<char>, R> {
        Map::new(
            |name: Seq<char>| exists|i: int| 0 <= i < self.actors@.len() && self.actors@[i].0@ == name,
            |name: Seq<char>|
                self.actors@[choose|i: int|
                    0 <= i < self.actors@.len() && self.actors@[i].0@ == name].1,
        )
    }

    /// Names are unique.
    pub closed spec fn wf(&self) -> bool {
        forall|i: int, j: int|
            0 <= i < j < self.actors@.len() ==> self.actors@[i].0@ != self.actors@[j].0@
    }

    /// A system with no actor.
    pub fn new() -> (r: Self)
        ensures
            r.wf(),
            r@ == Map::<Seq<char>, R>::empty(),
    {
        let r = ActorSystem { actors: Vec::new() };
        assert(r@ =~= Map::<Seq<char>, R>::empty());
        r
    }

    /// The position of the actor named `name`.
    fn position(&self, name: &str) -> (r: Option<usize>)
        requires
            self.wf(),
        ensures
            match r {
                Some(i) => i < self.actors@.len() && self.actors@[i as int].0@ == name@,
                None => forall|i: int| 0 <= i < self.actors@.len() ==> self.actors@[i].0@ != name@,
            },
    {
        let key = String::from_str(name);
        let mut i: usize = 0;
        while i < self.actors.len()
            invariant
                key@ == name@,
                i <= self.actors@.len(),
                forall|j: int| 0 <= j < i ==> self.actors@[j].0@ != name@,
            decreases self.actors@.len() - i,
        {
            if self.actors[i].0 == key {
                return Some(i);
            }
            i = i + 1;
        }
        None
    }

    /// Registers the actor `actor` under `name`, unless an actor already
    /// has that name.
    pub fn actor_of(&mut self, name: &str, actor: R) -> (r: Result<(), CreateError>)
        requires
            old(self).wf(),
        ensures
            final(self).wf(),
            old(self)@.contains_key(name@) <==> r is Err,
            r matches Err(CreateError::AlreadyExists(n)) ==> n@ == name@,
            r is Err ==> final(self)@ == old(self)@,
            r is Ok ==> final(self)@ == old(self)@.insert(name@, actor),
    {
        match self.position(name) {
            Some(i) => {
                assert(self@.contains_key(name@));
                Err(CreateError::AlreadyExists(String::from_str(name)))
            },
            None => {
                let ghost old_actors = self.actors@;
                self.actors.push((String::from_str(name), actor));
                assert(self@ =~= old(self)@.insert(name@, actor)) by {
                    assert forall|n: Seq<char>| self@.contains_key(n) == old(self)@.insert(
                        name@,
                        actor,
                    ).contains_key(n) by {
                        if n != name@ && self@.contains_key(n) {
                            let i = choose|i: int|
                                0 <= i < self.actors@.len() && self.actors@[i].0@ == n;
                            assert(i < old_actors.len());
                        }
                        if old(self)@.contains_key(n) {
                            let i = choose|i: int| 0 <= i < old_actors.len() && old_actors[i].0@ == n;
                            assert(self.actors@[i] == old_actors[i]);
                        }
                        if n == name@ {
                            assert(self.actors@[old_actors.len() as int].0@ == n);
                        }
                    }
                    assert forall|n: Seq<char>| #[trigger]
                        self@.contains_key(n) implies self@[n] == old(self)@.insert(
                        name@,
                        actor,
                    )[n] by {
                        let i = choose|i: int| 0 <= i < self.actors@.len() && self.actors@[i].0@ == n;
                        if n == name@ {
                            assert(i == old_actors.len());
                        } else {
                            assert(i < old_actors.len());
                            assert(self.actors@[i] == old_actors[i]);
                            let j = choose|j: int| 0 <= j < old_actors.len() && old_actors[j].0@ == n;
                            assert(i == j);
                        }
                    }
                }
                Ok(())
            },
        }
    }

    /// The actor registered under `name`, if any.
    pub fn find_actor(&self, name: &str) -> (r: Option<&R>)
        requires
            self.wf(),
        ensures
            match r {
                Some(a) => self@.contains_key(name@) && *a == self@[name@],
                None => !self@.contains_key(name@),
            },
    {
        match self.position(name) {
            Some(i) => {
                assert(self@.contains_key(name@));
                Some(&self.actors[i].1)
            },
            None => None,
        }
    }
}

/// Registering an actor under a name, then looking the name up, finds that
/// actor; registering a second actor under the same name is refused.
pub proof fn law_actor_of_then_find<R>(m: Map<Seq<char>, R>, name: Seq<char>, actor: R)
    requires
        !m.contains_key(name),
    ensures
        m.insert(name, actor).contains_key(name),
        m.insert(name, actor)[name] == actor,
        forall|other: Seq<char>|
            other != name ==> (#[trigger] m.insert(name, actor).contains_key(other)
                == m.contains_key(other)),
{
}

} // verus!
