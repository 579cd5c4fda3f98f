//! The command registry: a static mapping from command name to handler,
//! built once at startup. Names are unique; registering a taken name
//! fails with `DuplicateCommand`, and dispatch of an unregistered name
//! is a first-class `UnknownCommand` outcome at the router.
use vstd::prelude::*;

verus! {

/// The handlers this bot knows.
#[derive(Clone, Copy, PartialEq, Eq, Structural, Debug)]
pub enum HandlerKind {
    Advent,
    Role,
    Roles,
}

/// Why a registration was refused.
#[derive(Clone, Copy, PartialEq, Eq, Structural, Debug)]
pub enum RegistryError {
    DuplicateCommand,
}

/// The first handler registered under `name`, if any.
pub open spec fn lookup_in(s: Seq<(String, HandlerKind)>, name: Seq<char>) -> Option<HandlerKind>
    decreases s.len(),
{
    if s.len() == 0 {
        None
    } else if s[0].0@ == name {
        Some(s[0].1)
    } else {
        lookup_in(s.drop_first(), name)
    }
}

proof fn lemma_lookup_push(s: Seq<(String, HandlerKind)>, p: (String, HandlerKind), name: Seq<char>)
    ensures
        lookup_in(s.push(p), name) == if lookup_in(s, name) is Some {
            lookup_in(s, name)
        } else if p.0@ == name {
            Some(p.1)
        } else {
            None
        },
    decreases s.len(),
{
    if s.len() == 0 {
        assert(s.push(p).len() == 1);
        assert(s.push(p)[0] == p);
        let e = s.push(p).drop_first();
        assert(e =~= Seq::<(String, HandlerKind)>::empty());
        assert(lookup_in(e, name) is None);
        assert(lookup_in(s, name) is None);
    } else {
        assert(s.push(p)[0] == s[0]);
        assert(s.push(p).drop_first() =~= s.drop_first().push(p));
        lemma_lookup_push(s.drop_first(), p, name);
    }
}

/// The mapping from command name to handler.
pub struct Registry {
    entries: Vec<(String, HandlerKind)>,
}

impl Registry {
    /// The handler registered under `name`, if any.
    pub closed spec fn spec_lookup(&self, name: Seq<char>) -> Option<HandlerKind> {
        lookup_in(self.entries@, name)
    }

    /// An empty registry.
    pub fn new() -> (r: Registry)
        ensures
            forall|n: Seq<char>| r.spec_lookup(n) is None,
    {
        let r = Registry { entries: Vec::new() };
        proof {
            assert forall|n: Seq<char>| r.spec_lookup(n) is None by {
                assert(r.entries@.len() == 0);
            }
        }
        r
    }

    /// Registers `handler` under `name`; fails with `DuplicateCommand`
    /// when `name` is already taken, and is a no-op then. Every other
    /// name keeps its binding.
    pub fn register(&mut self, name: String, handler: HandlerKind) -> (r: Result<
        (),
        RegistryError,
    >)
        ensures
            old(self).spec_lookup(name@) is Some ==> (r matches Err(RegistryError::DuplicateCommand)
                && *final(self) == *old(self)),
            old(self).spec_lookup(name@) is None ==> (r is Ok && final(self).spec_lookup(name@)
                == Some(handler) && (forall|n: Seq<char>|
                n != name@ ==> final(self).spec_lookup(n) == old(self).spec_lookup(n))),
    {
        if self.lookup(&name).is_some() {
            return Err(RegistryError::DuplicateCommand);
        }
        let ghost entries0 = self.entries@;
        let ghost namev = name@;
        let ghost h = handler;
        self.entries.push((name, handler));
        proof {
            let p = self.entries@[entries0.len() as int];
            assert(self.entries@ == entries0.push(p));
            assert(p.0@ == namev && p.1 == h);
            lemma_lookup_push(entries0, p, namev);
            assert(self.spec_lookup(namev) == Some(h));
            assert forall|n: Seq<char>| n != namev implies self.spec_lookup(n) == lookup_in(
                entries0,
                n,
            ) by {
                lemma_lookup_push(entries0, p, n);
            }
        }
        Ok(())
    }

    /// Resolves a command name.
    pub fn lookup(&self, name: &String) -> (r: Option<HandlerKind>)
        ensures
            r == self.spec_lookup(name@),
    {
        let mut i: usize = 0;
        proof {
            assert(self.entries@.subrange(0, self.entries@.len() as int) =~= self.entries@);
        }
        while i < self.entries.len()
            invariant
                i <= self.entries@.len(),
                lookup_in(self.entries@, name@) == lookup_in(
                    self.entries@.subrange(i as int, self.entries@.len() as int),
                    name@,
                ),
            decreases self.entries@.len() - i,
        {
            let ghost tail = self.entries@.subrange(i as int, self.entries@.len() as int);
            if self.entries[i].0 == *name {
                proof {
                    assert(tail[0] == self.entries@[i as int]);
                }
                return Some(self.entries[i].1);
            }
            proof {
                assert(tail[0] == self.entries@[i as int]);
                assert(tail.drop_first() =~= self.entries@.subrange(
                    i + 1,
                    self.entries@.len() as int,
                ));
            }
            i = i + 1;
        }
        proof {
            assert(self.entries@.subrange(i as int, self.entries@.len() as int)
                =~= Seq::<(String, HandlerKind)>::empty());
        }
        None
    }
}

} // verus!
