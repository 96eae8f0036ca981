//! Lifetime bookkeeping of the signature rewrites

use vstd::prelude::*;
use crate::macros::str_eq;

verus! {

/// How elided lifetimes are named
#[derive(Clone, Copy, Debug, PartialEq, Eq, Structural)]
pub enum Annotations {
    /// Each elided lifetime gets a new name, numbered from one
    Counter,
    /// Every elided lifetime is the base lifetime
    Uniform,
}

impl Default for Annotations {
    fn default() -> (a: Self)
        ensures
            a == Annotations::Counter,
    {
        Annotations::Counter
    }
}

/// A lifetime: its name without the quote, and for an added lifetime the
/// number written after it (`'name_number`)
#[derive(Debug)]
pub struct Lifetime {
    pub name: String,
    pub counter: Option<usize>,
}

/// Names the elided lifetimes of a signature
#[derive(Debug)]
pub struct AddLifetime {
    pub base: String,
    pub annotations: Annotations,
    pub explicit_lifetimes: Vec<Lifetime>,
    pub added_lifetimes: Vec<Lifetime>,
}

impl AddLifetime {
    /// Name elided lifetimes after `base`, as `annotations` says
    pub fn new(base: String, annotations: Annotations) -> (a: Self)
        ensures
            a.base == base,
            a.annotations == annotations,
            a.explicit_lifetimes@.len() == 0,
            a.added_lifetimes@.len() == 0,
    {
        AddLifetime { base, annotations, explicit_lifetimes: Vec::new(), added_lifetimes: Vec::new() }
    }

    /// The name for the next elided lifetime: the base itself when uniform,
    /// else the base numbered after the lifetimes added so far, which is
    /// recorded as added
    pub fn next_lifetime(&mut self) -> (l: Lifetime)
        requires
            old(self).added_lifetimes@.len() < usize::MAX,
        ensures
            l.name@ == old(self).base@,
            final(self).base == old(self).base,
            final(self).annotations == old(self).annotations,
            final(self).explicit_lifetimes@ == old(self).explicit_lifetimes@,
            old(self).annotations == Annotations::Uniform ==> l.counter is None
                && final(self).added_lifetimes@ == old(self).added_lifetimes@,
            old(self).annotations == Annotations::Counter ==> {
                &&& l.counter == Some((old(self).added_lifetimes@.len() + 1) as usize)
                &&& final(self).added_lifetimes@.len() == old(self).added_lifetimes@.len() + 1
                &&& final(self).added_lifetimes@.drop_last() == old(self).added_lifetimes@
                &&& final(self).added_lifetimes@.last().name@ == l.name@
                &&& final(self).added_lifetimes@.last().counter == l.counter
            },
    {
        if self.annotations == Annotations::Uniform {
            return Lifetime { name: self.base.clone(), counter: None };
        }
        let n = self.added_lifetimes.len() + 1;
        self.added_lifetimes.push(Lifetime { name: self.base.clone(), counter: Some(n) });
        proof {
            assert(self.added_lifetimes@.drop_last() =~= old(self).added_lifetimes@);
        }
        Lifetime { name: self.base.clone(), counter: Some(n) }
    }

    /// A lifetime written in the signature: `'_` is replaced by the next
    /// name, any other is recorded as explicit and kept
    pub fn visit_lifetime(&mut self, lifetime: Lifetime) -> (l: Lifetime)
        requires
            old(self).added_lifetimes@.len() < usize::MAX,
        ensures
            final(self).base == old(self).base,
            final(self).annotations == old(self).annotations,
            lifetime.name@ == "_"@ ==> {
                &&& l.name@ == old(self).base@
                &&& final(self).explicit_lifetimes@ == old(self).explicit_lifetimes@
                &&& (old(self).annotations == Annotations::Uniform ==> l.counter is None
                    && final(self).added_lifetimes@ == old(self).added_lifetimes@)
                &&& (old(self).annotations == Annotations::Counter ==> l.counter == Some(
                    (old(self).added_lifetimes@.len() + 1) as usize,
                ) && final(self).added_lifetimes@.len() == old(self).added_lifetimes@.len() + 1)
            },
            lifetime.name@ != "_"@ ==> {
                &&& l == lifetime
                &&& final(self).added_lifetimes@ == old(self).added_lifetimes@
                &&& final(self).explicit_lifetimes@.len() == old(self).explicit_lifetimes@.len() + 1
                &&& final(self).explicit_lifetimes@.drop_last() == old(self).explicit_lifetimes@
                &&& final(self).explicit_lifetimes@.last().name@ == lifetime.name@
                &&& final(self).explicit_lifetimes@.last().counter == lifetime.counter
            },
    {
        if str_eq(lifetime.name.as_str(), "_") {
            self.next_lifetime()
        } else {
            self.explicit_lifetimes.push(Lifetime { name: lifetime.name.clone(), counter: lifetime.counter });
            proof {
                assert(self.explicit_lifetimes@.drop_last() =~= old(self).explicit_lifetimes@);
            }
            lifetime
        }
    }

    /// A reference type, or a `&self` receiver: an explicit lifetime is
    /// recorded and kept, an elided one gets the next name
    pub fn visit_reference(&mut self, lifetime: Option<Lifetime>) -> (l: Lifetime)
        requires
            old(self).added_lifetimes@.len() < usize::MAX,
        ensures
            final(self).base == old(self).base,
            final(self).annotations == old(self).annotations,
            lifetime is None ==> {
                &&& l.name@ == old(self).base@
                &&& final(self).explicit_lifetimes@ == old(self).explicit_lifetimes@
                &&& (old(self).annotations == Annotations::Uniform ==> l.counter is None
                    && final(self).added_lifetimes@ == old(self).added_lifetimes@)
                &&& (old(self).annotations == Annotations::Counter ==> l.counter == Some(
                    (old(self).added_lifetimes@.len() + 1) as usize,
                ) && final(self).added_lifetimes@.len() == old(self).added_lifetimes@.len() + 1)
            },
            lifetime matches Some(given) ==> {
                &&& l == given
                &&& final(self).added_lifetimes@ == old(self).added_lifetimes@
                &&& final(self).explicit_lifetimes@.len() == old(self).explicit_lifetimes@.len() + 1
                &&& final(self).explicit_lifetimes@.drop_last() == old(self).explicit_lifetimes@
                &&& final(self).explicit_lifetimes@.last().name@ == given.name@
                &&& final(self).explicit_lifetimes@.last().counter == given.counter
            },
    {
        match lifetime {
            Some(given) => {
                self.explicit_lifetimes.push(Lifetime { name: given.name.clone(), counter: given.counter });
                proof {
                    assert(self.explicit_lifetimes@.drop_last() =~= old(self).explicit_lifetimes@);
                }
                given
            },
            None => self.next_lifetime(),
        }
    }
}

} // verus!
