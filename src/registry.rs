use vstd::prelude::*;

verus! {

/// The handler bound to `name` among `entries`: the latest entry with that
/// name wins.
pub open spec fn bound_in<H>(entries: Seq<(String, H)>, name: Seq<char>) -> Option<H>
    decreases entries.len(),
{
    if entries.len() == 0 {
        None
    } else if entries.last().0@ == name {
        Some(entries.last().1)
    } else {
        bound_in(entries.drop_last(), name)
    }
}

/// Replacing the handler of an entry leaves every other name's binding as it
/// was, and binds the entry's name to the new handler when no later entry has
/// that name.
proof fn lemma_bound_in_update<H>(entries: Seq<(String, H)>, i: int, entry: (String, H), name: Seq<char>)
    requires
        0 <= i < entries.len(),
        entries[i].0@ == entry.0@,
        forall|j: int| i < j < entries.len() ==> entries[j].0@ != entry.0@,
    ensures
        bound_in(entries.update(i, entry), name) == if name == entry.0@ {
            Some(entry.1)
        } else {
            bound_in(entries, name)
        },
    decreases entries.len(),
{
    let updated = entries.update(i, entry);
    if i == entries.len() - 1 {
        assert(updated.drop_last() == entries.drop_last());
    } else {
        assert(updated.drop_last() == entries.drop_last().update(i, entry));
        lemma_bound_in_update(entries.drop_last(), i, entry, name);
    }
}

/// The host-side handlers, keyed by name.
pub struct CallbackRegistry<H> {
    entries: Vec<(String, H)>,
}

impl<H> CallbackRegistry<H> {
    /// The handler registered under `name`, if any.
    pub closed spec fn handler(&self, name: Seq<char>) -> Option<H> {
        bound_in(self.entries@, name)
    }

    /// A registry with no handler in it.
    pub fn new() -> (r: CallbackRegistry<H>)
        ensures
            forall|name: Seq<char>| r.handler(name) is None,
    {
        CallbackRegistry { entries: Vec::new() }
    }

    /// The position of the latest entry named `name`, if any.
    fn position(&self, name: &String) -> (r: Option<usize>)
        ensures
            r matches Some(i) ==> i < self.entries@.len() && self.entries@[i as int].0@ == name@
                && forall|j: int| i < j < self.entries@.len() ==> self.entries@[j].0@ != name@,
            r is None ==> forall|j: int| 0 <= j < self.entries@.len() ==> self.entries@[j].0@ != name@,
    {
        let mut k: usize = self.entries.len();
        while k > 0
            invariant
                k <= self.entries@.len(),
                forall|j: int| k <= j < self.entries@.len() ==> self.entries@[j].0@ != name@,
            decreases k,
        {
            if self.entries[k - 1].0 == *name {
                return Some(k - 1);
            }
            k = k - 1;
        }
        None
    }

    /// Binds `handler` to `name`, replacing any handler bound to it before.
    pub fn register_callback(&mut self, name: String, handler: H)
        ensures
            forall|n: Seq<char>|
                #[trigger] final(self).handler(n) == if n == name@ {
                    Some(handler)
                } else {
                    old(self).handler(n)
                },
    {
        match self.position(&name) {
            Some(i) => {
                proof {
                    assert forall|n: Seq<char>|
                        bound_in(self.entries@.update(i as int, (name, handler)), n) == if n == name@ {
                            Some(handler)
                        } else {
                            bound_in(self.entries@, n)
                        } by {
                        lemma_bound_in_update(self.entries@, i as int, (name, handler), n);
                    }
                }
                self.entries[i] = (name, handler);
            },
            None => {
                proof {
                    let pushed = self.entries@.push((name, handler));
                    assert(pushed.drop_last() == self.entries@);
                }
                self.entries.push((name, handler));
            },
        }
    }

    /// The handler bound to `name`; `None` when no handler is, which callers
    /// treat as nothing to do.
    pub fn lookup(&self, name: &String) -> (r: Option<&H>)
        ensures
            r matches Some(h) ==> self.handler(name@) == Some(*h),
            r is None ==> self.handler(name@) is None,
    {
        match self.position(name) {
            Some(i) => {
                proof {
                    lemma_bound_latest(self.entries@, i as int, name@);
                }
                Some(&self.entries[i].1)
            },
            None => {
                proof {
                    lemma_bound_absent(self.entries@, name@);
                }
                None
            },
        }
    }
}

/// The latest entry with a name is the one bound to it.
proof fn lemma_bound_latest<H>(entries: Seq<(String, H)>, i: int, name: Seq<char>)
    requires
        0 <= i < entries.len(),
        entries[i].0@ == name,
        forall|j: int| i < j < entries.len() ==> entries[j].0@ != name,
    ensures
        bound_in(entries, name) == Some(entries[i].1),
    decreases entries.len(),
{
    if i < entries.len() - 1 {
        lemma_bound_latest(entries.drop_last(), i, name);
    }
}

/// A name that no entry has is bound to nothing.
proof fn lemma_bound_absent<H>(entries: Seq<(String, H)>, name: Seq<char>)
    requires
        forall|j: int| 0 <= j < entries.len() ==> entries[j].0@ != name,
    ensures
        bound_in(entries, name) is None,
    decreases entries.len(),
{
    if entries.len() > 0 {
        lemma_bound_absent(entries.drop_last(), name);
    }
}

} // verus!
