//! The grab state registry: the record of which abstract keys a capture
//! session currently intercepts at the operating-system level.
//!
//! A key is a member exactly when the session has told the operating system
//! to deliver that key exclusively to its hook.  Membership is tracked so
//! that redundant native grab calls are avoided and so that, on shutdown,
//! exactly the grabbed keys are released.  The embedding application guards
//! one registry with its mutual-exclusion lock; every operation here is a
//! plain single-threaded mutation of that guarded value.

use vstd::prelude::*;
use crate::events::Key;
use crate::keycodes::key_to_native;

verus! {

/// The set of keys currently grabbed, held without duplicates.
pub struct GrabRegistry {
    keys: Vec<Key>,
}

impl View for GrabRegistry {
    type V = Set<Key>;

    closed spec fn view(&self) -> Set<Key> {
        self.keys@.to_set()
    }
}

impl GrabRegistry {
    /// Well-formed: each member is recorded exactly once.
    pub closed spec fn wf(&self) -> bool {
        self.keys@.no_duplicates()
    }

    /// An empty registry: no key is grabbed.
    pub fn new() -> (r: GrabRegistry)
        ensures
            r.wf(),
            r@ == Set::<Key>::empty(),
    {
        let r = GrabRegistry { keys: Vec::new() };
        proof {
            assert(r.keys@.to_set() =~= Set::<Key>::empty());
        }
        r
    }

    /// Whether `key` is currently grabbed.
    pub fn is_grabbed(&self, key: Key) -> (r: bool)
        ensures
            r == self@.contains(key),
    {
        let n = self.keys.len();
        let mut i: usize = 0;
        while i < n
            invariant
                n == self.keys@.len(),
                0 <= i <= n,
                forall|j: int| 0 <= j < i ==> self.keys@[j] != key,
            decreases n - i,
        {
            if self.keys[i] == key {
                proof {
                    assert(self.keys@.contains(key));
                }
                return true;
            }
            i += 1;
        }
        proof {
            assert(!self.keys@.contains(key));
        }
        false
    }

    /// The number of grabbed keys.
    pub fn grabbed_count(&self) -> (n: usize)
        requires
            self.wf(),
        ensures
            n == self@.len(),
    {
        proof {
            self.keys@.unique_seq_to_set();
        }
        self.keys.len()
    }

    /// Records that `key` is grabbed.  Idempotent: when the key is already a
    /// member the registry is left untouched, so a second call in sequence
    /// keeps exactly one membership and leaves the grabbed-set size
    /// unchanged.
    pub fn mark_grabbed(&mut self, key: Key)
        requires
            old(self).wf(),
        ensures
            final(self).wf(),
            final(self)@ == old(self)@.insert(key),
            final(self)@.contains(key),
            old(self)@.contains(key) ==> final(self)@ == old(self)@
                && final(self)@.len() == old(self)@.len(),
            !old(self)@.contains(key) ==> final(self)@.len() == old(self)@.len() + 1,
    {
        let ghost old_seq = self.keys@;
        if !self.is_grabbed(key) {
            self.keys.push(key);
            proof {
                assert forall|j: int, k: int|
                    0 <= j < self.keys@.len() && 0 <= k < self.keys@.len() && j != k
                    implies self.keys@[j] != self.keys@[k] by {
                    if j < old_seq.len() && k < old_seq.len() {
                        assert(self.keys@[j] == old_seq[j]);
                        assert(self.keys@[k] == old_seq[k]);
                    } else if j == old_seq.len() {
                        assert(self.keys@[k] == old_seq[k]);
                        assert(old_seq.contains(old_seq[k]));
                    } else {
                        assert(self.keys@[j] == old_seq[j]);
                        assert(old_seq.contains(old_seq[j]));
                    }
                }
                assert(self.keys@.no_duplicates());
                assert forall|a: Key| self.keys@.to_set().contains(a)
                    implies old_seq.to_set().insert(key).contains(a) by {
                    let idx = choose|idx: int| 0 <= idx < self.keys@.len() && self.keys@[idx] == a;
                    if idx < old_seq.len() {
                        assert(old_seq[idx] == a);
                        assert(old_seq.contains(a));
                    }
                }
                assert forall|a: Key| old_seq.to_set().insert(key).contains(a)
                    implies self.keys@.to_set().contains(a) by {
                    if a == key {
                        assert(self.keys@[old_seq.len() as int] == a);
                        assert(self.keys@.contains(a));
                    } else {
                        let idx = choose|idx: int| 0 <= idx < old_seq.len() && old_seq[idx] == a;
                        assert(self.keys@[idx] == a);
                        assert(self.keys@.contains(a));
                    }
                }
                assert(self.keys@.to_set() =~= old_seq.to_set().insert(key));
                old_seq.unique_seq_to_set();
                self.keys@.unique_seq_to_set();
            }
        } else {
            proof {
                assert(old_seq.to_set().insert(key) =~= old_seq.to_set());
            }
        }
    }

    /// Calls `ungrab_port` with the native virtual code of every grabbed key
    /// and empties the registry: after shutdown no key stays intercepted.
    pub fn release_all<G: Fn(u32) -> ()>(&mut self, ungrab_port: &G)
        requires
            old(self).wf(),
            forall|c: u32| #[trigger] ungrab_port.requires((c,)),
        ensures
            final(self).wf(),
            final(self)@ == Set::<Key>::empty(),
            final(self)@.len() == 0,
    {
        let n = self.keys.len();
        let mut i: usize = 0;
        while i < n
            invariant
                n == self.keys@.len(),
                0 <= i <= n,
                self.wf(),
                forall|c: u32| #[trigger] ungrab_port.requires((c,)),
            decreases n - i,
        {
            let (code, _scan) = key_to_native(self.keys[i]);
            ungrab_port(code);
            i += 1;
        }
        self.keys.clear();
        proof {
            assert(self.keys@.to_set() =~= Set::<Key>::empty());
            self.keys@.unique_seq_to_set();
        }
    }
}

/// Inserting a key into a grabbed set twice leaves exactly what one insert
/// leaves: the registry keeps a single membership for the key, and the
/// second insert changes neither the set nor its size.
pub proof fn lemma_mark_grabbed_idempotent(s: Set<Key>, k: Key)
    ensures
        s.insert(k).insert(k) == s.insert(k),
        s.insert(k).contains(k),
{
    assert(s.insert(k).insert(k) =~= s.insert(k));
}

} // verus!
