//! The Instance capability: contribution of device source text, deduplicated
//! per translation unit by a set of already-emitted content keys.

use vstd::prelude::*;

verus! {

/// Set of content keys already emitted into one translation unit.
pub struct KeyCache {
    keys: Vec<u64>,
}

impl View for KeyCache {
    type V = Set<u64>;

    closed spec fn view(&self) -> Set<u64> {
        self.keys@.to_set()
    }
}

impl KeyCache {
    /// An empty cache: nothing has been emitted yet.
    pub fn new() -> (r: KeyCache)
        ensures
            r@ == Set::<u64>::empty(),
    {
        let r = KeyCache { keys: Vec::new() };
        proof {
            assert(r@ =~= Set::<u64>::empty());
        }
        r
    }

    /// Whether `key` was already emitted.
    pub fn contains_key(&self, key: u64) -> (r: bool)
        ensures
            r == self@.contains(key),
    {
        let n = self.keys.len();
        let mut i: usize = 0;
        while i < n
            invariant
                n == self.keys.len(),
                i <= n,
                forall|j: int| 0 <= j < i ==> self.keys@[j] != key,
            decreases n - i,
        {
            if self.keys[i] == key {
                proof {
                    assert(self.keys@.contains(key));
                }
                return true;
            }
            i = i + 1;
        }
        proof {
            assert(!self.keys@.contains(key));
        }
        false
    }

    /// Marks `key` as emitted.
    pub fn insert(&mut self, key: u64)
        ensures
            final(self)@ == old(self)@.insert(key),
    {
        let present = self.contains_key(key);
        if !present {
            self.keys.push(key);
            proof {
                assert(self@ =~= old(self)@.insert(key)) by {
                    assert forall|x: u64| self@.contains(x) <==> old(self)@.insert(key).contains(x) by {
                        if self.keys@.contains(x) {
                            let j = choose|j: int| 0 <= j < self.keys@.len() && self.keys@[j] == x;
                            if j < old(self).keys@.len() {
                                assert(old(self).keys@.contains(x));
                            }
                        }
                        if old(self).keys@.contains(x) {
                            let j = choose|j: int|
                                0 <= j < old(self).keys@.len() && old(self).keys@[j] == x;
                            assert(self.keys@[j] == x);
                        }
                        if x == key {
                            assert(self.keys@[self.keys@.len() - 1] == key);
                        }
                    }
                }
            }
        } else {
            proof {
                assert(self@ =~= old(self)@.insert(key));
            }
        }
    }
}

/// Device-source contribution capability.
///
/// An implementation contributes its class's device source text once per
/// translation unit: `emitted_keys` and `source_given` say, for any set of
/// already-emitted keys, which keys it adds and which text it emits, and
/// `source_once` is the idempotence law — a contribution whose key is already
/// present adds nothing and emits nothing.
pub trait Instance: Sized {
    /// Stable key of this implementation's source contribution.
    spec fn source_key_spec() -> u64;

    /// Stable textual identifier: the symbol name of the device dispatch entry.
    spec fn inst_name_spec() -> Seq<u8>;

    /// The keys this contribution adds, given the keys already emitted.
    spec fn emitted_keys(done: Set<u64>) -> Set<u64>;

    /// The text this contribution emits, given the keys already emitted.
    spec fn source_given(done: Set<u64>) -> Seq<u8>;

    /// Idempotence: the contribution always covers its own key, and a second
    /// call over the same translation unit adds and emits nothing.
    proof fn source_once(done: Set<u64>)
        ensures
            done.union(Self::emitted_keys(done)).contains(Self::source_key_spec()),
            done.contains(Self::source_key_spec()) ==> Self::emitted_keys(done)
                == Set::<u64>::empty(),
            done.contains(Self::source_key_spec()) ==> Self::source_given(done)
                == Seq::<u8>::empty(),
    ;

    /// The stable textual identifier, as executable code reports it.
    fn inst_name() -> (r: Vec<u8>)
        ensures
            r@ == Self::inst_name_spec(),
    ;

    /// Emits this implementation's device source text into one translation
    /// unit, recording in `cache` what has been emitted.
    fn source(cache: &mut KeyCache) -> (r: Vec<u8>)
        ensures
            final(cache)@ == old(cache)@.union(Self::emitted_keys(old(cache)@)),
            r@ == Self::source_given(old(cache)@),
    ;
}

/// Keys a leaf contribution adds: its own, unless already present.
pub open spec fn leaf_emitted(done: Set<u64>, key: u64) -> Set<u64> {
    if done.contains(key) {
        Set::empty()
    } else {
        Set::empty().insert(key)
    }
}

/// Text a leaf contribution emits: its import line, unless already present.
pub open spec fn leaf_source(done: Set<u64>, key: u64, text: Seq<u8>) -> Seq<u8> {
    if done.contains(key) {
        Seq::empty()
    } else {
        text
    }
}

} // verus!
