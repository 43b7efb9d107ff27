//! A set of byte-string keys (public keys of an external signature scheme),
//! stored as a vector and viewed as a mathematical `Set` of byte sequences.
//! Later entries shadow earlier equal ones, so duplicates do not change the
//! view.

use vstd::prelude::*;

use crate::bytes::bytes_eq;

verus! {

/// The set of byte strings held by a sequence of keys.
pub open spec fn keys_of(s: Seq<Vec<u8>>) -> Set<Seq<u8>>
    decreases s.len(),
{
    if s.len() == 0 {
        Set::empty()
    } else {
        keys_of(s.drop_last()).insert(s.last()@)
    }
}

/// Membership in `keys_of` is membership at some index.
pub proof fn lemma_keys_of_contains(s: Seq<Vec<u8>>, k: Seq<u8>)
    ensures
        keys_of(s).contains(k) <==> exists|i: int| 0 <= i < s.len() && s[i]@ == k,
    decreases s.len(),
{
    if s.len() > 0 {
        lemma_keys_of_contains(s.drop_last(), k);
        if s.last()@ == k {
            assert(s[s.len() - 1]@ == k);
        } else {
            if exists|i: int| 0 <= i < s.len() && s[i]@ == k {
                let i = choose|i: int| 0 <= i < s.len() && s[i]@ == k;
                assert(i < s.len() - 1);
                assert(s.drop_last()[i]@ == k);
            }
        }
    }
}

/// An admin-managed set of trusted public keys.
#[derive(Clone, Debug)]
pub struct KeySet {
    keys: Vec<Vec<u8>>,
}

impl View for KeySet {
    type V = Set<Seq<u8>>;

    closed spec fn view(&self) -> Set<Seq<u8>> {
        keys_of(self.keys@)
    }
}

impl KeySet {
    pub fn new() -> (r: KeySet)
        ensures
            r@ == Set::<Seq<u8>>::empty(),
    {
        KeySet { keys: Vec::new() }
    }

    /// Whether the set holds no key at all.
    pub fn is_empty(&self) -> (r: bool)
        ensures
            r == (self@ == Set::<Seq<u8>>::empty()),
    {
        proof {
            if self.keys@.len() == 0 {
                assert(self@ =~= Set::<Seq<u8>>::empty());
            } else {
                assert(self@.contains(self.keys@.last()@));
            }
        }
        self.keys.len() == 0
    }

    pub fn contains(&self, k: &Vec<u8>) -> (r: bool)
        ensures
            r == self@.contains(k@),
    {
        let n = self.keys.len();
        let mut i: usize = 0;
        while i < n
            invariant
                n == self.keys@.len(),
                i <= n,
                forall|j: int| 0 <= j < i ==> self.keys@[j]@ != k@,
            decreases n - i,
        {
            if bytes_eq(&self.keys[i], k) {
                proof {
                    lemma_keys_of_contains(self.keys@, k@);
                }
                return true;
            }
            i += 1;
        }
        proof {
            lemma_keys_of_contains(self.keys@, k@);
        }
        false
    }

    pub fn insert(&mut self, k: Vec<u8>)
        ensures
            final(self)@ == old(self)@.insert(k@),
    {
        if self.contains(&k) {
            proof {
                assert(self@ =~= self@.insert(k@));
            }
            return;
        }
        let ghost old_keys = self.keys@;
        let ghost kv = k@;
        self.keys.push(k);
        proof {
            assert(self.keys@.drop_last() =~= old_keys);
            assert(self.keys@.last()@ == kv);
        }
    }

    pub fn remove(&mut self, k: &Vec<u8>)
        ensures
            final(self)@ == old(self)@.remove(k@),
    {
        let n = self.keys.len();
        let mut out: Vec<Vec<u8>> = Vec::new();
        let mut i: usize = 0;
        while i < n
            invariant
                n == self.keys@.len(),
                i <= n,
                keys_of(out@) == keys_of(self.keys@.take(i as int)).remove(k@),
            decreases n - i,
        {
            proof {
                assert(self.keys@.take(i + 1).drop_last() =~= self.keys@.take(i as int));
                assert(self.keys@.take(i + 1).last() == self.keys@[i as int]);
            }
            if !bytes_eq(&self.keys[i], k) {
                let ghost out_before = out@;
                let elem = bytes_clone_entry(&self.keys, i);
                out.push(elem);
                proof {
                    assert(out@.drop_last() =~= out_before);
                    assert(keys_of(out@) == keys_of(out_before).insert(self.keys@[i as int]@));
                    assert(keys_of(out@) =~= keys_of(self.keys@.take(i + 1)).remove(k@));
                }
            } else {
                proof {
                    assert(keys_of(self.keys@.take(i + 1)).remove(k@) =~= keys_of(
                        self.keys@.take(i as int),
                    ).remove(k@));
                }
            }
            i += 1;
        }
        proof {
            assert(self.keys@.take(n as int) =~= self.keys@);
        }
        self.keys = out;
    }
}

/// Copy of one key out of a key vector.
fn bytes_clone_entry(keys: &Vec<Vec<u8>>, i: usize) -> (r: Vec<u8>)
    requires
        i < keys@.len(),
    ensures
        r@ == keys@[i as int]@,
{
    crate::bytes::bytes_clone(&keys[i])
}

} // verus!
