//! The permanent export-record map (keyed by asset hash) and the
//! replay-protection nonce map (keyed by target account and target chain),
//! stored as entry vectors and viewed as mathematical `Map`s. Later entries
//! shadow earlier ones with the same key, so an insert is an append.

use vstd::prelude::*;

use crate::bytes::bytes_eq;
use crate::types::{ExportData, ExportDataV, SupportedChains};

verus! {

/// The map held by a sequence of export entries; a later entry wins.
pub open spec fn exports_of(s: Seq<(Vec<u8>, ExportData)>) -> Map<Seq<u8>, ExportDataV>
    decreases s.len(),
{
    if s.len() == 0 {
        Map::empty()
    } else {
        exports_of(s.drop_last()).insert(s.last().0@, s.last().1@)
    }
}

/// The map held by a sequence of nonce entries; a later entry wins.
pub open spec fn nonces_of(s: Seq<(Vec<u8>, SupportedChains, u64)>) -> Map<
    (Seq<u8>, SupportedChains),
    u64,
>
    decreases s.len(),
{
    if s.len() == 0 {
        Map::empty()
    } else {
        nonces_of(s.drop_last()).insert((s.last().0@, s.last().1), s.last().2)
    }
}

/// The permanent record of exported assets, keyed by asset hash. Entries are
/// only ever added, never removed.
pub struct ExportMap {
    entries: Vec<(Vec<u8>, ExportData)>,
}

impl View for ExportMap {
    type V = Map<Seq<u8>, ExportDataV>;

    closed spec fn view(&self) -> Map<Seq<u8>, ExportDataV> {
        exports_of(self.entries@)
    }
}

impl ExportMap {
    pub fn new() -> (r: ExportMap)
        ensures
            r@ == Map::<Seq<u8>, ExportDataV>::empty(),
    {
        ExportMap { entries: Vec::new() }
    }

    /// The export record of `k`, if the asset was ever exported.
    pub fn get(&self, k: &Vec<u8>) -> (r: Option<&ExportData>)
        ensures
            match r {
                Some(v) => self@.contains_key(k@) && v@ == self@[k@],
                None => !self@.contains_key(k@),
            },
    {
        let mut i: usize = self.entries.len();
        proof {
            assert(self.entries@.take(i as int) =~= self.entries@);
        }
        while i > 0
            invariant
                i <= self.entries@.len(),
                self@.contains_key(k@) == exports_of(self.entries@.take(i as int)).contains_key(
                    k@,
                ),
                self@.contains_key(k@) ==> self@[k@] == exports_of(
                    self.entries@.take(i as int),
                )[k@],
            decreases i,
        {
            proof {
                assert(self.entries@.take(i as int).drop_last() =~= self.entries@.take(i - 1));
                assert(self.entries@.take(i as int).last() == self.entries@[i - 1]);
            }
            if bytes_eq(&self.entries[i - 1].0, k) {
                return Some(&self.entries[i - 1].1);
            }
            i -= 1;
        }
        proof {
            assert(self.entries@.take(0) =~= Seq::<(Vec<u8>, ExportData)>::empty());
        }
        None
    }

    pub fn contains_key(&self, k: &Vec<u8>) -> (r: bool)
        ensures
            r == self@.contains_key(k@),
    {
        match self.get(k) {
            Some(_) => true,
            None => false,
        }
    }

    /// Record (or overwrite) the export record of `k`.
    pub fn insert(&mut self, k: Vec<u8>, v: ExportData)
        ensures
            final(self)@ == old(self)@.insert(k@, v@),
    {
        let ghost old_entries = self.entries@;
        self.entries.push((k, v));
        proof {
            assert(self.entries@.drop_last() =~= old_entries);
        }
    }
}

/// The per-(target account, target chain) replay-protection counter. Absent
/// means "never used". Entries are only ever overwritten upward by accepted
/// finalizations.
pub struct NonceMap {
    entries: Vec<(Vec<u8>, SupportedChains, u64)>,
}

impl View for NonceMap {
    type V = Map<(Seq<u8>, SupportedChains), u64>;

    closed spec fn view(&self) -> Map<(Seq<u8>, SupportedChains), u64> {
        nonces_of(self.entries@)
    }
}

impl NonceMap {
    pub fn new() -> (r: NonceMap)
        ensures
            r@ == Map::<(Seq<u8>, SupportedChains), u64>::empty(),
    {
        NonceMap { entries: Vec::new() }
    }

    /// The current counter for a (target account, target chain) pair, if one
    /// was ever written.
    pub fn get(&self, account: &Vec<u8>, chain: SupportedChains) -> (r: Option<u64>)
        ensures
            match r {
                Some(v) => self@.contains_key((account@, chain)) && v == self@[
                    (account@, chain)
                ],
                None => !self@.contains_key((account@, chain)),
            },
    {
        let ghost key = (account@, chain);
        let mut i: usize = self.entries.len();
        proof {
            assert(self.entries@.take(i as int) =~= self.entries@);
        }
        while i > 0
            invariant
                i <= self.entries@.len(),
                key == (account@, chain),
                self@.contains_key(key) == nonces_of(self.entries@.take(i as int)).contains_key(
                    key,
                ),
                self@.contains_key(key) ==> self@[key] == nonces_of(
                    self.entries@.take(i as int),
                )[key],
            decreases i,
        {
            proof {
                assert(self.entries@.take(i as int).drop_last() =~= self.entries@.take(i - 1));
                assert(self.entries@.take(i as int).last() == self.entries@[i - 1]);
            }
            if bytes_eq(&self.entries[i - 1].0, account) && self.entries[i - 1].1 == chain {
                return Some(self.entries[i - 1].2);
            }
            i -= 1;
        }
        proof {
            assert(self.entries@.take(0) =~= Seq::<(Vec<u8>, SupportedChains, u64)>::empty());
        }
        None
    }

    /// Overwrite the counter for a (target account, target chain) pair.
    pub fn insert(&mut self, account: Vec<u8>, chain: SupportedChains, nonce: u64)
        ensures
            final(self)@ == old(self)@.insert((account@, chain), nonce),
    {
        let ghost old_entries = self.entries@;
        self.entries.push((account, chain, nonce));
        proof {
            assert(self.entries@.drop_last() =~= old_entries);
        }
    }
}

} // verus!
