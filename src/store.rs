use vstd::prelude::*;

use crate::types::{bytes_eq, str_eq, Ctap2Error, Passkey, PasskeyView};

verus! {

/// The views of a list of byte vectors.
pub open spec fn bytes_list(v: Seq<Vec<u8>>) -> Seq<Seq<u8>> {
    v.map_values(|b: Vec<u8>| b@)
}

/// `p` is stored under `rp_id` and `id`.
pub open spec fn key_matches(p: PasskeyView, rp_id: Seq<char>, id: Seq<u8>) -> bool {
    p.rp_id == rp_id && p.credential_id == id
}

/// `p` answers an assertion for `rp_id` with allow list `allow`: it is scoped to
/// `rp_id` and, unless the list is empty, named in it.
pub open spec fn is_candidate(p: PasskeyView, rp_id: Seq<char>, allow: Seq<Seq<u8>>) -> bool {
    p.rp_id == rp_id && (allow.len() == 0 || allow.contains(p.credential_id))
}

/// `p` answers a lookup for `rp_id`: with no ID list, every passkey of `rp_id`;
/// with a list, those of `rp_id` whose credential ID it names.
pub open spec fn in_lookup(p: PasskeyView, rp_id: Seq<char>, ids: Option<Seq<Seq<u8>>>) -> bool {
    p.rp_id == rp_id && match ids {
        Some(l) => l.contains(p.credential_id),
        None => true,
    }
}

pub open spec fn lookup_pred(rp_id: Seq<char>, ids: Option<Seq<Seq<u8>>>) -> spec_fn(PasskeyView) -> bool {
    |p: PasskeyView| in_lookup(p, rp_id, ids)
}

pub open spec fn ids_view(ids: Option<&Vec<Vec<u8>>>) -> Option<Seq<Seq<u8>>> {
    match ids {
        Some(l) => Some(bytes_list(l@)),
        None => None,
    }
}

pub open spec fn passkey_views(v: Seq<Passkey>) -> Seq<PasskeyView> {
    v.map_values(|p: Passkey| p@)
}

/// No two passkeys share an RP ID and a credential ID.
pub open spec fn keys_unique(s: Seq<PasskeyView>) -> bool {
    forall|i: int, j: int|
        0 <= i < j < s.len() ==> !key_matches(#[trigger] s[i], s[j].rp_id, #[trigger] s[j].credential_id)
}

/// `p` with its counter replaced by `c`.
pub open spec fn with_counter(p: PasskeyView, c: Option<u32>) -> PasskeyView {
    PasskeyView { counter: c, ..p }
}

/// Which credentials a store keeps discoverable.
#[derive(Clone, Copy, PartialEq, Eq, Structural, Debug)]
pub enum Discoverability {
    Always,
    Preferred,
    OnlyNonDiscoverable,
}

/// What a store reports of itself.
#[derive(Clone, Copy, PartialEq, Eq, Structural, Debug)]
pub struct StoreInfo {
    pub discoverability: Discoverability,
}

/// The in-memory credential store: passkeys in the order they were saved.
pub struct MemoryStore {
    passkeys: Vec<Passkey>,
}

impl View for MemoryStore {
    type V = Seq<PasskeyView>;

    closed spec fn view(&self) -> Seq<PasskeyView> {
        self.passkeys@.map_values(|p: Passkey| p@)
    }
}

impl MemoryStore {
    /// The store's invariant: credential IDs are unique per RP ID.
    pub open spec fn wf(&self) -> bool {
        keys_unique(self@)
    }

    /// An empty store.
    pub fn new() -> (r: Self)
        ensures
            r@ == Seq::<PasskeyView>::empty(),
            r.wf(),
    {
        let r = MemoryStore { passkeys: Vec::new() };
        assert(r@ =~= Seq::<PasskeyView>::empty());
        r
    }

    /// The in-memory store keeps every credential discoverable.
    pub fn get_info(&self) -> (r: StoreInfo)
        ensures
            r.discoverability == Discoverability::Always,
    {
        StoreInfo { discoverability: Discoverability::Always }
    }

    /// The number of stored passkeys.
    pub fn len(&self) -> (r: usize)
        ensures
            r == self@.len(),
    {
        self.passkeys.len()
    }

    /// A copy of the passkey at `i`.
    pub fn get(&self, i: usize) -> (r: Passkey)
        requires
            i < self@.len(),
        ensures
            r@ == self@[i as int],
    {
        self.passkeys[i].copy()
    }

    /// The position of the passkey stored under `rp_id` and `id`, if any.
    pub fn find(&self, rp_id: &str, id: &Vec<u8>) -> (r: Option<usize>)
        ensures
            match r {
                Some(i) => i < self@.len() && key_matches(self@[i as int], rp_id@, id@),
                None => forall|i: int| 0 <= i < self@.len() ==> !key_matches(#[trigger] self@[i], rp_id@, id@),
            },
    {
        let mut i: usize = 0;
        while i < self.passkeys.len()
            invariant
                i <= self@.len(),
                self@.len() == self.passkeys@.len(),
                forall|j: int| 0 <= j < i ==> !key_matches(#[trigger] self@[j], rp_id@, id@),
            decreases self.passkeys.len() - i,
        {
            let p = &self.passkeys[i];
            assert(self@[i as int] == p@);
            if str_eq(p.rp_id.as_str(), rp_id) && bytes_eq(&p.credential_id, id) {
                return Some(i);
            }
            i = i + 1;
        }
        None
    }

    /// Whether a passkey is stored under `rp_id` and `id`.
    pub fn contains(&self, rp_id: &str, id: &Vec<u8>) -> (r: bool)
        ensures
            r == exists|i: int| 0 <= i < self@.len() && key_matches(#[trigger] self@[i], rp_id@, id@),
    {
        match self.find(rp_id, id) {
            Some(i) => true,
            None => false,
        }
    }

    /// The position of the first passkey at or after `start` that answers an
    /// assertion for `rp_id` with allow list `allow`, if any.
    pub fn first_candidate(&self, rp_id: &str, allow: &Vec<Vec<u8>>, start: usize) -> (r: Option<usize>)
        ensures
            match r {
                Some(i) => start <= i < self@.len() && is_candidate(self@[i as int], rp_id@, bytes_list(allow@))
                    && forall|j: int| start <= j < i ==> !is_candidate(#[trigger] self@[j], rp_id@, bytes_list(allow@)),
                None => forall|j: int|
                    start <= j < self@.len() ==> !is_candidate(#[trigger] self@[j], rp_id@, bytes_list(allow@)),
            },
    {
        let mut i: usize = start;
        while i < self.passkeys.len()
            invariant
                start <= i,
                self@.len() == self.passkeys@.len(),
                forall|j: int| start <= j < i && j < self@.len() ==> !is_candidate(#[trigger] self@[j], rp_id@, bytes_list(allow@)),
            decreases self.passkeys.len() - i,
        {
            let p = &self.passkeys[i];
            assert(self@[i as int] == p@);
            if str_eq(p.rp_id.as_str(), rp_id) && (allow.len() == 0 || list_contains(allow, &p.credential_id)) {
                return Some(i);
            }
            i = i + 1;
        }
        None
    }

    /// Saves a new passkey. A passkey already stored under the same RP ID and
    /// credential ID is a protocol error: `Other`, and the store is unchanged.
    pub fn save_credential(&mut self, passkey: Passkey) -> (r: Result<(), Ctap2Error>)
        requires
            old(self).wf(),
        ensures
            final(self).wf(),
            (exists|i: int| 0 <= i < old(self)@.len() && key_matches(#[trigger] old(self)@[i], passkey@.rp_id, passkey@.credential_id))
                ==> r == Err::<(), Ctap2Error>(Ctap2Error::Other) && final(self)@ == old(self)@,
            !(exists|i: int| 0 <= i < old(self)@.len() && key_matches(#[trigger] old(self)@[i], passkey@.rp_id, passkey@.credential_id))
                ==> r is Ok && final(self)@ == old(self)@.push(passkey@),
    {
        if self.contains(passkey.rp_id.as_str(), &passkey.credential_id) {
            return Err(Ctap2Error::Other);
        }
        let ghost pv = passkey@;
        self.passkeys.push(passkey);
        assert(self@ =~= old(self)@.push(pv));
        Ok(())
    }

    /// Replaces the counter of the passkey at `i`.
    pub fn set_counter(&mut self, i: usize, counter: Option<u32>)
        requires
            old(self).wf(),
            i < old(self)@.len(),
        ensures
            final(self).wf(),
            final(self)@ == old(self)@.update(i as int, with_counter(old(self)@[i as int], counter)),
    {
        let mut p = self.passkeys[i].copy();
        p.counter = counter;
        let ghost pv = p@;
        self.passkeys.set(i, p);
        assert(self@ =~= old(self)@.update(i as int, with_counter(old(self)@[i as int], counter)));
    }

    /// The stored passkeys that answer a lookup for `rp_id` and `ids`, in store order.
    pub fn find_credentials(&self, ids: Option<&Vec<Vec<u8>>>, rp_id: &str) -> (r: Vec<Passkey>)
        ensures
            passkey_views(r@) == self@.filter(lookup_pred(rp_id@, ids_view(ids))),
    {
        let ghost pred = lookup_pred(rp_id@, ids_view(ids));
        let mut r: Vec<Passkey> = Vec::new();
        let mut i: usize = 0;
        while i < self.passkeys.len()
            invariant
                i <= self@.len(),
                self@.len() == self.passkeys@.len(),
                pred == lookup_pred(rp_id@, ids_view(ids)),
                passkey_views(r@) == self@.subrange(0, i as int).filter(pred),
            decreases self.passkeys.len() - i,
        {
            let p = &self.passkeys[i];
            assert(self@[i as int] == p@);
            let wanted = str_eq(p.rp_id.as_str(), rp_id) && match ids {
                Some(l) => list_contains(l, &p.credential_id),
                None => true,
            };
            proof {
                assert(self@.subrange(0, i + 1).drop_last() =~= self@.subrange(0, i as int));
                assert(self@.subrange(0, i + 1).last() == p@);
                assert(wanted == in_lookup(p@, rp_id@, ids_view(ids)));
                assert(pred(p@) == in_lookup(p@, rp_id@, ids_view(ids)));
                let next = self@.subrange(0, i + 1);
                reveal_with_fuel(Seq::filter, 1);
                assert(next.filter(pred) == if pred(next.last()) {
                    next.drop_last().filter(pred).push(next.last())
                } else {
                    next.drop_last().filter(pred)
                });
            }
            if wanted {
                r.push(p.copy());
                proof {
                    assert(passkey_views(r@) =~= self@.subrange(0, i as int).filter(pred).push(p@));
                }
            }
            i = i + 1;
        }
        assert(self@.subrange(0, self@.len() as int) =~= self@);
        r
    }

    /// Replaces the stored passkey with the same RP ID and credential ID; `Other`
    /// where none is stored.
    pub fn update_credential(&mut self, passkey: Passkey) -> (r: Result<(), Ctap2Error>)
        requires
            old(self).wf(),
        ensures
            final(self).wf(),
            match r {
                Ok(()) => exists|i: int|
                    0 <= i < old(self)@.len() && key_matches(
                        #[trigger] old(self)@[i],
                        passkey@.rp_id,
                        passkey@.credential_id,
                    ) && final(self)@ == old(self)@.update(i, passkey@),
                Err(e) => e == Ctap2Error::Other && final(self)@ == old(self)@ && forall|i: int|
                    0 <= i < old(self)@.len() ==> !key_matches(
                        #[trigger] old(self)@[i],
                        passkey@.rp_id,
                        passkey@.credential_id,
                    ),
            },
    {
        match self.find(passkey.rp_id.as_str(), &passkey.credential_id) {
            Some(i) => {
                let ghost pv = passkey@;
                self.passkeys.set(i, passkey);
                assert(self@ =~= old(self)@.update(i as int, pv));
                assert(forall|a: int, b: int| 0 <= a < b < self@.len() ==> (a == i || b == i || (self@[a] == old(self)@[a] && self@[b] == old(self)@[b])));
                Ok(())
            },
            None => Err(Ctap2Error::Other),
        }
    }
}

/// Whether `list` holds `id`.
fn list_contains(list: &Vec<Vec<u8>>, id: &Vec<u8>) -> (r: bool)
    ensures
        r == bytes_list(list@).contains(id@),
{
    let mut i: usize = 0;
    while i < list.len()
        invariant
            i <= list@.len(),
            forall|j: int| 0 <= j < i ==> list@[j]@ != id@,
        decreases list.len() - i,
    {
        if bytes_eq(&list[i], id) {
            assert(bytes_list(list@)[i as int] == id@);
            return true;
        }
        i = i + 1;
    }
    assert forall|j: int| 0 <= j < bytes_list(list@).len() implies bytes_list(list@)[j] != id@ by {
        assert(bytes_list(list@)[j] == list@[j]@);
    }
    false
}

} // verus!
