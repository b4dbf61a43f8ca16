//! Short network ids for types.
use std::collections::HashMap;
use vstd::prelude::*;
use crate::vec_map::{Key, VecMap};

verus! {

broadcast use vstd::std_specs::hash::group_hash_axioms;

/// The id under which a type goes over the network.
pub type NetId = u16;

/// The identity of a registered type.
pub trait TypeKind: Key + Copy {

}

/// A one-to-one assignment of network ids to types, in the order of registration.
///
/// Its view is the sequence of the registered kinds: the kind at position `i` has the id `i`.
#[derive(Debug, PartialEq)]
#[verifier::reject_recursive_types(K)]
pub struct TypeMapper<K> {
    next_net_id: NetId,
    kind_map: VecMap<K, NetId>,
    id_map: HashMap<NetId, K>,
}

impl<K> View for TypeMapper<K> {
    type V = Seq<K>;

    closed spec fn view(&self) -> Seq<K> {
        Seq::new(self.next_net_id as nat, |i: int| self.id_map@[i as NetId])
    }
}

impl<K> TypeMapper<K> {
    /// The ids below the next one are taken, one kind each, and both maps agree on them.
    pub closed spec fn wf(&self) -> bool {
        &&& self.kind_map.wf()
        &&& self@.no_duplicates()
        &&& forall|id: NetId| #[trigger] self.id_map@.contains_key(id) <==> id < self.next_net_id
        &&& forall|kind: K| #[trigger] self.kind_map@.contains_key(kind) <==> self@.contains(kind)
        &&& forall|i: int|
            0 <= i < self.next_net_id ==> self.kind_map@[#[trigger] self@[i]] == i
    }
}

/// The kinds registered after `kind` was added to `kinds`: a kind that is already there keeps
/// its place, a new one gets the next.
pub open spec fn with_kind<K>(kinds: Seq<K>, kind: K) -> Seq<K> {
    if kinds.contains(kind) {
        kinds
    } else {
        kinds.push(kind)
    }
}

impl<K: TypeKind> TypeMapper<K> {
    /// A mapper without any type.
    pub fn new() -> (mapper: Self)
        ensures
            mapper.wf(),
            mapper@ == Seq::<K>::empty(),
    {
        let mapper = TypeMapper {
            next_net_id: 0,
            kind_map: VecMap::new(),
            id_map: HashMap::new(),
        };
        assert(mapper@ =~= Seq::<K>::empty());
        mapper
    }

    /// The number of registered types.
    pub fn len(&self) -> (len: usize)
        requires
            self.wf(),
        ensures
            len == self@.len(),
    {
        proof {
            self@.unique_seq_to_set();
            assert(self.kind_map@.dom() =~= self@.to_set());
        }
        self.kind_map.len()
    }

    /// Registers a type. A type that is registered already keeps its id.
    pub fn add(&mut self, kind: K)
        requires
            old(self).wf(),
            old(self)@.contains(kind) || old(self)@.len() < NetId::MAX,
        ensures
            final(self).wf(),
            final(self)@ == with_kind(old(self)@, kind),
    {
        if self.kind_map.contains_key(&kind) {
            return;
        }
        let net_id = self.next_net_id;
        self.next_net_id = net_id + 1;
        self.kind_map.insert(kind, net_id);
        self.id_map.insert(net_id, kind);
        proof {
            let before = old(self)@;
            assert(self@ =~= before.push(kind));
            assert forall|k: K| #[trigger]
                self.kind_map@.contains_key(k) <==> self@.contains(k) by {
                if self@.contains(k) && k != kind {
                    let i = choose|i: int| 0 <= i < self@.len() && self@[i] == k;
                    assert(before[i] == k);
                }
                if before.contains(k) {
                    let i = choose|i: int| 0 <= i < before.len() && before[i] == k;
                    assert(self@[i] == k);
                }
                assert(self@[before.len() as int] == kind);
            }
            assert forall|i: int| 0 <= i < self.next_net_id implies self.kind_map@[
                #[trigger] self@[i]
            ] == i by {
                if i < before.len() {
                    assert(self@[i] == before[i]);
                    assert(before.contains(before[i]));
                }
            }
        }
    }

    /// The type that has the id.
    pub fn kind(&self, net_id: NetId) -> (kind: Option<&K>)
        requires
            self.wf(),
        ensures
            match kind {
                Some(k) => net_id < self@.len() && *k == self@[net_id as int],
                None => net_id >= self@.len(),
            },
    {
        self.id_map.get(&net_id)
    }

    /// The id of the type.
    pub fn net_id(&self, kind: &K) -> (net_id: Option<&NetId>)
        requires
            self.wf(),
        ensures
            match net_id {
                Some(id) => *id < self@.len() && self@[*id as int] == *kind,
                None => !self@.contains(*kind),
            },
    {
        proof {
            if self@.contains(*kind) {
                let i = choose|i: int| 0 <= i < self@.len() && self@[i] == *kind;
                assert(self.kind_map@[self@[i]] == i);
            }
        }
        self.kind_map.get(kind)
    }
}

impl<K: TypeKind> Clone for TypeMapper<K> {
    fn clone(&self) -> (mapper: Self)
        ensures
            mapper@ == self@,
            self.wf() ==> mapper.wf(),
    {
        let mapper = TypeMapper {
            next_net_id: self.next_net_id,
            kind_map: self.kind_map.clone(),
            id_map: self.id_map.clone(),
        };
        assert(self.kind_map.wf() ==> mapper.kind_map@ =~= self.kind_map@);
        assert(mapper@ =~= self@);
        mapper
    }
}

}
