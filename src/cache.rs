//! The resource cache: attribute buffers and index buffers keyed by
//! (namespace, name), created on first use and replaced whole on every upsert.
use vstd::prelude::*;
use crate::buffers::{AttributeBuffer, IndexBuffer, uploads_attributes, uploads_indices};
use crate::command::valid_dim;
use crate::gpu::GpuOp;

verus! {

#[derive(Debug)]
pub struct AttributeEntry {
    pub namespace: String,
    pub name: String,
    pub buffer: AttributeBuffer,
}

#[derive(Debug)]
pub struct IndexEntry {
    pub namespace: String,
    pub name: String,
    pub buffer: IndexBuffer,
}

/// Why an upsert was refused. The cache is left as it was.
#[derive(Clone, Copy, Debug, PartialEq, Eq)]
pub enum CacheError {
    /// The key exists with element width `stored`, and the upsert gave `given`.
    SchemaViolation { stored: u32, given: u32 },
    /// A new attribute buffer was asked for with an element width outside 1 to 4.
    InvalidDimension { dim: u32 },
}

#[derive(Debug)]
pub struct ResourceCache {
    pub attributes: Vec<AttributeEntry>,
    pub indices: Vec<IndexEntry>,
}

impl ResourceCache {
    /// Whether attribute entry `i` has the key (`ns`, `name`).
    pub open spec fn attr_key_at(&self, i: int, ns: Seq<char>, name: Seq<char>) -> bool {
        0 <= i < self.attributes@.len() && self.attributes@[i].namespace@ == ns
            && self.attributes@[i].name@ == name
    }

    /// Whether index entry `i` has the key (`ns`, `name`).
    pub open spec fn index_key_at(&self, i: int, ns: Seq<char>, name: Seq<char>) -> bool {
        0 <= i < self.indices@.len() && self.indices@[i].namespace@ == ns
            && self.indices@[i].name@ == name
    }

    /// The attribute buffer stored under (`ns`, `name`), if any.
    pub open spec fn attr_lookup(&self, ns: Seq<char>, name: Seq<char>) -> Option<AttributeBuffer> {
        if exists|i: int| self.attr_key_at(i, ns, name) {
            Some(self.attributes@[choose|i: int| self.attr_key_at(i, ns, name)].buffer)
        } else {
            None
        }
    }

    /// The index buffer stored under (`ns`, `name`), if any.
    pub open spec fn index_lookup(&self, ns: Seq<char>, name: Seq<char>) -> Option<IndexBuffer> {
        if exists|i: int| self.index_key_at(i, ns, name) {
            Some(self.indices@[choose|i: int| self.index_key_at(i, ns, name)].buffer)
        } else {
            None
        }
    }

    /// The number of attribute entries under (`ns`, `name`).
    pub open spec fn attr_copies(&self, ns: Seq<char>, name: Seq<char>) -> nat {
        Set::new(|i: int| self.attr_key_at(i, ns, name)).len()
    }

    /// Keys are unique in each table, each buffer's handle is its position,
    /// and each buffer is well formed.
    pub open spec fn wf(&self) -> bool {
        &&& forall|i: int, j: int|
            0 <= i < self.attributes@.len() && 0 <= j < self.attributes@.len()
                && self.attributes@[i].namespace@ == self.attributes@[j].namespace@
                && self.attributes@[i].name@ == self.attributes@[j].name@ ==> i == j
        &&& forall|i: int, j: int|
            0 <= i < self.indices@.len() && 0 <= j < self.indices@.len()
                && self.indices@[i].namespace@ == self.indices@[j].namespace@
                && self.indices@[i].name@ == self.indices@[j].name@ ==> i == j
        &&& forall|i: int|
            0 <= i < self.attributes@.len() ==> (#[trigger] self.attributes@[i]).buffer.wf()
                && self.attributes@[i].buffer.buffer == i
        &&& forall|i: int|
            0 <= i < self.indices@.len() ==> (#[trigger] self.indices@[i]).buffer.wf()
                && self.indices@[i].buffer.buffer == i
    }

    /// A key found at `i` is the one the lookup sees.
    pub proof fn lemma_attr_at(&self, i: int, ns: Seq<char>, name: Seq<char>)
        requires
            self.wf(),
            self.attr_key_at(i, ns, name),
        ensures
            self.attr_lookup(ns, name) == Some(self.attributes@[i].buffer),
            self.attr_copies(ns, name) == 1,
    {
        let j = choose|j: int| self.attr_key_at(j, ns, name);
        assert(self.attr_key_at(j, ns, name));
        assert(Set::new(|k: int| self.attr_key_at(k, ns, name)) =~= set![i]);
        assert(set![i].len() == 1) by {
            assert(set![i] =~= Set::<int>::empty().insert(i));
        }
    }

    /// A key found at `i` is the one the lookup sees.
    pub proof fn lemma_index_at(&self, i: int, ns: Seq<char>, name: Seq<char>)
        requires
            self.wf(),
            self.index_key_at(i, ns, name),
        ensures
            self.index_lookup(ns, name) == Some(self.indices@[i].buffer),
    {
        let j = choose|j: int| self.index_key_at(j, ns, name);
        assert(self.index_key_at(j, ns, name));
    }

    /// An empty cache.
    pub fn new() -> (r: ResourceCache)
        ensures
            r.wf(),
            forall|ns: Seq<char>, name: Seq<char>| r.attr_lookup(ns, name) is None,
            forall|ns: Seq<char>, name: Seq<char>| r.index_lookup(ns, name) is None,
    {
        ResourceCache { attributes: Vec::new(), indices: Vec::new() }
    }

    /// The position of the attribute entry under (`ns`, `name`).
    fn find_attr(&self, ns: &String, name: &String) -> (r: Option<usize>)
        ensures
            r matches Some(i) ==> self.attr_key_at(i as int, ns@, name@),
            r is None ==> forall|i: int| !self.attr_key_at(i, ns@, name@),
    {
        let mut i: usize = 0;
        while i < self.attributes.len()
            invariant
                i <= self.attributes@.len(),
                forall|j: int| 0 <= j < i ==> !self.attr_key_at(j, ns@, name@),
            decreases self.attributes.len() - i,
        {
            if self.attributes[i].namespace == *ns && self.attributes[i].name == *name {
                return Some(i);
            }
            i = i + 1;
        }
        None
    }

    /// The position of the index entry under (`ns`, `name`).
    fn find_indices(&self, ns: &String, name: &String) -> (r: Option<usize>)
        ensures
            r matches Some(i) ==> self.index_key_at(i as int, ns@, name@),
            r is None ==> forall|i: int| !self.index_key_at(i, ns@, name@),
    {
        let mut i: usize = 0;
        while i < self.indices.len()
            invariant
                i <= self.indices@.len(),
                forall|j: int| 0 <= j < i ==> !self.index_key_at(j, ns@, name@),
            decreases self.indices.len() - i,
        {
            if self.indices[i].namespace == *ns && self.indices[i].name == *name {
                return Some(i);
            }
            i = i + 1;
        }
        None
    }

    /// The attribute buffer stored under (`ns`, `name`), if any.
    pub fn lookup_buffer(&self, ns: &String, name: &String) -> (r: Option<&AttributeBuffer>)
        requires
            self.wf(),
        ensures
            r matches Some(b) ==> self.attr_lookup(ns@, name@) == Some(*b),
            r is None ==> self.attr_lookup(ns@, name@) is None,
    {
        match self.find_attr(ns, name) {
            Some(i) => {
                proof {
                    self.lemma_attr_at(i as int, ns@, name@);
                }
                Some(&self.attributes[i].buffer)
            },
            None => None,
        }
    }

    /// The index buffer stored under (`ns`, `name`), if any.
    pub fn lookup_indices(&self, ns: &String, name: &String) -> (r: Option<&IndexBuffer>)
        requires
            self.wf(),
        ensures
            r matches Some(b) ==> self.index_lookup(ns@, name@) == Some(*b),
            r is None ==> self.index_lookup(ns@, name@) is None,
    {
        match self.find_indices(ns, name) {
            Some(i) => {
                proof {
                    self.lemma_index_at(i as int, ns@, name@);
                }
                Some(&self.indices[i].buffer)
            },
            None => None,
        }
    }

    /// Creates or refills the attribute buffer under (`namespace`, `name`) with
    /// `data`, `dim` floats per element, returning the operations to perform.
    /// An existing buffer keeps its element width: a different `dim` is a schema
    /// violation. A new buffer needs `dim` in 1 to 4.
    pub fn upsert_buffer(
        &mut self,
        namespace: &String,
        name: &String,
        dim: u32,
        data: &Vec<u32>,
    ) -> (r: Result<Vec<GpuOp>, CacheError>)
        requires
            old(self).wf(),
        ensures
            final(self).wf(),
            final(self).indices == old(self).indices,
            match old(self).attr_lookup(namespace@, name@) {
                Some(b) => if b.size != dim {
                    &&& r matches Err(e) && e == (CacheError::SchemaViolation {
                        stored: b.size,
                        given: dim,
                    })
                    &&& *final(self) == *old(self)
                } else {
                    &&& r matches Ok(ops) && ops@.len() == 1 && uploads_attributes(
                        ops@[0],
                        b.buffer,
                        data@,
                    )
                    &&& final(self).attr_lookup(namespace@, name@) matches Some(nb) && nb.buffer
                        == b.buffer && nb.size == dim && nb.data@ == data@
                },
                None => if !valid_dim(dim) {
                    &&& r matches Err(e) && e == (CacheError::InvalidDimension { dim })
                    &&& *final(self) == *old(self)
                } else {
                    &&& r matches Ok(ops) && ops@.len() == 2 && ops@[0] == (
                    GpuOp::CreateAttributeBuffer { buffer: old(self).attributes@.len() as usize })
                        && uploads_attributes(ops@[1], old(self).attributes@.len() as usize, data@)
                    &&& final(self).attr_lookup(namespace@, name@) matches Some(nb) && nb.buffer
                        == old(self).attributes@.len() && nb.size == dim && nb.data@ == data@
                },
            },
            r is Ok ==> final(self).attr_copies(namespace@, name@) == 1,
            forall|ns: Seq<char>, nm: Seq<char>|
                !(ns == namespace@ && nm == name@) ==> final(self).attr_lookup(ns, nm)
                    == old(self).attr_lookup(ns, nm),
    {
        match self.find_attr(namespace, name) {
            Some(i) => {
                proof {
                    self.lemma_attr_at(i as int, namespace@, name@);
                }
                let stored = self.attributes[i].buffer.size;
                if stored != dim {
                    return Err(CacheError::SchemaViolation { stored, given: dim });
                }
                let mut b = AttributeBuffer { buffer: i, size: stored, count: 0, data: Vec::new() };
                let op = b.fill(data);
                let entry = AttributeEntry { namespace: namespace.clone(), name: name.clone(), buffer: b };
                self.attributes.set(i, entry);
                proof {
                    self.lemma_attr_at(i as int, namespace@, name@);
                    assert forall|ns: Seq<char>, nm: Seq<char>|
                        !(ns == namespace@ && nm == name@) implies self.attr_lookup(ns, nm)
                        == old(self).attr_lookup(ns, nm) by {
                        if exists|j: int| old(self).attr_key_at(j, ns, nm) {
                            let j = choose|j: int| old(self).attr_key_at(j, ns, nm);
                            old(self).lemma_attr_at(j, ns, nm);
                            self.lemma_attr_at(j, ns, nm);
                        } else {
                            assert forall|j: int| !self.attr_key_at(j, ns, nm) by {
                                if j != i {
                                    assert(!old(self).attr_key_at(j, ns, nm));
                                }
                            }
                        }
                    }
                }
                let mut ops: Vec<GpuOp> = Vec::new();
                ops.push(op);
                Ok(ops)
            },
            None => {
                if !crate::command::is_valid_dim(dim) {
                    return Err(CacheError::InvalidDimension { dim });
                }
                let n = self.attributes.len();
                let mut b = AttributeBuffer::new(n, dim);
                let op = b.fill(data);
                let entry = AttributeEntry { namespace: namespace.clone(), name: name.clone(), buffer: b };
                self.attributes.push(entry);
                proof {
                    assert(forall|j: int|
                        0 <= j < n ==> self.attributes@[j] == old(self).attributes@[j]);
                    assert forall|j: int| 0 <= j < n implies !(
                    self.attributes@[j].namespace@ == namespace@ && self.attributes@[j].name@
                        == name@) by {
                        assert(!old(self).attr_key_at(j, namespace@, name@));
                    }
                    assert(self.attr_key_at(n as int, namespace@, name@));
                    assert(self.wf());
                    self.lemma_attr_at(n as int, namespace@, name@);
                    assert forall|ns: Seq<char>, nm: Seq<char>|
                        !(ns == namespace@ && nm == name@) implies self.attr_lookup(ns, nm)
                        == old(self).attr_lookup(ns, nm) by {
                        if exists|j: int| old(self).attr_key_at(j, ns, nm) {
                            let j = choose|j: int| old(self).attr_key_at(j, ns, nm);
                            old(self).lemma_attr_at(j, ns, nm);
                            assert(self.attr_key_at(j, ns, nm));
                            self.lemma_attr_at(j, ns, nm);
                        } else {
                            assert forall|j: int| !self.attr_key_at(j, ns, nm) by {
                                if j != n {
                                    assert(!old(self).attr_key_at(j, ns, nm));
                                }
                            }
                        }
                    }
                }
                let ops: Vec<GpuOp> = vec![GpuOp::CreateAttributeBuffer { buffer: n }, op];
                Ok(ops)
            },
        }
    }

    /// Creates or refills the index buffer under (`namespace`, `name`) with
    /// `data`, drawn as `topology`, returning the operations to perform.
    pub fn upsert_indices(
        &mut self,
        namespace: &String,
        name: &String,
        topology: u32,
        data: &Vec<u32>,
    ) -> (ops: Vec<GpuOp>)
        requires
            old(self).wf(),
        ensures
            final(self).wf(),
            final(self).attributes == old(self).attributes,
            final(self).index_lookup(namespace@, name@) matches Some(nb) && nb.topology == topology
                && nb.data@ == data@ && nb.count == data@.len(),
            match old(self).index_lookup(namespace@, name@) {
                Some(b) => {
                    &&& ops@.len() == 1 && uploads_indices(ops@[0], b.buffer, data@)
                    &&& final(self).index_lookup(namespace@, name@) matches Some(nb) && nb.buffer
                        == b.buffer
                },
                None => {
                    &&& ops@.len() == 2 && ops@[0] == (GpuOp::CreateIndexBuffer {
                        buffer: old(self).indices@.len() as usize,
                    }) && uploads_indices(ops@[1], old(self).indices@.len() as usize, data@)
                    &&& final(self).index_lookup(namespace@, name@) matches Some(nb) && nb.buffer
                        == old(self).indices@.len()
                },
            },
            forall|ns: Seq<char>, nm: Seq<char>|
                !(ns == namespace@ && nm == name@) ==> final(self).index_lookup(ns, nm)
                    == old(self).index_lookup(ns, nm),
    {
        match self.find_indices(namespace, name) {
            Some(i) => {
                proof {
                    self.lemma_index_at(i as int, namespace@, name@);
                }
                let mut b = IndexBuffer::new(i);
                let op = b.fill(topology, data);
                let entry = IndexEntry { namespace: namespace.clone(), name: name.clone(), buffer: b };
                self.indices.set(i, entry);
                proof {
                    self.lemma_index_at(i as int, namespace@, name@);
                    assert forall|ns: Seq<char>, nm: Seq<char>|
                        !(ns == namespace@ && nm == name@) implies self.index_lookup(ns, nm)
                        == old(self).index_lookup(ns, nm) by {
                        if exists|j: int| old(self).index_key_at(j, ns, nm) {
                            let j = choose|j: int| old(self).index_key_at(j, ns, nm);
                            old(self).lemma_index_at(j, ns, nm);
                            self.lemma_index_at(j, ns, nm);
                        } else {
                            assert forall|j: int| !self.index_key_at(j, ns, nm) by {
                                if j != i {
                                    assert(!old(self).index_key_at(j, ns, nm));
                                }
                            }
                        }
                    }
                }
                let mut ops: Vec<GpuOp> = Vec::new();
                ops.push(op);
                ops
            },
            None => {
                let n = self.indices.len();
                let mut b = IndexBuffer::new(n);
                let op = b.fill(topology, data);
                let entry = IndexEntry { namespace: namespace.clone(), name: name.clone(), buffer: b };
                self.indices.push(entry);
                proof {
                    assert(forall|j: int| 0 <= j < n ==> self.indices@[j] == old(self).indices@[j]);
                    assert forall|j: int| 0 <= j < n implies !(self.indices@[j].namespace@
                        == namespace@ && self.indices@[j].name@ == name@) by {
                        assert(!old(self).index_key_at(j, namespace@, name@));
                    }
                    assert(self.index_key_at(n as int, namespace@, name@));
                    assert(self.wf());
                    self.lemma_index_at(n as int, namespace@, name@);
                    assert forall|ns: Seq<char>, nm: Seq<char>|
                        !(ns == namespace@ && nm == name@) implies self.index_lookup(ns, nm)
                        == old(self).index_lookup(ns, nm) by {
                        if exists|j: int| old(self).index_key_at(j, ns, nm) {
                            let j = choose|j: int| old(self).index_key_at(j, ns, nm);
                            old(self).lemma_index_at(j, ns, nm);
                            assert(self.index_key_at(j, ns, nm));
                            self.lemma_index_at(j, ns, nm);
                        } else {
                            assert forall|j: int| !self.index_key_at(j, ns, nm) by {
                                if j != n {
                                    assert(!old(self).index_key_at(j, ns, nm));
                                }
                            }
                        }
                    }
                }
                let ops: Vec<GpuOp> = vec![GpuOp::CreateIndexBuffer { buffer: n }, op];
                ops
            },
        }
    }
}

/// Why an upsert of `dim`-wide data under (`ns`, `name`) is refused, if it is.
pub open spec fn buffer_refusal(cache: ResourceCache, ns: Seq<char>, name: Seq<char>, dim: u32) -> Option<
    CacheError,
> {
    match cache.attr_lookup(ns, name) {
        Some(b) => if b.size != dim {
            Some(CacheError::SchemaViolation { stored: b.size, given: dim })
        } else {
            None
        },
        None => if !valid_dim(dim) {
            Some(CacheError::InvalidDimension { dim })
        } else {
            None
        },
    }
}

/// Repeating an upsert with the element width a key already has is never
/// refused, and the key keeps a single entry: so along any run of accepted
/// upserts with one (namespace, name, dim), the cache holds one buffer, and
/// each upsert leaves in it that upsert's data.
pub proof fn lemma_repeat_upsert_accepted(
    cache: ResourceCache,
    ns: Seq<char>,
    name: Seq<char>,
    dim: u32,
)
    requires
        cache.wf(),
        cache.attr_lookup(ns, name) matches Some(b) && b.size == dim,
    ensures
        buffer_refusal(cache, ns, name, dim) is None,
        cache.attr_copies(ns, name) == 1,
{
    let i = choose|i: int| cache.attr_key_at(i, ns, name);
    cache.lemma_attr_at(i, ns, name);
}

} // verus!
