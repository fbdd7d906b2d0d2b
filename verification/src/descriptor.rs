//! Plain-value models of the two fixed-layout records the engine hands over:
//! the array descriptor (one memory region of cells, plus child descriptors
//! for nested types) and the schema descriptor (the logical type of a
//! column).
//!
//! In the wire protocol the array descriptor carries raw pointers and a
//! release callback.  Here the buffers are held as owned byte and bool
//! vectors, and the release callback is stood for by an identifier:
//! releasing a descriptor tree fires the identifier of every node exactly
//! once, which is what the callback discipline demands.

use vstd::prelude::*;

verus! {

/// The logical type of one column: a format tag, a field name, whether the
/// column may hold nulls, and one child schema per field for struct types.
pub struct SchemaDescriptor {
    pub format: Vec<u8>,
    pub name: String,
    pub nullable: bool,
    pub children: Vec<SchemaDescriptor>,
}

/// One contiguous region of cells: its length, the declared number of null
/// cells, an optional validity buffer (absent means every cell is valid),
/// the raw data buffer, child descriptors for nested types, and the
/// identifier standing for the region's release callback.
pub struct ArrayDescriptor {
    pub length: usize,
    pub null_count: usize,
    pub validity: Option<Vec<bool>>,
    pub data: Vec<u8>,
    pub children: Vec<ArrayDescriptor>,
    pub release_id: u64,
}

impl ArrayDescriptor {
    /// The release identifiers of this descriptor and of every descriptor
    /// below it, the node's own id first, children in order.
    pub open spec fn all_ids(self) -> Seq<u64>
        decreases self,
    {
        seq![self.release_id] + Self::ids_of(self.children@)
    }

    /// The release identifiers of a sequence of descriptor trees, in order.
    pub open spec fn ids_of(ds: Seq<ArrayDescriptor>) -> Seq<u64>
        decreases ds,
    {
        if ds.len() == 0 {
            seq![]
        } else {
            Self::ids_of(ds.subrange(0, ds.len() - 1)) + ds[ds.len() - 1].all_ids()
        }
    }

    /// How many descriptors the tree holds.
    pub open spec fn node_count(self) -> nat
        decreases self,
    {
        1 + Self::node_count_of(self.children@)
    }

    /// How many descriptors a sequence of trees holds.
    pub open spec fn node_count_of(ds: Seq<ArrayDescriptor>) -> nat
        decreases ds,
    {
        if ds.len() == 0 {
            0
        } else {
            Self::node_count_of(ds.subrange(0, ds.len() - 1)) + ds[ds.len() - 1].node_count()
        }
    }
}

/// A descriptor tree yields one release identifier per descriptor: firing
/// the listed callbacks releases each node exactly once, none twice and
/// none left out.
pub proof fn lemma_one_id_per_node(d: ArrayDescriptor)
    ensures
        d.all_ids().len() == d.node_count(),
    decreases d,
{
    lemma_one_id_per_node_seq(d.children@);
}

/// Sequence form of `lemma_one_id_per_node`.
pub proof fn lemma_one_id_per_node_seq(ds: Seq<ArrayDescriptor>)
    ensures
        ArrayDescriptor::ids_of(ds).len() == ArrayDescriptor::node_count_of(ds),
    decreases ds,
{
    if ds.len() > 0 {
        lemma_one_id_per_node_seq(ds.subrange(0, ds.len() - 1));
        lemma_one_id_per_node(ds[ds.len() - 1]);
    }
}

} // verus!
