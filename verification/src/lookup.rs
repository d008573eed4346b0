//! The lookup table builder: the index-to-name lookup used for
//! introspection over the composed runtime.

use vstd::prelude::*;

use crate::decl::Pallet;

verus! {

/// One lookup row: a pallet's declared name and its final index.
#[derive(Debug)]
pub struct PalletInfoEntry {
    pub name: String,
    pub index: u8,
}

/// Provides information about the pallet setup in the runtime: a linear
/// lookup between declared names and final indices.
#[derive(Debug)]
pub struct PalletInfo {
    pub entries: Vec<PalletInfoEntry>,
}

/// The index of the first entry carrying the given name, if any.
pub open spec fn lookup_index(entries: Seq<PalletInfoEntry>, name: Seq<char>) -> Option<u8>
    decreases entries.len(),
{
    if entries.len() == 0 {
        Option::None
    } else if entries[0].name@ == name {
        Option::Some(entries[0].index)
    } else {
        lookup_index(entries.skip(1), name)
    }
}

/// The name of the first entry carrying the given index, if any.
pub open spec fn lookup_name(entries: Seq<PalletInfoEntry>, index: u8) -> Option<String>
    decreases entries.len(),
{
    if entries.len() == 0 {
        Option::None
    } else if entries[0].index == index {
        Option::Some(entries[0].name)
    } else {
        lookup_name(entries.skip(1), index)
    }
}

impl PalletInfo {
    /// A well-formed lookup table: names and indices are pairwise distinct,
    /// as resolution guarantees of the resolved pallets.
    pub open spec fn wf(self) -> bool {
        &&& forall|i: int, j: int|
            0 <= i < j < self.entries@.len() ==> self.entries@[i].name@ != self.entries@[j].name@
        &&& forall|i: int, j: int|
            0 <= i < j < self.entries@.len() ==> self.entries@[i].index != self.entries@[j].index
    }

    /// The final index recorded for the given declared name, as a table
    /// position-sized integer.
    #[verifier::loop_isolation(false)]
    pub fn index_of(&self, name: &str) -> (r: Option<usize>)
        ensures
            (match lookup_index(self.entries@, name@) {
                Option::Some(ix) => r == Option::Some(ix as usize),
                Option::None => r is None,
            }),
    {
        let owned: String = name.to_owned();
        let mut i: usize = 0;
        proof {
            assert(self.entries@.skip(0) =~= self.entries@);
        }
        while i < self.entries.len()
            invariant
                i <= self.entries@.len(),
                lookup_index(self.entries@, name@) == lookup_index(
                    self.entries@.skip(i as int),
                    name@,
                ),
            decreases self.entries@.len() - i,
        {
            proof {
                assert(self.entries@.skip(i as int)[0] == self.entries@[i as int]);
                assert(self.entries@.skip(i as int).skip(1) =~= self.entries@.skip(i as int + 1));
            }
            if self.entries[i].name == owned {
                return Some(self.entries[i].index as usize);
            }
            i = i + 1;
        }
        proof {
            assert(self.entries@.skip(i as int).len() == 0);
        }
        None
    }

    /// The declared name recorded for the given final index.
    #[verifier::loop_isolation(false)]
    pub fn name_of(&self, index: u8) -> (r: Option<String>)
        ensures
            r == lookup_name(self.entries@, index),
    {
        let mut i: usize = 0;
        proof {
            assert(self.entries@.skip(0) =~= self.entries@);
        }
        while i < self.entries.len()
            invariant
                i <= self.entries@.len(),
                lookup_name(self.entries@, index) == lookup_name(
                    self.entries@.skip(i as int),
                    index,
                ),
            decreases self.entries@.len() - i,
        {
            proof {
                assert(self.entries@.skip(i as int)[0] == self.entries@[i as int]);
                assert(self.entries@.skip(i as int).skip(1) =~= self.entries@.skip(i as int + 1));
            }
            if self.entries[i].index == index {
                return Some(self.entries[i].name.clone());
            }
            i = i + 1;
        }
        proof {
            assert(self.entries@.skip(i as int).len() == 0);
        }
        None
    }
}

/// The table lists one row per pallet, in declaration order, carrying its
/// declared name and final index.
pub open spec fn pallet_info_matches(info: PalletInfo, ps: Seq<Pallet>) -> bool {
    &&& info.entries@.len() == ps.len()
    &&& forall|k: int|
        0 <= k < ps.len() ==> (#[trigger] info.entries@[k]).name == ps[k].name
            && info.entries@[k].index == ps[k].index
}

/// Build the lookup table over the resolved pallets.
#[verifier::loop_isolation(false)]
pub fn decl_pallet_runtime_setup(pallets: &Vec<Pallet>) -> (r: PalletInfo)
    ensures
        pallet_info_matches(r, pallets@),
{
    let mut entries: Vec<PalletInfoEntry> = Vec::new();
    let mut j: usize = 0;
    while j < pallets.len()
        invariant
            j <= pallets@.len(),
            entries@.len() == j,
            forall|k: int|
                0 <= k < j ==> (#[trigger] entries@[k]).name == pallets@[k].name
                    && entries@[k].index == pallets@[k].index,
        decreases pallets@.len() - j,
    {
        entries.push(PalletInfoEntry { name: pallets[j].name.clone(), index: pallets[j].index });
        j = j + 1;
    }
    PalletInfo { entries }
}

/// Lookup round-trip: in a well-formed table, every row's name maps to its
/// index, and its index maps back to its name.
pub proof fn lemma_lookup_round_trip(info: PalletInfo, k: int)
    requires
        info.wf(),
        0 <= k < info.entries@.len(),
    ensures
        lookup_index(info.entries@, info.entries@[k].name@) == Option::Some(
            info.entries@[k].index,
        ),
        lookup_name(info.entries@, info.entries@[k].index) == Option::Some(
            info.entries@[k].name,
        ),
{
    lemma_lookup_first_match(info.entries@, k);
}

/// In a table with pairwise distinct names and indices, the first match for
/// row `k`'s name or index is row `k` itself.
proof fn lemma_lookup_first_match(entries: Seq<PalletInfoEntry>, k: int)
    requires
        0 <= k < entries.len(),
        forall|i: int, j: int|
            0 <= i < j < entries.len() ==> entries[i].name@ != entries[j].name@,
        forall|i: int, j: int|
            0 <= i < j < entries.len() ==> entries[i].index != entries[j].index,
    ensures
        lookup_index(entries, entries[k].name@) == Option::Some(entries[k].index),
        lookup_name(entries, entries[k].index) == Option::Some(entries[k].name),
    decreases entries.len(),
{
    if k > 0 {
        let rest = entries.skip(1);
        assert(forall|m: int| 0 <= m < rest.len() ==> rest[m] == entries[m + 1]);
        lemma_lookup_first_match(rest, k - 1);
        assert(entries[0].name@ != entries[k].name@);
        assert(entries[0].index != entries[k].index);
        assert(rest[k - 1] == entries[k]);
    }
}

} // verus!
