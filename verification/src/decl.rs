//! The declaration model: one pallet declaration as the parser hands it over,
//! and the same declaration once a final index has been assigned.

use vstd::prelude::*;

verus! {

/// One capability a pallet declares (`Call`, `Event`, `Origin`, `Config`,
/// `Inherent`, `ValidateUnsigned`, or the `Pallet` marker itself), together
/// with the generic parameters written on it.
#[derive(Debug, Clone)]
pub struct PalletPart {
    pub name: String,
    pub generics: Vec<String>,
}

/// One raw pallet declaration, as produced by the input parser: the declared
/// name, the implementation path, an optional instance qualifier, an optional
/// explicit index, and the declared parts.
#[derive(Debug)]
pub struct PalletDeclaration {
    pub name: String,
    pub pallet: String,
    pub instance: Option<String>,
    pub index: Option<u8>,
    pub pallet_parts: Vec<PalletPart>,
}

/// The complete definition of a pallet with the resulting fixed index.
#[derive(Debug, Clone)]
pub struct Pallet {
    pub name: String,
    pub index: u8,
    pub pallet: String,
    pub instance: Option<String>,
    pub pallet_parts: Vec<PalletPart>,
}

/// The first part in `parts` whose name is `name`, if any.
pub open spec fn find_part_spec(parts: Seq<PalletPart>, name: Seq<char>) -> Option<PalletPart>
    decreases parts.len(),
{
    if parts.len() == 0 {
        Option::None
    } else if parts[0].name@ == name {
        Option::Some(parts[0])
    } else {
        find_part_spec(parts.skip(1), name)
    }
}

/// Whether some part in `parts` has the name `name`.
pub open spec fn has_part_spec(parts: Seq<PalletPart>, name: Seq<char>) -> bool {
    find_part_spec(parts, name) is Some
}

/// Copy a list of identifiers.
pub fn clone_strings(v: &Vec<String>) -> (r: Vec<String>)
    ensures
        r@ == v@,
{
    let mut r: Vec<String> = Vec::new();
    let mut i: usize = 0;
    while i < v.len()
        invariant
            i <= v@.len(),
            r@.len() == i,
            forall|k: int| 0 <= k < i ==> r@[k] == v@[k],
        decreases v@.len() - i,
    {
        r.push(v[i].clone());
        i = i + 1;
    }
    proof {
        assert(r@ =~= v@);
    }
    r
}

/// Copy an optional identifier.
pub fn clone_opt_string(o: &Option<String>) -> (r: Option<String>)
    ensures
        r == *o,
{
    match o {
        Some(s) => Some(s.clone()),
        None => None,
    }
}

impl Pallet {
    /// Get resolved pallet parts.
    pub fn pallet_parts(&self) -> (r: &Vec<PalletPart>)
        ensures
            r == &self.pallet_parts,
    {
        &self.pallet_parts
    }

    /// Find the first declared part with the given name.
    pub fn find_part(&self, name: &str) -> (r: Option<&PalletPart>)
        ensures
            (match find_part_spec(self.pallet_parts@, name@) {
                Option::Some(p) => r matches Some(q) && *q == p,
                Option::None => r is None,
            }),
    {
        let mut i: usize = 0;
        let owned: String = name.to_owned();
        proof {
            assert(self.pallet_parts@.skip(0) =~= self.pallet_parts@);
        }
        while i < self.pallet_parts.len()
            invariant
                i <= self.pallet_parts@.len(),
                owned@ == name@,
                find_part_spec(self.pallet_parts@, name@) == find_part_spec(
                    self.pallet_parts@.skip(i as int),
                    name@,
                ),
            decreases self.pallet_parts@.len() - i,
        {
            if self.pallet_parts[i].name == owned {
                assert(self.pallet_parts@.skip(i as int)[0] == self.pallet_parts@[i as int]);
                return Some(&self.pallet_parts[i]);
            }
            assert(self.pallet_parts@.skip(i as int).skip(1) =~= self.pallet_parts@.skip(
                i as int + 1,
            ));
            i = i + 1;
        }
        assert(self.pallet_parts@.skip(i as int).len() == 0);
        None
    }

    /// Return whether the pallet declares a part with the given name.
    pub fn exists_part(&self, name: &str) -> (r: bool)
        ensures
            r == has_part_spec(self.pallet_parts@, name@),
    {
        self.find_part(name).is_some()
    }
}

} // verus!
