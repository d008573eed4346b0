//! The composition list builder: per-pallet type aliases and the two nested
//! "all pallets" compositions, one with and one without the system pallet.

use vstd::prelude::*;

use crate::decl::Pallet;

verus! {

/// The reserved name of the mandatory system pallet.
pub open spec fn system_name() -> Seq<char> {
    "System"@
}

/// A nested pair composition of pallet names.  Folding the declared names
/// left to right, each step wraps the running composition as
/// `(name, running)`: the first-declared pallet ends up innermost and the
/// last-declared one outermost.
#[derive(Debug)]
pub enum PalletComposition {
    Nil,
    Pair(String, Box<PalletComposition>),
}

/// One per-pallet type alias: the declared name stands for the pallet's
/// concrete type, parameterized by the runtime and, if present, by the
/// instance qualifier.
#[derive(Debug)]
pub struct PalletAlias {
    pub name: String,
    pub pallet: String,
    pub instance: Option<String>,
}

/// The composition list: the per-pallet aliases and the two nested
/// compositions.  The deprecated alias accessors expose the same values
/// under their older names.
#[derive(Debug)]
pub struct AllPallets {
    pub aliases: Vec<PalletAlias>,
    pub all_pallets: PalletComposition,
    pub all_pallets_with_system: PalletComposition,
}

/// Flattening a composition innermost-first recovers the names in the order
/// they were folded in.
pub open spec fn flattened(c: PalletComposition) -> Seq<String>
    decreases c,
{
    match c {
        PalletComposition::Nil => Seq::empty(),
        PalletComposition::Pair(name, rest) => flattened(*rest).push(name),
    }
}

/// The names of the given pallets whose declared name is not the reserved
/// system name, in order.
pub open spec fn non_system_names(ps: Seq<Pallet>) -> Seq<String>
    decreases ps.len(),
{
    if ps.len() == 0 {
        Seq::empty()
    } else {
        let r = non_system_names(ps.drop_last());
        if ps.last().name@ == system_name() {
            r
        } else {
            r.push(ps.last().name)
        }
    }
}

/// The alias carries the pallet's declared name, path and instance.
pub open spec fn alias_matches(a: PalletAlias, p: Pallet) -> bool {
    &&& a.name == p.name
    &&& a.pallet == p.pallet
    &&& a.instance == p.instance
}

/// The composition list carries one alias per pallet, in declaration order;
/// flattened, the full composition recovers the declared names in
/// declaration order, and the other composition recovers them with the
/// system pallet left out.
pub open spec fn all_pallets_matches(ap: AllPallets, ps: Seq<Pallet>) -> bool {
    &&& ap.aliases@.len() == ps.len()
    &&& forall|k: int| 0 <= k < ps.len() ==> alias_matches(#[trigger] ap.aliases@[k], ps[k])
    &&& flattened(ap.all_pallets_with_system) == crate::aggregate::names_of(ps)
    &&& flattened(ap.all_pallets) == non_system_names(ps)
}

impl AllPallets {
    /// Deprecated alias of the composition excluding the system pallet.
    pub fn all_modules(&self) -> (r: &PalletComposition)
        ensures
            r == &self.all_pallets,
    {
        &self.all_pallets
    }

    /// Deprecated alias of the composition including every pallet.
    pub fn all_modules_with_system(&self) -> (r: &PalletComposition)
        ensures
            r == &self.all_pallets_with_system,
    {
        &self.all_pallets_with_system
    }
}

/// Build the per-pallet type aliases and the two nested compositions, the
/// first excluding the system pallet and the second including every pallet.
#[verifier::loop_isolation(false)]
pub fn decl_all_pallets(pallets: &Vec<Pallet>) -> (r: AllPallets)
    ensures
        all_pallets_matches(r, pallets@),
{
    let mut aliases: Vec<PalletAlias> = Vec::new();
    let mut all: PalletComposition = PalletComposition::Nil;
    let mut with_system: PalletComposition = PalletComposition::Nil;
    let mut j: usize = 0;
    let system: String = "System".to_owned();
    proof {
        assert(pallets@.take(0) =~= Seq::<Pallet>::empty());
        assert(flattened(all) =~= non_system_names(pallets@.take(0)));
        assert(flattened(with_system) =~= crate::aggregate::names_of(pallets@.take(0)));
    }
    while j < pallets.len()
        invariant
            j <= pallets@.len(),
            system@ == system_name(),
            aliases@.len() == j,
            forall|k: int| 0 <= k < j ==> alias_matches(#[trigger] aliases@[k], pallets@[k]),
            flattened(all) == non_system_names(pallets@.take(j as int)),
            flattened(with_system) == crate::aggregate::names_of(pallets@.take(j as int)),
        decreases pallets@.len() - j,
    {
        let p = &pallets[j];
        proof {
            assert(pallets@.take(j as int + 1).drop_last() =~= pallets@.take(j as int));
            assert(pallets@.take(j as int + 1).last() == pallets@[j as int]);
        }
        aliases.push(
            PalletAlias {
                name: p.name.clone(),
                pallet: p.pallet.clone(),
                instance: crate::decl::clone_opt_string(&p.instance),
            },
        );
        if !(p.name == system) {
            all = PalletComposition::Pair(p.name.clone(), Box::new(all));
        }
        with_system = PalletComposition::Pair(p.name.clone(), Box::new(with_system));
        proof {
            assert(crate::aggregate::names_of(pallets@.take(j as int + 1))
                =~= crate::aggregate::names_of(pallets@.take(j as int)).push(pallets@[j as int].name));
        }
        j = j + 1;
    }
    proof {
        assert(pallets@.take(j as int) =~= pallets@);
    }
    AllPallets { aliases, all_pallets: all, all_pallets_with_system: with_system }
}

} // verus!
