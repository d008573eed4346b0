//! The index assignment engine: turns the ordered raw declarations into
//! resolved pallets, assigning each a unique final index and validating
//! uniqueness of indices and names.
//!
//! An implicit index is the previous final index plus one (zero for the first
//! declaration), mirroring implicit enum-discriminant numbering: an explicit
//! index resets the baseline for the declarations that follow it.

use vstd::prelude::*;

use crate::decl::{Pallet, PalletDeclaration};
use crate::error::CompositionError;

verus! {

/// The names of the declarations, in declaration order.
pub open spec fn decl_names(decls: Seq<PalletDeclaration>) -> Seq<Seq<char>> {
    decls.map_values(|d: PalletDeclaration| d.name@)
}

/// The pallet obtained by fixing the index of one raw declaration.
pub open spec fn resolved_of(d: PalletDeclaration, idx: int) -> Pallet {
    Pallet {
        name: d.name,
        index: idx as u8,
        pallet: d.pallet,
        instance: d.instance,
        pallet_parts: d.pallet_parts,
    }
}

/// The final index of one more declaration, given the final indices assigned
/// so far: an explicit index is honored verbatim, an implicit one is the
/// previous final index plus one, or zero for the first declaration.
pub open spec fn next_index(prev: Seq<int>, d: PalletDeclaration) -> int {
    match d.index {
        Option::Some(i) => i as int,
        Option::None => if prev.len() == 0 {
            0
        } else {
            prev.last() + 1
        },
    }
}

/// The final index of every declaration, computed sequentially over the
/// declaration order.
pub open spec fn final_indices(decls: Seq<PalletDeclaration>) -> Seq<int>
    decreases decls.len(),
{
    if decls.len() == 0 {
        Seq::empty()
    } else {
        let prev = final_indices(decls.drop_last());
        prev.push(next_index(prev, decls.last()))
    }
}

/// Every declaration gets exactly one final index.
pub proof fn lemma_final_indices_len(decls: Seq<PalletDeclaration>)
    ensures
        final_indices(decls).len() == decls.len(),
    decreases decls.len(),
{
    if decls.len() > 0 {
        lemma_final_indices_len(decls.drop_last());
    }
}

/// What resolving the declarations yields: either the sequence of final
/// indices, or the first failure in declaration order.  At each declaration,
/// an implicit index past the largest representable one is reported first,
/// then a conflict with an earlier final index, then a repeated name.
pub open spec fn resolution_result(decls: Seq<PalletDeclaration>) -> Result<
    Seq<int>,
    CompositionError,
>
    decreases decls.len(),
{
    if decls.len() == 0 {
        Result::Ok(Seq::empty())
    } else {
        match resolution_result(decls.drop_last()) {
            Result::Err(e) => Result::Err(e),
            Result::Ok(prev) => {
                let j = decls.len() - 1;
                let d = decls.last();
                if d.index is None && prev.len() > 0 && prev.last() == 255 {
                    Result::Err(CompositionError::IndexOverflow { at: j as usize })
                } else {
                    let idx = next_index(prev, d);
                    if prev.contains(idx) {
                        Result::Err(
                            CompositionError::DuplicateIndex {
                                first: prev.index_of_first(idx).unwrap() as usize,
                                second: j as usize,
                                index: idx as u8,
                            },
                        )
                    } else if decl_names(decls.drop_last()).contains(d.name@) {
                        Result::Err(
                            CompositionError::DuplicateName {
                                first: decl_names(decls.drop_last()).index_of_first(
                                    d.name@,
                                ).unwrap() as usize,
                                second: j as usize,
                            },
                        )
                    } else {
                        Result::Ok(prev.push(idx))
                    }
                }
            },
        }
    }
}

/// Whether resolution succeeds on the given declarations.
pub open spec fn resolution_ok(decls: Seq<PalletDeclaration>) -> bool {
    resolution_result(decls) is Ok
}

/// The resolved pallets of a successfully resolving declaration sequence.
pub open spec fn resolved_seq(decls: Seq<PalletDeclaration>) -> Seq<Pallet> {
    Seq::new(decls.len(), |k: int| resolved_of(decls[k], final_indices(decls)[k]))
}

/// The final indices carried by a sequence of resolved pallets.
pub open spec fn indices_of(pallets: Seq<Pallet>) -> Seq<int> {
    pallets.map_values(|p: Pallet| p.index as int)
}

/// A successful resolution returns exactly the sequentially computed final
/// indices; they all fit the index range, are pairwise distinct, and the
/// declaration names are pairwise distinct as well.
pub proof fn lemma_resolution_ok_final(decls: Seq<PalletDeclaration>)
    requires
        resolution_ok(decls),
    ensures
        resolution_result(decls) == Result::Ok::<Seq<int>, CompositionError>(final_indices(decls)),
        final_indices(decls).len() == decls.len(),
        forall|k: int| 0 <= k < decls.len() ==> 0 <= #[trigger] final_indices(decls)[k] <= 255,
        forall|i: int, j: int|
            0 <= i < j < decls.len() ==> final_indices(decls)[i] != final_indices(decls)[j],
        forall|i: int, j: int| 0 <= i < j < decls.len() ==> decls[i].name@ != decls[j].name@,
    decreases decls.len(),
{
    lemma_final_indices_len(decls);
    if decls.len() > 0 {
        let prefix = decls.drop_last();
        let n = decls.len() - 1;
        lemma_resolution_ok_final(prefix);
        let prev = final_indices(prefix);
        let idx = next_index(prev, decls.last());
        assert(final_indices(decls) == prev.push(idx));
        assert(!prev.contains(idx));
        assert(!decl_names(prefix).contains(decls.last().name@));
        assert forall|k: int| 0 <= k < decls.len() implies 0 <= #[trigger] final_indices(decls)[k]
            <= 255 by {
            if k < n {
                assert(final_indices(decls)[k] == prev[k]);
            } else {
                if decls.last().index is None && prev.len() > 0 {
                    assert(0 <= prev[n - 1] <= 255);
                    assert(prev.last() != 255);
                }
            }
        }
        assert forall|i: int, j: int|
            0 <= i < j < decls.len() implies final_indices(decls)[i] != final_indices(
            decls,
        )[j] by {
            if j < n {
                assert(final_indices(decls)[i] == prev[i]);
                assert(final_indices(decls)[j] == prev[j]);
            } else {
                assert(final_indices(decls)[i] == prev[i]);
                assert(forall|m: int| 0 <= m < prev.len() ==> prev[m] != idx);
            }
        }
        assert forall|i: int, j: int| 0 <= i < j < decls.len() implies decls[i].name@ != decls[j].name@ by {
            if j < n {
                assert(prefix[i] == decls[i]);
                assert(prefix[j] == decls[j]);
            } else {
                assert(decl_names(prefix)[i] == prefix[i].name@);
                assert(prefix[i] == decls[i]);
                assert(forall|m: int|
                    0 <= m < decl_names(prefix).len() ==> decl_names(prefix)[m]
                        != decls.last().name@);
            }
        }
    }
}

/// An error in a prefix of the declarations is the error of the whole
/// sequence: resolution stops at the first failure.
pub proof fn lemma_resolution_err_extends(decls: Seq<PalletDeclaration>, n: int)
    requires
        0 <= n <= decls.len(),
        resolution_result(decls.take(n)) is Err,
    ensures
        resolution_result(decls) == resolution_result(decls.take(n)),
    decreases decls.len() - n,
{
    if n == decls.len() {
        assert(decls.take(n) =~= decls);
    } else {
        assert(decls.take(n + 1).drop_last() =~= decls.take(n));
        lemma_resolution_err_extends(decls, n + 1);
    }
}

/// What each failure kind reports is true of the declarations: an overflow
/// names an implicit declaration following a final index of 255, a duplicate
/// index names two declarations with the same final index, and a duplicate
/// name names two declarations with the same name.  The engine never reports
/// the orchestrator- or aggregator-level failures.
pub proof fn lemma_resolution_err_characterize(decls: Seq<PalletDeclaration>)
    requires
        decls.len() <= usize::MAX,
        resolution_result(decls) is Err,
    ensures
        (match resolution_result(decls) {
            Result::Ok(_) => false,
            Result::Err(e) => match e {
                CompositionError::IndexOverflow { at } => {
                    &&& 0 < at < decls.len()
                    &&& decls[at as int].index is None
                    &&& final_indices(decls)[at - 1] == 255
                },
                CompositionError::DuplicateIndex { first, second, index } => {
                    &&& first < second < decls.len()
                    &&& final_indices(decls)[first as int] == index as int
                    &&& final_indices(decls)[second as int] == index as int
                },
                CompositionError::DuplicateName { first, second } => {
                    &&& first < second < decls.len()
                    &&& decls[first as int].name@ == decls[second as int].name@
                },
                _ => false,
            },
        }),
    decreases decls.len(),
{
    lemma_final_indices_len(decls);
    let prefix = decls.drop_last();
    let n = decls.len() - 1;
    lemma_final_indices_len(prefix);
    let prev = final_indices(prefix);
    assert(final_indices(decls) == prev.push(next_index(prev, decls.last())));
    if resolution_result(prefix) is Err {
        lemma_resolution_err_characterize(prefix);
        assert(forall|i: int| 0 <= i < prefix.len() ==> final_indices(decls)[i] == prev[i]);
        assert(forall|i: int| 0 <= i < prefix.len() ==> prefix[i] == decls[i]);
    } else {
        lemma_resolution_ok_final(prefix);
        let d = decls.last();
        if d.index is None && prev.len() > 0 && prev.last() == 255 {
            assert(final_indices(decls)[n - 1] == prev[n - 1]);
            assert(prev[n - 1] == prev.last());
        } else {
            let idx = next_index(prev, d);
            assert(final_indices(decls)[n] == idx);
            assert(0 <= idx <= 255) by {
                if d.index is None && prev.len() > 0 {
                    assert(0 <= prev[n - 1] <= 255);
                    assert(prev[n - 1] == prev.last());
                    assert(prev.last() != 255);
                }
            }
            if prev.contains(idx) {
                prev.index_of_first_ensures(idx);
                let first = prev.index_of_first(idx).unwrap();
                assert(final_indices(decls)[first] == prev[first]);
            } else if decl_names(prefix).contains(d.name@) {
                decl_names(prefix).index_of_first_ensures(d.name@);
                let first = decl_names(prefix).index_of_first(d.name@).unwrap();
                assert(decl_names(prefix)[first] == prefix[first].name@);
                assert(prefix[first] == decls[first]);
                assert(decls[n].name@ == d.name@);
            }
        }
    }
}

/// Explicit indices are honored verbatim, and an implicit index is one more
/// than the previous final index, or zero for the first declaration.  In
/// particular, the first implicit index following an explicitly indexed
/// declaration `k` is `k + 1`.
pub proof fn lemma_index_assignment(decls: Seq<PalletDeclaration>)
    ensures
        final_indices(decls).len() == decls.len(),
        forall|k: int|
            0 <= k < decls.len() && decls[k].index is Some ==> #[trigger] final_indices(decls)[k]
                == decls[k].index.unwrap() as int,
        forall|k: int|
            0 <= k < decls.len() && decls[k].index is None ==> #[trigger] final_indices(decls)[k]
                == (if k == 0 {
                    0int
                } else {
                    final_indices(decls)[k - 1] + 1
                }),
    decreases decls.len(),
{
    lemma_final_indices_len(decls);
    if decls.len() > 0 {
        let prefix = decls.drop_last();
        let n = decls.len() - 1;
        lemma_index_assignment(prefix);
        let prev = final_indices(prefix);
        assert(final_indices(decls) == prev.push(next_index(prev, decls.last())));
        assert(forall|k: int| 0 <= k < n ==> prefix[k] == decls[k]);
        assert(forall|k: int| 0 <= k < n ==> final_indices(decls)[k] == prev[k]);
        if decls[n].index is None && n > 0 {
            assert(prev.last() == final_indices(decls)[n - 1]);
        }
    }
}

/// With no explicit index anywhere, the assigned indices are `0, 1, 2, ...`
/// in declaration order.
pub proof fn lemma_implicit_indices_sequential(decls: Seq<PalletDeclaration>)
    requires
        forall|k: int| 0 <= k < decls.len() ==> decls[k].index is None,
    ensures
        final_indices(decls).len() == decls.len(),
        forall|k: int| 0 <= k < decls.len() ==> #[trigger] final_indices(decls)[k] == k,
        resolution_ok(decls) ==> resolution_result(decls) == Result::Ok::<
            Seq<int>,
            CompositionError,
        >(final_indices(decls)),
    decreases decls.len(),
{
    lemma_final_indices_len(decls);
    if decls.len() > 0 {
        let prefix = decls.drop_last();
        let n = decls.len() - 1;
        assert(forall|k: int| 0 <= k < n ==> prefix[k] == decls[k]);
        lemma_implicit_indices_sequential(prefix);
        let prev = final_indices(prefix);
        assert(final_indices(decls) == prev.push(next_index(prev, decls.last())));
        if n > 0 {
            assert(prev.last() == n - 1);
        }
    }
    if resolution_ok(decls) {
        lemma_resolution_ok_final(decls);
    }
}

/// Two declarations carrying the same explicit index make resolution fail
/// with a duplicate-index failure naming two declarations that carry that
/// explicit index.  Stated for declaration runs that are otherwise clean:
/// every declaration is explicitly indexed and no name repeats, so no
/// earlier failure can preempt the duplicate index.
pub proof fn lemma_duplicate_explicit_index_rejected(
    decls: Seq<PalletDeclaration>,
    a: int,
    b: int,
)
    requires
        decls.len() <= usize::MAX,
        0 <= a < b < decls.len(),
        forall|k: int| 0 <= k < decls.len() ==> decls[k].index is Some,
        decls[a].index == decls[b].index,
        forall|i: int, j: int| 0 <= i < j < decls.len() ==> decls[i].name@ != decls[j].name@,
    ensures
        !resolution_ok(decls),
        (match resolution_result(decls) {
            Result::Err(CompositionError::DuplicateIndex { first, second, index }) => {
                &&& first < second < decls.len()
                &&& decls[first as int].index == Option::Some(index)
                &&& decls[second as int].index == Option::Some(index)
            },
            _ => false,
        }),
{
    lemma_index_assignment(decls);
    if resolution_ok(decls) {
        lemma_resolution_ok_final(decls);
        assert(final_indices(decls)[a] == decls[a].index.unwrap() as int);
        assert(final_indices(decls)[b] == decls[b].index.unwrap() as int);
        assert(false);
    }
    lemma_resolution_err_characterize(decls);
    match resolution_result(decls) {
        Result::Err(CompositionError::DuplicateIndex { first, second, index }) => {
            assert(final_indices(decls)[first as int] == decls[first as int].index.unwrap() as int);
            assert(final_indices(decls)[second as int] == decls[second as int].index.unwrap() as int);
        },
        _ => {},
    }
}

/// Two declarations sharing a name make resolution fail with a
/// duplicate-name failure naming two declarations with that name.  Stated
/// for declaration runs whose index assignment itself is clean: all final
/// indices distinct and no implicit index following a final index of 255, so
/// no earlier failure can preempt the duplicate name.
pub proof fn lemma_duplicate_name_rejected(decls: Seq<PalletDeclaration>, a: int, b: int)
    requires
        decls.len() <= usize::MAX,
        0 <= a < b < decls.len(),
        decls[a].name@ == decls[b].name@,
        forall|i: int, j: int|
            0 <= i < j < decls.len() ==> final_indices(decls)[i] != final_indices(decls)[j],
        forall|k: int|
            0 < k < decls.len() && decls[k].index is None ==> final_indices(decls)[k - 1] != 255,
    ensures
        !resolution_ok(decls),
        (match resolution_result(decls) {
            Result::Err(CompositionError::DuplicateName { first, second }) => {
                &&& first < second < decls.len()
                &&& decls[first as int].name@ == decls[second as int].name@
            },
            _ => false,
        }),
{
    if resolution_ok(decls) {
        lemma_resolution_ok_final(decls);
        assert(decls[a].name@ != decls[b].name@);
        assert(false);
    }
    lemma_resolution_err_characterize(decls);
}

/// A declaration list that resolves cleanly up to an explicitly indexed 255
/// and then continues with one more implicit declaration fails with an index
/// overflow at that declaration.
pub proof fn lemma_overflow_past_255(decls: Seq<PalletDeclaration>)
    requires
        2 <= decls.len() <= usize::MAX,
        resolution_ok(decls.drop_last()),
        decls[decls.len() - 2].index == Option::Some(255u8),
        decls.last().index is None,
    ensures
        resolution_result(decls) == Result::Err::<Seq<int>, CompositionError>(
            CompositionError::IndexOverflow { at: (decls.len() - 1) as usize },
        ),
{
    let prefix = decls.drop_last();
    lemma_resolution_ok_final(prefix);
    lemma_index_assignment(prefix);
    assert(prefix[prefix.len() - 1] == decls[decls.len() - 2]);
    assert(final_indices(prefix).last() == 255);
}

/// Convert the parsed pallet declarations to their final information,
/// assigning each an index with the same rules as implicit enum-discriminant
/// numbering: an explicit index is used verbatim, an implicit one is the
/// previous final index plus one (zero at the start), and resolution fails on
/// an index past 255, a repeated final index, or a repeated name.
#[verifier::loop_isolation(false)]
pub fn complete_pallets(decls: Vec<PalletDeclaration>) -> (r: Result<Vec<Pallet>, CompositionError>)
    ensures
        (match r {
            Result::Ok(pallets) => resolution_ok(decls@) && pallets@ == resolved_seq(decls@),
            Result::Err(e) => resolution_result(decls@) == Result::Err::<
                Seq<int>,
                CompositionError,
            >(e),
        }),
{
    let ghost orig: Seq<PalletDeclaration> = decls@;
    let mut rest = decls;
    let total: usize = rest.len();
    let mut out: Vec<Pallet> = Vec::new();
    let mut last_index: Option<u8> = None;
    let mut j: usize = 0;
    proof {
        assert(orig.take(0) =~= Seq::<PalletDeclaration>::empty());
        assert(indices_of(Seq::<Pallet>::empty()) =~= Seq::<int>::empty());
    }
    while rest.len() > 0
        invariant
            orig.len() == total,
            j + rest@.len() == orig.len(),
            out@.len() == j,
            forall|k: int| 0 <= k < rest@.len() ==> rest@[k] == orig[j + k],
            resolution_result(orig.take(j as int)) == Result::Ok::<Seq<int>, CompositionError>(
                indices_of(out@),
            ),
            forall|k: int| 0 <= k < j ==> out@[k] == resolved_of(orig[k], out@[k].index as int),
            if j == 0 {
                last_index is None
            } else {
                last_index == Option::Some(out@[j - 1].index)
            },
        decreases rest@.len(),
    {
        assert(rest@[0] == orig[j as int]);
        let d = rest.remove(0);
        let ghost prefix = orig.take(j as int);
        let ghost prev = indices_of(out@);
        proof {
            assert(orig.take(j as int + 1).drop_last() =~= prefix);
            assert(orig.take(j as int + 1).last() == d);
            assert(forall|k: int| 0 <= k < j ==> prev[k] == out@[k].index as int);
            if j > 0 {
                assert(prev.last() == out@[j - 1].index as int);
            }
        }
        let final_index: u8 = match d.index {
            Some(i) => i,
            None => match last_index {
                None => 0,
                Some(li) => {
                    if li == 255 {
                        proof {
                            assert(resolution_result(orig.take(j as int + 1))
                                == Result::Err::<Seq<int>, CompositionError>(
                                CompositionError::IndexOverflow { at: j },
                            ));
                            lemma_resolution_err_extends(orig, j as int + 1);
                        }
                        return Err(CompositionError::IndexOverflow { at: j });
                    }
                    li + 1
                },
            },
        };
        proof {
            assert(!(d.index is None && prev.len() > 0 && prev.last() == 255));
            assert(final_index as int == next_index(prev, d));
        }
        let ghost idx: int = final_index as int;
        // Detect a conflict with an earlier final index.
        let mut i: usize = 0;
        while i < out.len()
            invariant
                i <= out@.len(),
                forall|m: int| 0 <= m < i ==> out@[m].index != final_index,
            decreases out@.len() - i,
        {
            if out[i].index == final_index {
                proof {
                    assert(prev[i as int] == idx);
                    assert forall|m: int| 0 <= m < i implies prev[m] != idx by {
                        assert(prev[m] == out@[m].index as int);
                    }
                    prev.index_of_first_ensures(idx);
                    assert(prev.index_of_first(idx) == Option::Some(i as int));
                    lemma_resolution_err_extends(orig, j as int + 1);
                }
                return Err(
                    CompositionError::DuplicateIndex { first: i, second: j, index: final_index },
                );
            }
            i = i + 1;
        }
        proof {
            assert forall|m: int| 0 <= m < prev.len() implies prev[m] != idx by {
                assert(prev[m] == out@[m].index as int);
            }
            assert(!prev.contains(idx));
        }
        // Detect a repeated declaration name.
        let mut i: usize = 0;
        while i < out.len()
            invariant
                i <= out@.len(),
                forall|m: int| 0 <= m < i ==> out@[m].name@ != d.name@,
            decreases out@.len() - i,
        {
            if out[i].name == d.name {
                proof {
                    assert forall|m: int| 0 <= m < i implies decl_names(prefix)[m] != d.name@ by {
                        assert(decl_names(prefix)[m] == prefix[m].name@);
                        assert(prefix[m] == orig[m]);
                        assert(out@[m] == resolved_of(orig[m], out@[m].index as int));
                    }
                    assert(decl_names(prefix)[i as int] == prefix[i as int].name@);
                    assert(prefix[i as int] == orig[i as int]);
                    assert(out@[i as int] == resolved_of(orig[i as int], out@[i as int].index as int));
                    assert(decl_names(prefix)[i as int] == d.name@);
                    decl_names(prefix).index_of_first_ensures(d.name@);
                    assert(decl_names(prefix).index_of_first(d.name@) == Option::Some(i as int));
                    lemma_resolution_err_extends(orig, j as int + 1);
                }
                return Err(CompositionError::DuplicateName { first: i, second: j });
            }
            i = i + 1;
        }
        proof {
            assert forall|m: int| 0 <= m < decl_names(prefix).len() implies decl_names(prefix)[m]
                != d.name@ by {
                assert(decl_names(prefix)[m] == prefix[m].name@);
                assert(prefix[m] == orig[m]);
                assert(out@[m] == resolved_of(orig[m], out@[m].index as int));
            }
            assert(!decl_names(prefix).contains(d.name@));
            assert(resolution_result(orig.take(j as int + 1)) == Result::Ok::<
                Seq<int>,
                CompositionError,
            >(prev.push(idx)));
        }
        last_index = Some(final_index);
        out.push(
            Pallet {
                name: d.name,
                index: final_index,
                pallet: d.pallet,
                instance: d.instance,
                pallet_parts: d.pallet_parts,
            },
        );
        j = j + 1;
        proof {
            assert(indices_of(out@) =~= prev.push(idx));
            assert(out@[j - 1] == resolved_of(orig[j - 1], idx));
        }
    }
    proof {
        assert(orig.take(j as int) =~= orig);
        lemma_resolution_ok_final(orig);
        assert(indices_of(out@) == final_indices(orig));
        assert forall|k: int| 0 <= k < j implies out@[k] == resolved_seq(orig)[k] by {
            assert(indices_of(out@)[k] == out@[k].index as int);
            assert(out@[k] == resolved_of(orig[k], out@[k].index as int));
            assert(resolved_seq(orig)[k] == resolved_of(orig[k], final_indices(orig)[k]));
        }
        assert(out@ =~= resolved_seq(orig));
    }
    Ok(out)
}

} // verus!
