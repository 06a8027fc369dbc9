//! The pruning predicates of a scan, and what they may skip.
//!
//! Pruning is advisory. Each tier can only take row groups away from what is
//! read, never add to or change what the scan emits; a tier that could not
//! be built is simply off.

use vstd::prelude::*;
use std::sync::Arc;
use datafusion::error::DataFusionError;
use datafusion::physical_optimizer::pruning::PruningPredicate;

verus! {

/// `datafusion::physical_optimizer::pruning::PruningPredicate`, a predicate
/// rewritten over the minimum and maximum of each column.
#[verifier::external_type_specification]
#[verifier::external_body]
pub struct ExPruningPredicate(PruningPredicate);

/// `datafusion::error::DataFusionError`.
#[verifier::external_type_specification]
#[verifier::external_body]
pub struct ExDataFusionError(DataFusionError);

/// Whether a pruning predicate can prune nothing at all: what
/// `PruningPredicate::always_true` answers for it.
pub uninterp spec fn trivially_true(predicate: PruningPredicate) -> bool;

/// `PruningPredicate::always_true` says whether the predicate can prune
/// nothing at all. It reads the predicate alone, so the contract gives the
/// answer its name.
pub assume_specification[ PruningPredicate::always_true ](predicate: &PruningPredicate) -> (trivial:
    bool)
    ensures
        trivial == trivially_true(*predicate),
;

/// How a pruning predicate's expression is shown: what `{}` prints for the
/// expression that `PruningPredicate::predicate_expr` gives.
pub uninterp spec fn shown_expression(predicate: PruningPredicate) -> Seq<char>;

/// `PruningPredicate::predicate_expr`, printed with `{}`. The expression is
/// made of the engine's own expressions, whose text depends on nothing but
/// the expression, so the contract gives the text its name.
#[verifier::external_body]
fn predicate_text(predicate: &PruningPredicate) -> (text: String)
    ensures
        text@ == shown_expression(*predicate),
{
    format!("{}", predicate.predicate_expr())
}

/// What is shown in place of a row-group predicate where there is none.
pub const NO_PREDICATE: &'static str = "<empty>";

/// The row-group predicate to keep, given whether it is trivially true: a
/// predicate that can prune nothing is discarded.
pub fn keep_unless_trivial(predicate: PruningPredicate, trivial: bool) -> (kept: Option<
    Arc<PruningPredicate>,
>)
    ensures
        trivial <==> kept.is_none(),
        kept matches Some(shared) ==> *shared == predicate,
{
    if trivial {
        None
    } else {
        Some(Arc::new(predicate))
    }
}

/// The pruning predicates derived from the user predicate of one scan. It
/// never changes once it is built: what is absent stays absent.
pub struct PruningPredicateSet {
    row_group: Option<Arc<PruningPredicate>>,
    page: bool,
}

impl PruningPredicateSet {
    /// The row-group statistics predicate, where there is one.
    pub closed spec fn spec_row_group(&self) -> Option<PruningPredicate> {
        match self.row_group {
            Some(shared) => Some(*shared),
            None => None,
        }
    }

    /// Whether there is a page-index predicate.
    pub closed spec fn spec_page(&self) -> bool {
        self.page
    }

    /// The set for a scan, from what became of building the row-group
    /// predicate out of the user predicate (`None`: the scan has no
    /// predicate). Also returns the number of predicates that could not be
    /// built, which is 0 or 1.
    ///
    /// Without a user predicate nothing prunes. A failed construction is
    /// counted and leaves row-group pruning off; it never fails the scan. A
    /// predicate that was built is kept unless it is trivially true. The page
    /// predicate is there whenever the scan has a predicate.
    pub fn build(built: Option<Result<PruningPredicate, DataFusionError>>) -> (out: (Self, usize))
        ensures
            out.0.spec_page() == built.is_some(),
            out.1 == (if built matches Some(Err(_)) {
                1usize
            } else {
                0usize
            }),
            out.0.spec_row_group().is_some() <==> (built matches Some(Ok(predicate))
                && !trivially_true(predicate)),
            out.0.spec_row_group() matches Some(kept) ==> built == Some(
                Ok::<PruningPredicate, DataFusionError>(kept),
            ),
    {
        match built {
            None => (PruningPredicateSet { row_group: None, page: false }, 0),
            Some(Err(_)) => (PruningPredicateSet { row_group: None, page: true }, 1),
            Some(Ok(predicate)) => {
                let trivial = predicate.always_true();
                (
                    PruningPredicateSet {
                        row_group: keep_unless_trivial(predicate, trivial),
                        page: true,
                    },
                    0,
                )
            },
        }
    }

    /// How the row-group predicate is shown: its expression, or `<empty>`
    /// where there is none.
    pub open spec fn spec_shown(&self) -> Seq<char> {
        match self.spec_row_group() {
            Some(predicate) => shown_expression(predicate),
            None => NO_PREDICATE@,
        }
    }

    /// How the row-group predicate is shown: its expression, or `<empty>`
    /// where there is none.
    pub fn shown(&self) -> (text: String)
        ensures
            text@ == self.spec_shown(),
    {
        match &self.row_group {
            Some(predicate) => predicate_text(predicate),
            None => NO_PREDICATE.to_owned(),
        }
    }

    /// The row-group statistics predicate, where there is one.
    pub fn row_group(&self) -> (predicate: Option<&Arc<PruningPredicate>>)
        ensures
            match predicate {
                Some(shared) => self.spec_row_group() == Some(**shared),
                None => self.spec_row_group().is_none(),
            },
    {
        self.row_group.as_ref()
    }

    /// Whether there is a page-index predicate.
    #[verifier::when_used_as_spec(spec_page)]
    pub fn page(&self) -> (page: bool)
        ensures
            page == self.spec_page(),
    {
        self.page
    }

    /// The row groups of a file to read, in file order, given what each
    /// pruning tier made of each of them.
    ///
    /// Without a row-group predicate every row group is read. With one, a row
    /// group is read if its statistics may match and, where bloom filtering
    /// is enabled, its bloom filters may match too.
    pub fn row_groups_to_read(&self, bloom_enabled: bool, verdicts: &Vec<RowGroupVerdict>) -> (selected:
        Vec<usize>)
        ensures
            selected@ == kept(
                keep_flags(self.spec_row_group().is_some(), bloom_enabled, verdicts@),
            ),
            forall|i: int|
                0 <= i < verdicts@.len() && reads_group(
                    self.spec_row_group().is_some(),
                    bloom_enabled,
                    #[trigger] verdicts@[i],
                ) ==> selected@.contains(i as usize),
    {
        let pruning = self.row_group.is_some();
        let ghost keep = keep_flags(pruning, bloom_enabled, verdicts@);
        let mut selected: Vec<usize> = Vec::new();
        let mut i: usize = 0;
        while i < verdicts.len()
            invariant
                i <= verdicts@.len(),
                pruning == self.spec_row_group().is_some(),
                keep == keep_flags(pruning, bloom_enabled, verdicts@),
                selected@ == kept(keep.take(i as int)),
            decreases verdicts@.len() - i,
        {
            proof {
                assert(keep.take(i + 1).drop_last() =~= keep.take(i as int));
                assert(keep.take(i + 1).last() == reads_group(pruning, bloom_enabled, verdicts@[i as int]));
            }
            let verdict = verdicts[i];
            if !pruning || (verdict.statistics && (!bloom_enabled || verdict.bloom)) {
                selected.push(i);
            }
            i += 1;
        }
        proof {
            assert(keep.take(i as int) =~= keep);
            lemma_kept_positions(keep);
            assert forall|j: int|
                0 <= j < verdicts@.len() && reads_group(
                    pruning,
                    bloom_enabled,
                    #[trigger] verdicts@[j],
                ) implies selected@.contains(j as usize) by {
                assert(keep[j]);
            }
        }
        selected
    }
}

/// What the pruning tiers made of one row group. `true` means that the row
/// group may hold a matching row; `false`, that it cannot.
#[derive(Clone, Copy, PartialEq, Eq, Debug, Structural)]
pub struct RowGroupVerdict {
    /// By the row group's column statistics.
    pub statistics: bool,
    /// By the row group's bloom filters.
    pub bloom: bool,
}

/// The verdict that rules nothing out.
pub open spec fn open_verdict() -> RowGroupVerdict {
    RowGroupVerdict { statistics: true, bloom: true }
}

/// The verdicts on the `count` row groups of a file, from what evaluating the
/// row-group predicate on their statistics gave: one flag per row group, or
/// nothing where the statistics could not be evaluated.
///
/// Statistics that could not be evaluated, or that do not cover the row
/// groups one for one, rule nothing out. Bloom filters are not asked here
/// and rule nothing out either.
pub open spec fn verdicts_of(pruned: Option<Seq<bool>>, count: nat) -> Seq<RowGroupVerdict> {
    Seq::new(
        count,
        |i: int|
            match pruned {
                Some(flags) if flags.len() == count => RowGroupVerdict {
                    statistics: flags[i],
                    bloom: true,
                },
                _ => open_verdict(),
            },
    )
}

/// A list of flags as contracts see it.
pub open spec fn flags_view(flags: Option<Vec<bool>>) -> Option<Seq<bool>> {
    match flags {
        Some(list) => Some(list@),
        None => None,
    }
}

/// The verdicts on the `count` row groups of a file, from what evaluating the
/// row-group predicate on their statistics gave.
pub fn statistics_verdicts(pruned: Option<Vec<bool>>, count: usize) -> (verdicts: Vec<
    RowGroupVerdict,
>)
    ensures
        verdicts@ == verdicts_of(flags_view(pruned), count as nat),
{
    let usable = match &pruned {
        Some(flags) => flags.len() == count,
        None => false,
    };
    let mut verdicts: Vec<RowGroupVerdict> = Vec::new();
    let mut i: usize = 0;
    while i < count
        invariant
            i <= count,
            usable == (flags_view(pruned) matches Some(flags) && flags.len() == count),
            verdicts@ == verdicts_of(flags_view(pruned), count as nat).take(i as int),
        decreases count - i,
    {
        let statistics = match &pruned {
            Some(flags) => if usable {
                flags[i]
            } else {
                true
            },
            None => true,
        };
        verdicts.push(RowGroupVerdict { statistics, bloom: true });
        proof {
            assert(verdicts@ =~= verdicts_of(flags_view(pruned), count as nat).take(i + 1));
        }
        i += 1;
    }
    proof {
        assert(verdicts_of(flags_view(pruned), count as nat).take(i as int) =~= verdicts_of(
            flags_view(pruned),
            count as nat,
        ));
    }
    verdicts
}

/// Whether a row group is read: always when row-group pruning is off, and
/// else only if no enabled tier rules it out.
pub open spec fn reads_group(pruning: bool, bloom: bool, verdict: RowGroupVerdict) -> bool {
    !pruning || (verdict.statistics && (!bloom || verdict.bloom))
}

/// For each row group, whether it is read.
pub open spec fn keep_flags(pruning: bool, bloom: bool, verdicts: Seq<RowGroupVerdict>) -> Seq<
    bool,
> {
    Seq::new(verdicts.len(), |i: int| reads_group(pruning, bloom, verdicts[i]))
}

/// The positions at which `keep` is true, in increasing order.
pub open spec fn kept(keep: Seq<bool>) -> Seq<usize>
    decreases keep.len(),
{
    if keep.len() == 0 {
        Seq::empty()
    } else if keep.last() {
        kept(keep.drop_last()).push((keep.len() - 1) as usize)
    } else {
        kept(keep.drop_last())
    }
}

/// The rows of the row groups at the positions `selected`, in that order.
pub open spec fn rows_read<R>(groups: Seq<Seq<R>>, selected: Seq<usize>) -> Seq<R> {
    selected.map_values(|i: usize| groups[i as int]).flatten()
}

/// A row group is only ever dropped if none of its rows matches.
pub open spec fn drops_no_match<R>(
    groups: Seq<Seq<R>>,
    matches: spec_fn(R) -> bool,
    keep: Seq<bool>,
) -> bool {
    forall|i: int, k: int|
        0 <= i < groups.len() && 0 <= k < groups[i].len() && matches(#[trigger] groups[i][k])
            ==> keep[i]
}

/// `kept` holds exactly the positions at which `keep` is true, each below the
/// length of `keep`, in strictly increasing order.
pub proof fn lemma_kept_positions(keep: Seq<bool>)
    requires
        keep.len() <= usize::MAX,
    ensures
        forall|k: int| 0 <= k < kept(keep).len() ==> (#[trigger] kept(keep)[k]) < keep.len()
            && keep[kept(keep)[k] as int],
        forall|k: int, l: int| 0 <= k < l < kept(keep).len() ==> kept(keep)[k] < kept(keep)[l],
        forall|i: int| 0 <= i < keep.len() && keep[i] ==> kept(keep).contains(i as usize),
    decreases keep.len(),
{
    if keep.len() > 0 {
        let init = keep.drop_last();
        lemma_kept_positions(init);
        assert forall|i: int| 0 <= i < keep.len() && keep[i] implies kept(keep).contains(
            i as usize,
        ) by {
            if i < keep.len() - 1 {
                assert(init[i]);
                let k = choose|k: int| 0 <= k < kept(init).len() && kept(init)[k] == i as usize;
                assert(kept(keep)[k] == i as usize);
            } else {
                assert(kept(keep)[kept(keep).len() - 1] == i as usize);
            }
        }
    }
}

/// With every flag true, every row group is read.
pub proof fn lemma_fail_open(keep: Seq<bool>)
    requires
        keep.len() <= usize::MAX,
        forall|i: int| 0 <= i < keep.len() ==> keep[i],
    ensures
        kept(keep) == Seq::new(keep.len(), |i: int| i as usize),
    decreases keep.len(),
{
    if keep.len() > 0 {
        lemma_fail_open(keep.drop_last());
    }
    assert(kept(keep) =~= Seq::new(keep.len(), |i: int| i as usize));
}

/// As long as no row group with a matching row is dropped, the matching rows
/// of what is read are the matching rows of the whole file, in the same
/// order.
pub proof fn lemma_kept_rows_match<R>(
    groups: Seq<Seq<R>>,
    matches: spec_fn(R) -> bool,
    keep: Seq<bool>,
)
    requires
        keep.len() == groups.len(),
        groups.len() <= usize::MAX,
        drops_no_match(groups, matches, keep),
    ensures
        rows_read(groups, kept(keep)).filter(matches) == groups.flatten().filter(matches),
    decreases groups.len(),
{
    if groups.len() == 0 {
        assert(kept(keep) =~= Seq::<usize>::empty());
        assert(kept(keep).map_values(|i: usize| groups[i as int]) =~= Seq::<Seq<R>>::empty());
        assert(groups =~= Seq::<Seq<R>>::empty());
    } else {
        let g0 = groups.drop_last();
        let k0 = keep.drop_last();
        let gl = groups.last();
        assert(drops_no_match(g0, matches, k0)) by {
            assert forall|i: int, k: int|
                0 <= i < g0.len() && 0 <= k < g0[i].len() && matches(
                    #[trigger] g0[i][k],
                ) implies k0[i] by {
                assert(g0[i] == groups[i]);
                assert(matches(groups[i][k]));
            }
        }
        lemma_kept_rows_match(g0, matches, k0);
        lemma_kept_positions(k0);
        let sel0 = kept(k0);
        let picked0 = sel0.map_values(|i: usize| g0[i as int]);
        let picked = sel0.map_values(|i: usize| groups[i as int]);
        assert(picked =~= picked0);
        assert(groups =~= g0.push(gl));
        g0.lemma_flatten_push(gl);
        Seq::filter_distributes_over_add(g0.flatten(), gl, matches);
        if keep.last() {
            assert(kept(keep).map_values(|i: usize| groups[i as int]) =~= picked.push(gl));
            picked.lemma_flatten_push(gl);
            Seq::filter_distributes_over_add(picked.flatten(), gl, matches);
        } else {
            assert(gl.filter(matches) =~= Seq::<R>::empty()) by {
                if gl.filter(matches).len() > 0 {
                    gl.lemma_filter_pred(matches, 0);
                    let row = gl.filter(matches)[0];
                    assert(gl.filter(matches).contains(row));
                    gl.lemma_filter_contains_rev(matches, row);
                    let k = choose|k: int| 0 <= k < gl.len() && gl[k] == row;
                    assert(matches(groups[groups.len() - 1][k]));
                }
            }
            assert(g0.flatten().filter(matches) + gl.filter(matches) =~= g0.flatten().filter(
                matches,
            ));
        }
    }
}

/// No tier in use rules out a row group that holds a matching row. The bloom
/// verdicts only count where bloom filtering is enabled.
pub open spec fn sound_verdicts<R>(
    groups: Seq<Seq<R>>,
    matches: spec_fn(R) -> bool,
    verdicts: Seq<RowGroupVerdict>,
    bloom: bool,
) -> bool {
    forall|i: int, k: int|
        0 <= i < groups.len() && 0 <= k < groups[i].len() && matches(#[trigger] groups[i][k])
            ==> verdicts[i].statistics && (bloom ==> verdicts[i].bloom)
}

/// Pruning safety: with verdicts that rule out no row group holding a
/// matching row, the matching rows of what is read are the same, and in the
/// same order, whether pruning is on or off, with or without bloom filters.
/// With pruning off the whole file is read.
///
/// That the verdicts are sound is the promise of whoever evaluates the
/// predicate on the statistics and the bloom filters; it is asked for here,
/// not shown.
pub proof fn lemma_pruning_is_safe<R>(
    groups: Seq<Seq<R>>,
    matches: spec_fn(R) -> bool,
    verdicts: Seq<RowGroupVerdict>,
    pruning: bool,
    bloom: bool,
)
    requires
        verdicts.len() == groups.len(),
        groups.len() <= usize::MAX,
        sound_verdicts(groups, matches, verdicts, bloom),
    ensures
        rows_read(groups, kept(keep_flags(pruning, bloom, verdicts))).filter(matches)
            == rows_read(groups, kept(keep_flags(false, false, verdicts))).filter(matches),
        rows_read(groups, kept(keep_flags(false, false, verdicts))) == groups.flatten(),
{
    let on = keep_flags(pruning, bloom, verdicts);
    let off = keep_flags(false, false, verdicts);
    lemma_kept_rows_match(groups, matches, on);
    lemma_fail_open(off);
    assert(kept(off).map_values(|i: usize| groups[i as int]) =~= groups);
}

} // verus!
