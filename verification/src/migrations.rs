//! Migration planning.
//!
//! Migrations are applied at database open. The versions already applied are
//! read from `schema_migrations`; when the current version is among them
//! nothing is done, otherwise every known migration that is not yet applied is
//! applied (each recording its own version) and the current version is
//! recorded, all in one transaction.

use vstd::prelude::*;
use crate::error::{DbStep, LocalResult, failure, failure_view};

verus! {

/// The current migration version: the highest numbered migration.
pub const CURRENT_VERSION: i64 = 1;

/// The versions of the migrations that ship with the backend, in the order in
/// which they are applied.
pub open spec fn known_versions() -> Seq<i64> {
    seq![1i64]
}

/// The migrations that ship with the backend.
pub fn known_migrations() -> (v: Vec<i64>)
    ensures
        v@ == known_versions(),
{
    vec![1i64]
}

/// What has to be done to bring a database up to the current version.
#[derive(Debug, Clone, PartialEq, Eq)]
pub enum MigrationPlan {
    /// The current version is already applied: nothing to do.
    UpToDate,
    /// Apply the migrations of `pending`, in order, then record `record`.
    Apply { pending: Vec<i64>, record: i64 },
}

impl View for MigrationPlan {
    /// `None` for nothing to do; otherwise the versions to apply.
    type V = Option<Seq<i64>>;

    open spec fn view(&self) -> Option<Seq<i64>> {
        match self {
            MigrationPlan::UpToDate => None,
            MigrationPlan::Apply { pending, record: _ } => Some(pending@),
        }
    }
}

/// Whether `v` is not among the applied versions.
pub open spec fn not_applied(applied: Seq<i64>) -> spec_fn(i64) -> bool {
    |v: i64| !applied.contains(v)
}

/// The plan for a database whose applied versions are `applied`.
pub open spec fn planned(applied: Seq<i64>) -> Option<Seq<i64>> {
    if applied.contains(CURRENT_VERSION) {
        None
    } else {
        Some(known_versions().filter(not_applied(applied)))
    }
}

/// The applied versions once `plan` has been carried out on a database whose
/// applied versions were `applied`: the pending versions and then the current
/// version are recorded, each only if it is not recorded yet (a version is
/// recorded at most once).
pub open spec fn versions_after(applied: Seq<i64>, plan: Option<Seq<i64>>) -> Seq<i64> {
    match plan {
        None => applied,
        Some(pending) => if (applied + pending).contains(CURRENT_VERSION) {
            applied + pending
        } else {
            applied + pending + seq![CURRENT_VERSION]
        },
    }
}

fn has_version(applied: &Vec<i64>, v: i64) -> (b: bool)
    ensures
        b == applied@.contains(v),
{
    let n = applied.len();
    for i in 0..n
        invariant
            n == applied@.len(),
            forall|j: int| 0 <= j < i ==> applied@[j] != v,
    {
        if applied[i] == v {
            assert(applied@[i as int] == v);
            return true;
        }
    }
    false
}

/// Plans the migrations for a database whose applied versions are `applied`.
pub fn plan_migrations(applied: &Vec<i64>) -> (plan: MigrationPlan)
    ensures
        plan@ == planned(applied@),
        plan matches MigrationPlan::Apply { record, .. } ==> record == CURRENT_VERSION,
{
    if has_version(applied, CURRENT_VERSION) {
        return MigrationPlan::UpToDate;
    }
    let known = known_migrations();
    let ghost pred = not_applied(applied@);
    let mut pending: Vec<i64> = Vec::new();
    let n = known.len();
    for i in 0..n
        invariant
            n == known@.len(),
            known@ == known_versions(),
            pred == not_applied(applied@),
            pending@ == known@.take(i as int).filter(pred),
    {
        proof {
            reveal_with_fuel(Seq::<i64>::filter, 1);
            assert(known@.take(i + 1).drop_last() =~= known@.take(i as int));
        }
        let v = known[i];
        if !has_version(applied, v) {
            pending.push(v);
        }
    }
    assert(known@.take(n as int) =~= known@);
    MigrationPlan::Apply { pending, record: CURRENT_VERSION }
}

/// The version that one `schema_migrations` cell stands for: NULL reads as 0.
pub open spec fn version_of(cell: Option<i64>) -> i64 {
    match cell {
        Some(v) => v,
        None => 0,
    }
}

/// The applied versions read from the `version` cells of `schema_migrations`,
/// each cell being the value read or the text of the read error. The first
/// failed read, if any, is the error.
pub fn applied_versions(cells: &Vec<Result<Option<i64>, String>>) -> (r: LocalResult<Vec<i64>>)
    ensures
        match r {
            Ok(v) => {
                &&& forall|i: int| 0 <= i < cells@.len() ==> cells@[i] is Ok
                &&& v@.len() == cells@.len()
                &&& forall|i: int|
                    0 <= i < cells@.len() ==> #[trigger] v@[i] == version_of(cells@[i]->Ok_0)
                &&& forall|i: int|
                    0 <= i < cells@.len() && cells@[i] == Ok::<Option<i64>, String>(None) ==> #[trigger] v@[i] == 0
                &&& forall|i: int|
                    0 <= i < cells@.len() ==> (#[trigger] cells@[i] matches Ok(Some(x)) ==> v@[i] == x)
            },
            Err(e) => exists|k: int|
                {
                    &&& 0 <= k < cells@.len()
                    &&& forall|j: int| 0 <= j < k ==> cells@[j] is Ok
                    &&& #[trigger] cells@[k] matches Err(m) && e@ == failure_view(
                        DbStep::ReadVersion,
                        m@,
                    )
                },
        },
{
    let mut versions: Vec<i64> = Vec::new();
    let n = cells.len();
    for i in 0..n
        invariant
            n == cells@.len(),
            versions@.len() == i,
            forall|j: int| 0 <= j < i ==> cells@[j] is Ok,
            forall|j: int| 0 <= j < i ==> #[trigger] versions@[j] == version_of(cells@[j]->Ok_0),
    {
        match &cells[i] {
            Ok(cell) => {
                let v = match cell {
                    Some(v) => *v,
                    None => 0,
                };
                versions.push(v);
            },
            Err(m) => {
                let e = failure(&DbStep::ReadVersion, m.as_str());
                assert(cells@[i as int] matches Err(m2) && e@ == failure_view(DbStep::ReadVersion, m2@));
                return Err(e);
            },
        }
    }
    Ok(versions)
}

/// Running the migrations twice does no more than running them once: after a
/// plan has been carried out, planning again finds the database up to date.
pub proof fn lemma_migrations_idempotent(applied: Seq<i64>)
    ensures
        planned(versions_after(applied, planned(applied))) is None,
{
    let after = versions_after(applied, planned(applied));
    if !applied.contains(CURRENT_VERSION) {
        let both = applied + planned(applied)->Some_0;
        if !both.contains(CURRENT_VERSION) {
            assert(after[after.len() - 1] == CURRENT_VERSION);
        }
    }
}

/// The shipped migrations are listed once each, in increasing order, and the
/// last one is the current version: `CURRENT_VERSION` is the highest known
/// version.
pub proof fn lemma_known_versions_well_formed()
    ensures
        known_versions().len() > 0,
        known_versions().last() == CURRENT_VERSION,
        forall|i: int, j: int|
            0 <= i < j < known_versions().len() ==> known_versions()[i] < known_versions()[j],
        forall|v: i64| #[trigger] known_versions().contains(v) ==> v <= CURRENT_VERSION,
        known_versions().contains(CURRENT_VERSION),
        known_versions().no_duplicates(),
{
    let k = known_versions();
    assert(k[k.len() - 1] == CURRENT_VERSION);
    assert forall|v: i64| #[trigger] k.contains(v) implies v <= CURRENT_VERSION by {
        let i = choose|i: int| 0 <= i < k.len() && k[i] == v;
    }
}

proof fn lemma_filter_keeps_no_duplicates(s: Seq<i64>, pred: spec_fn(i64) -> bool)
    requires
        s.no_duplicates(),
    ensures
        s.filter(pred).no_duplicates(),
    decreases s.len(),
{
    reveal_with_fuel(Seq::<i64>::filter, 1);
    if s.len() > 0 {
        let init = s.drop_last();
        assert(init.no_duplicates());
        lemma_filter_keeps_no_duplicates(init, pred);
        if pred(s.last()) {
            let f = init.filter(pred);
            if f.contains(s.last()) {
                init.lemma_filter_contains_rev(pred, s.last());
                let i = choose|i: int| 0 <= i < init.len() && init[i] == s.last();
                assert(s[i] == s[s.len() - 1]);
            }
            assert forall|i: int, j: int|
                0 <= i < f.push(s.last()).len() && 0 <= j < f.push(s.last()).len() && i != j
                implies f.push(s.last())[i] != f.push(s.last())[j] by {
                if i < f.len() && j < f.len() {
                } else if i == f.len() {
                    assert(f.contains(f[j]));
                } else {
                    assert(f.contains(f[i]));
                }
            }
        }
    }
}

/// A plan never applies a migration twice: the pending versions are known
/// versions that are not applied yet, each listed once.
pub proof fn lemma_plan_skips_applied(applied: Seq<i64>)
    ensures
        planned(applied) matches Some(pending) ==> {
            &&& forall|v: i64| #[trigger] pending.contains(v) ==> !applied.contains(v)
            &&& forall|v: i64| #[trigger] pending.contains(v) ==> known_versions().contains(v)
            &&& pending.no_duplicates()
        },
{
    if let Some(pending) = planned(applied) {
        let k = known_versions();
        let pred = not_applied(applied);
        assert forall|v: i64| #[trigger] pending.contains(v) implies !applied.contains(v)
            && k.contains(v) by {
            let i = choose|i: int| 0 <= i < pending.len() && pending[i] == v;
            k.lemma_filter_pred(pred, i);
            k.lemma_filter_contains_rev(pred, v);
        }
        lemma_known_versions_well_formed();
        lemma_filter_keeps_no_duplicates(k, pred);
    }
}

/// Whether the recorded versions are those of a database that the runner
/// brought up to date, if it did: recording the current version comes after
/// every known migration.
pub open spec fn consistent_records(applied: Seq<i64>) -> bool {
    applied.contains(CURRENT_VERSION) ==> forall|v: i64|
        #[trigger] known_versions().contains(v) ==> applied.contains(v)
}

/// Recording a plan keeps every version recorded at most once.
pub proof fn lemma_records_stay_unique(applied: Seq<i64>)
    requires
        applied.no_duplicates(),
    ensures
        versions_after(applied, planned(applied)).no_duplicates(),
{
    if let Some(pending) = planned(applied) {
        lemma_plan_skips_applied(applied);
        let both = applied + pending;
        assert forall|i: int, j: int| 0 <= i < both.len() && 0 <= j < both.len() && i != j
            implies both[i] != both[j] by {
            if i < applied.len() && j >= applied.len() {
                assert(pending.contains(both[j]));
                assert(applied.contains(both[i]));
            } else if j < applied.len() && i >= applied.len() {
                assert(pending.contains(both[i]));
                assert(applied.contains(both[j]));
            } else if i >= applied.len() {
                assert(both[i] == pending[i - applied.len()]);
                assert(both[j] == pending[j - applied.len()]);
            }
        }
        if !both.contains(CURRENT_VERSION) {
            let after = both + seq![CURRENT_VERSION];
            assert forall|i: int, j: int| 0 <= i < after.len() && 0 <= j < after.len() && i != j
                implies after[i] != after[j] by {
                if i == both.len() {
                    assert(both.contains(after[j]));
                } else if j == both.len() {
                    assert(both.contains(after[i]));
                } else {
                    assert(after[i] == both[i] && after[j] == both[j]);
                }
            }
        }
    }
}

/// After a plan has been carried out, every known migration and the current
/// version are recorded as applied, and the records stay consistent.
pub proof fn lemma_plan_completes(applied: Seq<i64>)
    requires
        consistent_records(applied),
    ensures
        consistent_records(versions_after(applied, planned(applied))),
        versions_after(applied, planned(applied)).contains(CURRENT_VERSION),
        forall|v: i64|
            #[trigger] known_versions().contains(v) ==> versions_after(
                applied,
                planned(applied),
            ).contains(v),
{
    let after = versions_after(applied, planned(applied));
    let k = known_versions();
    let pred = not_applied(applied);
    if !applied.contains(CURRENT_VERSION) {
        assert(after[after.len() - 1] == CURRENT_VERSION);
    }
    assert forall|v: i64| #[trigger] k.contains(v) implies after.contains(v) by {
        if applied.contains(v) {
            let i = choose|i: int| 0 <= i < applied.len() && applied[i] == v;
            assert(after[i] == v);
        } else {
            let i = choose|i: int| 0 <= i < k.len() && k[i] == v;
            k.lemma_filter_contains(pred, i);
            let pending = k.filter(pred);
            let j = choose|j: int| 0 <= j < pending.len() && pending[j] == v;
            assert(after[applied.len() + j] == v);
        }
    }
}

} // verus!
