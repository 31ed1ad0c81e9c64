//! Which local backup archives the retention removes.
use crate::date::{cutoff_in_range, is_valid_day, parse_backup_date, spec_is_expired, spec_parse_backup_date};
use std::collections::BTreeSet;
use vstd::prelude::*;

verus! {

/// `name` is a backup file name stamped with day `d`.
pub open spec fn name_has_date(name: Option<String>, d: i32) -> bool {
    name matches Some(n) && spec_parse_backup_date(n@) == Some(d)
}

/// One of the first `k` names of `names` is a backup file name stamped with
/// day `d`.
pub open spec fn date_listed_within(names: Seq<Option<String>>, k: int, d: i32) -> bool {
    exists|i: int| 0 <= i < k && i < names.len() && #[trigger] name_has_date(names[i], d)
}

/// Some name of `names` is a backup file name stamped with day `d`.
pub open spec fn date_is_listed(names: Seq<Option<String>>, d: i32) -> bool {
    date_listed_within(names, names.len() as int, d)
}

/// `name` is a backup file name whose date is among the dates of the first
/// listing `known`: cleanup compares that date with the retention cutoff.
pub open spec fn is_listed_backup(known: Seq<Option<String>>, name: Option<String>) -> bool {
    name matches Some(n) && spec_parse_backup_date(n@) matches Some(d) && date_is_listed(known, d)
}

/// Some archive of `candidates` is a listed backup, so that cleanup needs
/// the retention cutoff.
pub open spec fn cutoff_needed(known: Seq<Option<String>>, candidates: Seq<Option<String>>) -> bool {
    exists|i: int| 0 <= i < candidates.len() && #[trigger] is_listed_backup(known, candidates[i])
}

/// A local archive named `name` is removed on `today`: its name carries a
/// date, that date is among the dates of the first listing `known`, and it
/// expired under the retention. Names that are not valid UTF-8 (`None`) and
/// names without a date are kept.
pub open spec fn is_removable_backup(
    known: Seq<Option<String>>,
    name: Option<String>,
    today: int,
    retention_days: Option<u32>,
) -> bool {
    name matches Some(n) && spec_parse_backup_date(n@) matches Some(d) && date_is_listed(known, d)
        && spec_is_expired(d as int, today, retention_days)
}

/// The positions `0..n`, in order.
pub open spec fn positions(n: nat) -> Seq<usize> {
    Seq::new(n, |i: int| i as usize)
}

/// Days are ordered as `BTreeSet` expects of its items.
spec fn days_are_ordered() -> bool {
    vstd::laws_cmp::obeys_cmp::<i32>()
}

/// Days are ordered as `BTreeSet` expects of its items.
proof fn lemma_day_order_is_lawful()
    ensures
        days_are_ordered(),
{
    broadcast use vstd::laws_cmp::group_laws_cmp;
}

/// The date of the backup file name `name`, when it is one.
fn name_date(name: &Option<String>) -> (r: Option<i32>)
    ensures
        match name {
            Some(n) => r == spec_parse_backup_date(n@),
            None => r is None,
        },
        r matches Some(d) ==> is_valid_day(d as int),
{
    match name {
        Some(n) => parse_backup_date(n.as_str()),
        None => None,
    }
}

/// The dates carried by the backup file names of `known`.
fn listed_dates(known: &Vec<Option<String>>) -> (r: BTreeSet<i32>)
    ensures
        forall|d: i32| #[trigger] r@.contains(d) <==> date_is_listed(known@, d),
{
    broadcast use vstd::std_specs::btree::group_btree_axioms;

    proof {
        lemma_day_order_is_lawful();
    }
    let mut dates: BTreeSet<i32> = BTreeSet::new();
    let mut k: usize = 0;
    while k < known.len()
        invariant
            k <= known@.len(),
            days_are_ordered(),
            forall|d: i32| #[trigger] dates@.contains(d) <==> date_listed_within(known@, k as int, d),
        decreases known@.len() - k,
    {
        let ghost before = dates@;
        let found = name_date(&known[k]);
        match found {
            Some(d) => {
                dates.insert(d);
            },
            None => {},
        }
        proof {
            assert forall|e: i32| #[trigger] dates@.contains(e) <==> date_listed_within(
                known@,
                k + 1,
                e,
            ) by {
                if date_listed_within(known@, k + 1, e) {
                    let i = choose|i: int|
                        0 <= i < k + 1 && i < known@.len() && #[trigger] name_has_date(known@[i], e);
                    if i < k {
                        assert(date_listed_within(known@, k as int, e));
                    }
                }
                if before.contains(e) {
                    let i = choose|i: int|
                        0 <= i < k && i < known@.len() && #[trigger] name_has_date(known@[i], e);
                    assert(name_has_date(known@[i], e));
                }
                if dates@.contains(e) && !before.contains(e) {
                    assert(name_has_date(known@[k as int], e));
                }
            }
        }
        k = k + 1;
    }
    dates
}

/// Whether some archive of `candidates` is a listed backup, so that cleanup
/// needs the retention cutoff to decide on it.
pub fn retention_cutoff_needed(known: &Vec<Option<String>>, candidates: &Vec<Option<String>>) -> (r:
    bool)
    ensures
        r == cutoff_needed(known@, candidates@),
{
    broadcast use vstd::std_specs::btree::group_btree_axioms;

    proof {
        lemma_day_order_is_lawful();
    }
    let dates = listed_dates(known);
    let mut i: usize = 0;
    while i < candidates.len()
        invariant
            i <= candidates@.len(),
            days_are_ordered(),
            forall|d: i32| #[trigger] dates@.contains(d) <==> date_is_listed(known@, d),
            forall|j: int| 0 <= j < i ==> !#[trigger] is_listed_backup(known@, candidates@[j]),
        decreases candidates@.len() - i,
    {
        match name_date(&candidates[i]) {
            Some(d) => {
                if dates.contains(&d) {
                    assert(is_listed_backup(known@, candidates@[i as int]));
                    return true;
                }
            },
            None => {},
        }
        i = i + 1;
    }
    false
}

/// The positions in `candidates` of the archives that cleanup removes on
/// `today`, in increasing order. `known` are the archive names found by a
/// first listing of the backup directory and `candidates` those of a second
/// listing, as `cleanup_old_backups` takes them. The retention cutoff must be
/// a representable date when some candidate is compared with it.
pub fn select_local_backups_to_remove(
    known: &Vec<Option<String>>,
    candidates: &Vec<Option<String>>,
    today: i32,
    retention_days: Option<u32>,
) -> (r: Vec<usize>)
    requires
        is_valid_day(today as int),
        cutoff_in_range(today as int, retention_days) || !cutoff_needed(known@, candidates@),
    ensures
        r@ == positions(candidates@.len()).filter(
            |i: usize| is_removable_backup(known@, candidates@[i as int], today as int, retention_days),
        ),
{
    broadcast use vstd::std_specs::btree::group_btree_axioms;

    proof {
        lemma_day_order_is_lawful();
    }
    let dates = listed_dates(known);
    let ghost pred = |i: usize|
        is_removable_backup(known@, candidates@[i as int], today as int, retention_days);
    let mut r: Vec<usize> = Vec::new();
    let mut i: usize = 0;
    while i < candidates.len()
        invariant
            i <= candidates@.len(),
            is_valid_day(today as int),
            cutoff_in_range(today as int, retention_days) || !cutoff_needed(known@, candidates@),
            days_are_ordered(),
            forall|d: i32| #[trigger] dates@.contains(d) <==> date_is_listed(known@, d),
            pred == (|i: usize|
                is_removable_backup(known@, candidates@[i as int], today as int, retention_days)),
            r@ == positions(candidates@.len()).take(i as int).filter(pred),
        decreases candidates@.len() - i,
    {
        let mut remove = false;
        match name_date(&candidates[i]) {
            Some(d) => {
                if dates.contains(&d) {
                    assert(is_listed_backup(known@, candidates@[i as int]));
                    remove = crate::date::is_expired_by_retention_days(d, today, retention_days);
                }
            },
            None => {},
        }
        proof {
            reveal_with_fuel(Seq::<_>::filter, 1);
            let p = positions(candidates@.len());
            assert(p.take(i + 1).drop_last() =~= p.take(i as int));
            assert(p.take(i + 1).last() == i);
            assert(remove == pred(i));
        }
        if remove {
            r.push(i);
        }
        i = i + 1;
    }
    proof {
        assert(positions(candidates@.len()).take(candidates@.len() as int) =~= positions(
            candidates@.len(),
        ));
    }
    r
}

/// The positions in `candidates` of the archives that cleanup removes on
/// `today`, as `select_local_backups_to_remove` finds them, or `None` when
/// some candidate would be compared with a retention cutoff that is no
/// representable date (where the comparison overflows).
pub fn plan_local_cleanup(
    known: &Vec<Option<String>>,
    candidates: &Vec<Option<String>>,
    today: i32,
    retention_days: Option<u32>,
) -> (r: Option<Vec<usize>>)
    requires
        is_valid_day(today as int),
    ensures
        r is None <==> (!cutoff_in_range(today as int, retention_days) && cutoff_needed(
            known@,
            candidates@,
        )),
        r matches Some(v) ==> v@ == positions(candidates@.len()).filter(
            |i: usize| is_removable_backup(known@, candidates@[i as int], today as int, retention_days),
        ),
{
    if crate::date::retention_cutoff_day(today, retention_days).is_none()
        && retention_cutoff_needed(known, candidates) {
        None
    } else {
        Some(select_local_backups_to_remove(known, candidates, today, retention_days))
    }
}

/// The glob pattern matching the archives in `backup_dir`: `*.7z` joined
/// onto it.
pub fn backup_glob_pattern(backup_dir: &str) -> (r: String)
    ensures
        r@ == crate::config::spec_path_join(backup_dir@, "*.7z"@),
{
    crate::config::path_join(backup_dir, "*.7z")
}

} // verus!
