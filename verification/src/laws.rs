//! Properties of the library that span its functions: the retention rule,
//! the agreement of local and remote cleanup, backup file names, object keys
//! and the order in which the commands act.
use crate::cleanup::{date_is_listed, is_removable_backup, name_has_date, positions};
use crate::command::{
    file_uploaded_message,
    remote_size_failure,
    backup_step,
    backup_success_message,
    delete_from,
    delete_step,
    delete_wf,
    is_progress_notice,
    upload_step,
    upload_wf,
    remote_size_matches,
    UploadState,
    Action,
    BackupJob,
    BackupState,
    DeleteJob,
    DeleteState,
    Event,
    UploadJob,
};
use crate::date::{
    archive_name,
    backup_date_field,
    is_digit,
    lemma_time_eq,
    spec_is_expired,
    spec_parse_backup_date,
    spec_parse_compact_date,
    spec_retention_days_or_default,
    stamp_writes_day,
};
use crate::compression::{archive_day, file_stem_len, with_7z_extension};
use crate::config::spec_path_join;
use crate::storage::{
    chronological_order,
    final_component_end,
    final_segment,
    file_name_of,
    has_no_separator,
    is_expired_remote,
    lemma_final_segment_from,
    object_key_of,
    CosItem,
};
use core::cmp::Ordering;
use crate::text::{is_last_index, last_index_of, lemma_last_index_unique};
use vstd::prelude::*;

verus! {

/// Without a configured retention, today's and yesterday's backups are kept
/// and everything older expires.
pub proof fn law_default_retention_keeps_two_days(item_day: int, today: int)
    ensures
        spec_is_expired(item_day, today, None) <==> item_day <= today - 2,
{
}

/// With a retention of `n` days (`n` at least one), a backup made on or
/// before `today` is kept exactly when it is less than `n` days old: the `n`
/// most recent days, today included, are kept.
pub proof fn law_retention_keeps_latest_days(item_day: int, today: int, n: u32)
    requires
        n >= 1,
        item_day <= today,
    ensures
        !spec_is_expired(item_day, today, Some(n)) <==> today - item_day < n,
{
}

/// A retention of zero days expires every backup made up to today.
pub proof fn law_zero_retention_expires_everything(item_day: int, today: int)
    requires
        item_day <= today,
    ensures
        spec_is_expired(item_day, today, Some(0)),
{
}

/// With a retention of at least one day, a backup made today is kept.
pub proof fn law_todays_backup_is_kept(today: int, retention_days: Option<u32>)
    requires
        spec_retention_days_or_default(retention_days) >= 1,
    ensures
        !spec_is_expired(today, today, retention_days),
{
}

/// A longer retention never expires a backup that a shorter one keeps.
pub proof fn law_longer_retention_keeps_more(
    item_day: int,
    today: int,
    shorter: Option<u32>,
    longer: Option<u32>,
)
    requires
        spec_retention_days_or_default(shorter) <= spec_retention_days_or_default(longer),
        spec_is_expired(item_day, today, longer),
    ensures
        spec_is_expired(item_day, today, shorter),
{
}

/// Whatever is older than an expired backup has expired as well.
pub proof fn law_older_backups_expire_first(
    older: int,
    newer: int,
    today: int,
    retention_days: Option<u32>,
)
    requires
        older <= newer,
        spec_is_expired(newer, today, retention_days),
    ensures
        spec_is_expired(older, today, retention_days),
{
}

/// The remote objects that `delete --all` selects are exactly the non-empty
/// ones of the listing that expired.
pub proof fn law_remote_selection_is_exact(
    files: Seq<CosItem>,
    selected: Seq<CosItem>,
    today: int,
    retention_days: Option<u32>,
)
    requires
        selected == files.filter(|item: CosItem| is_expired_remote(item, today, retention_days)),
    ensures
        forall|item: CosItem|
            selected.contains(item) <==> files.contains(item) && item.size > 0 && spec_is_expired(
                item.last_modified.spec_day(),
                today,
                retention_days,
            ),
{
    let p = |item: CosItem| is_expired_remote(item, today, retention_days);
    assert forall|item: CosItem|
        selected.contains(item) <==> files.contains(item) && item.size > 0 && spec_is_expired(
            item.last_modified.spec_day(),
            today,
            retention_days,
        ) by {
        if selected.contains(item) {
            files.lemma_filter_contains_rev(p, item);
        }
        if files.contains(item) && p(item) {
            let i = choose|i: int| 0 <= i < files.len() && files[i] == item;
            files.lemma_filter_contains(p, i);
        }
    }
}

/// The local archives that cleanup removes are exactly those whose names
/// carry a date seen in the first listing that expired; undated names and
/// recent archives are never removed.
pub proof fn law_local_selection_is_exact(
    known: Seq<Option<String>>,
    candidates: Seq<Option<String>>,
    selected: Seq<usize>,
    today: int,
    retention_days: Option<u32>,
)
    requires
        selected == positions(candidates.len()).filter(
            |i: usize| is_removable_backup(known, candidates[i as int], today, retention_days),
        ),
    ensures
        forall|i: usize|
            selected.contains(i) <==> (i < candidates.len() && is_removable_backup(
                known,
                candidates[i as int],
                today,
                retention_days,
            )),
        forall|i: usize|
            selected.contains(i) ==> (candidates[i as int] matches Some(n)
                && spec_parse_backup_date(n@) matches Some(d) && spec_is_expired(
                d as int,
                today,
                retention_days,
            )),
{
    let p = |i: usize| is_removable_backup(known, candidates[i as int], today, retention_days);
    let all = positions(candidates.len());
    assert forall|i: usize|
        selected.contains(i) <==> (i < candidates.len() && is_removable_backup(
            known,
            candidates[i as int],
            today,
            retention_days,
        )) by {
        if selected.contains(i) {
            all.lemma_filter_contains_rev(p, i);
            let k = choose|k: int| 0 <= k < all.len() && all[k] == i;
            assert(all[k] == k as usize);
        }
        if i < candidates.len() && p(i) {
            assert(all[i as int] == i);
            all.lemma_filter_contains(p, i as int);
        }
    }
}

/// Local cleanup and remote deletion apply the same rule: a dated local
/// archive and a non-empty remote object from the same day either both
/// expire or are both kept.
pub proof fn law_local_and_remote_retention_agree(
    known: Seq<Option<String>>,
    name: String,
    item: CosItem,
    today: int,
    retention_days: Option<u32>,
)
    requires
        spec_parse_backup_date(name@) matches Some(d) && d == item.last_modified.spec_day(),
        date_is_listed(known, item.last_modified.spec_day() as i32),
        item.size > 0,
    ensures
        is_removable_backup(known, Some(name), today, retention_days) <==> is_expired_remote(
            item,
            today,
            retention_days,
        ),
{
}

/// A backup file named `{database}_{date}_{time}.7z`, where the date and the
/// time contain no `_`, yields its date field, whatever the database name
/// holds: the name the tool gives a backup and the date it reads back from
/// it agree.
pub proof fn law_backup_name_yields_its_date(database: Seq<char>, date: Seq<char>, time: Seq<char>)
    requires
        forall|i: int| 0 <= i < date.len() ==> date[i] != '_',
        forall|i: int| 0 <= i < time.len() ==> time[i] != '_',
    ensures
        backup_date_field(database + seq!['_'] + date + seq!['_'] + time + seq!['.', '7', 'z'])
            == Some(date),
        spec_parse_backup_date(database + seq!['_'] + date + seq!['_'] + time + seq!['.', '7', 'z'])
            == spec_parse_compact_date(date),
{
    let stem = database + seq!['_'] + date + seq!['_'] + time;
    let name = stem + seq!['.', '7', 'z'];
    assert(name.subrange(name.len() - 3, name.len() as int) =~= seq!['.', '7', 'z']);
    assert(name.subrange(0, name.len() - 3) =~= stem);
    let i: int = (database.len() + 1 + date.len()) as int;
    assert(stem[i] == '_');
    assert forall|j: int| i < j < stem.len() implies stem[j] != '_' by {
        assert(stem[j] == time[j - i - 1]);
    }
    assert(is_last_index(stem, '_', i));
    lemma_last_index_unique(stem, '_', i);
    let rest = stem.subrange(0, i);
    assert(rest =~= database + seq!['_'] + date);
    let k = database.len() as int;
    assert(rest[k] == '_');
    assert forall|j: int| k < j < rest.len() implies rest[j] != '_' by {
        assert(rest[j] == date[j - k - 1]);
    }
    assert(is_last_index(rest, '_', k));
    lemma_last_index_unique(rest, '_', k);
    assert(rest.subrange(k + 1, rest.len() as int) =~= date);
}

/// A backup file named `{database}_{stamp}.7z`, where the stamp writes a
/// day as `YYYYMMDD_HHMMSS`, yields that day, whatever the database name
/// holds.
pub proof fn law_stamped_backup_name_yields_its_day(database: Seq<char>, stamp: Seq<char>, day: int)
    requires
        stamp_writes_day(stamp, day),
    ensures
        spec_parse_backup_date(archive_name(database, stamp)) == Some(day as i32),
{
    let date = stamp.subrange(0, 8);
    let time = stamp.subrange(9, 15);
    assert forall|i: int| 0 <= i < date.len() implies date[i] != '_' by {
        assert(is_digit(stamp[i]));
    }
    assert forall|i: int| 0 <= i < time.len() implies time[i] != '_' by {
        assert(is_digit(stamp[i + 9]));
    }
    assert(stamp =~= date + seq!['_'] + time);
    assert(archive_name(database, stamp) =~= database + seq!['_'] + date
        + seq!['_'] + time + seq!['.', '7', 'z']);
    law_backup_name_yields_its_date(database, date, time);
}

/// The file name of a dump of `database` stamped `stamp`:
/// `{database}_{stamp}.sql`.
pub open spec fn dump_name(database: Seq<char>, stamp: Seq<char>) -> Seq<char> {
    database + seq!['_'] + stamp + seq!['.', 's', 'q', 'l']
}

/// A path that ends with the component `part` after an empty prefix or one
/// ending in `/` has `part` as its file name and its final component.
proof fn lemma_last_component(pre: Seq<char>, part: Seq<char>)
    requires
        pre.len() == 0 || pre.last() == '/',
        part.len() > 2,
        has_no_separator(part),
    ensures
        final_segment(pre + part) == part,
        file_name_of(pre + part) == Some(part),
        final_component_end(pre + part) == (pre + part).len(),
{
    let q = pre + part;
    assert forall|k: int| pre.len() <= k < q.len() implies q[k] != '/' by {
        assert(q[k] == part[k - pre.len()]);
    }
    if pre.len() > 0 {
        assert(q[pre.len() - 1] == pre.last());
    }
    lemma_final_segment_from(q, pre.len() as int);
    assert(q.subrange(pre.len() as int, q.len() as int) =~= part);
    assert(q.last() == part.last());
}

/// The archive of a dump `{dir}/{database}_{stamp}.sql`, made by replacing
/// its extension with `7z`, is `{dir}/{database}_{stamp}.7z`; its file name
/// is the archive name, and cleanup reads it back as the day the stamp
/// writes. The database name must be a single path component.
pub proof fn law_dump_archive_reads_back_as_its_day(
    dir: Seq<char>,
    database: Seq<char>,
    stamp: Seq<char>,
    day: int,
)
    requires
        has_no_separator(database),
        stamp_writes_day(stamp, day),
    ensures
        with_7z_extension(spec_path_join(dir, dump_name(database, stamp))) == spec_path_join(
            dir,
            archive_name(database, stamp),
        ),
        file_name_of(spec_path_join(dir, archive_name(database, stamp))) == Some(
            archive_name(database, stamp),
        ),
        archive_day(with_7z_extension(spec_path_join(dir, dump_name(database, stamp)))) == Some(
            day as i32,
        ),
{
    let part = dump_name(database, stamp);
    let arch = archive_name(database, stamp);
    let stem = database + seq!['_'] + stamp;
    assert(part =~= stem + seq!['.', 's', 'q', 'l']);
    assert(arch =~= stem + seq!['.', '7', 'z']);
    assert(has_no_separator(stem)) by {
        assert forall|i: int| 0 <= i < stem.len() implies stem[i] != '/' by {
            if i < database.len() {
                assert(stem[i] == database[i]);
            } else if i > database.len() {
                assert(stem[i] == stamp[i - database.len() - 1]);
                assert(is_digit(stamp[i - database.len() - 1]) || i - database.len() - 1 == 8);
            }
        }
    }
    assert(has_no_separator(part)) by {
        assert forall|i: int| 0 <= i < part.len() implies part[i] != '/' by {
            if i < stem.len() {
                assert(part[i] == stem[i]);
            }
        }
    }
    assert(has_no_separator(arch)) by {
        assert forall|i: int| 0 <= i < arch.len() implies arch[i] != '/' by {
            if i < stem.len() {
                assert(arch[i] == stem[i]);
            }
        }
    }
    let pre = if dir.len() == 0 || dir.last() == '/' {
        dir
    } else {
        dir + seq!['/']
    };
    assert(part[0] != '/' && arch[0] != '/');
    assert(spec_path_join(dir, part) =~= pre + part);
    assert(spec_path_join(dir, arch) =~= pre + arch);
    if pre.len() > 0 {
        assert(pre.last() == '/');
    }
    lemma_last_component(pre, part);
    lemma_last_component(pre, arch);
    let dot = part.len() - 4;
    assert(is_last_index(part, '.', dot));
    lemma_last_index_unique(part, '.', dot);
    assert(file_stem_len(part) == dot);
    let q = pre + part;
    assert(q.subrange(0, pre.len() + dot) =~= pre + stem);
    assert(with_7z_extension(q) =~= pre + arch);
    law_stamped_backup_name_yields_its_day(database, stamp, day);
}

/// An object key ends with the file name, starts with the prefix, and the
/// two are separated by exactly one `/` supplied by either the prefix or
/// the key.
pub proof fn law_object_key_joins_prefix_and_name(cos_path: Seq<char>, file_name: Seq<char>)
    ensures
        object_key_of(cos_path, file_name).len() >= cos_path.len() + file_name.len(),
        object_key_of(cos_path, file_name).subrange(0, cos_path.len() as int) == cos_path,
        object_key_of(cos_path, file_name).subrange(
            object_key_of(cos_path, file_name).len() - file_name.len(),
            object_key_of(cos_path, file_name).len() as int,
        ) == file_name,
        object_key_of(cos_path, file_name)[object_key_of(cos_path, file_name).len()
            - file_name.len() - 1] == '/',
{
    let key = object_key_of(cos_path, file_name);
    if cos_path.len() > 0 && cos_path.last() == '/' {
        assert(key.subrange(0, cos_path.len() as int) =~= cos_path);
        assert(key.subrange(key.len() - file_name.len(), key.len() as int) =~= file_name);
    } else {
        assert(key.subrange(0, cos_path.len() as int) =~= cos_path);
        assert(key.subrange(key.len() - file_name.len(), key.len() as int) =~= file_name);
    }
}

/// The backup removes the dump only right after the archive was found to
/// be non-empty, and the file it removes is the dump.
pub proof fn law_backup_removes_dump_only_after_archive_checked(
    j: BackupJob,
    e: Event,
    n: BackupJob,
    a: Action,
)
    requires
        backup_step(j, e, n, a),
        (a is RemoveFile),
    ensures
        (j.state matches BackupState::Measuring { dump, .. } && a == (Action::RemoveFile {
            path: dump,
        })),
        (e matches Event::Measured(Ok(len)) && len > 0),
{
}

/// The backup notifies only once the dump was removed, and says which
/// database was backed up.
pub proof fn law_backup_notifies_only_at_the_end(j: BackupJob, e: Event, n: BackupJob, a: Action)
    requires
        backup_step(j, e, n, a),
        (a is Notify),
    ensures
        (j.state is RemovingDump),
        j.has_webhook,
        is_progress_notice(a, backup_success_message(j.database_name@)),
{
}

/// A failed dump, compression or notification ends the backup with that
/// error.
pub proof fn law_backup_failures_end_it(j: BackupJob, e: Event, n: BackupJob, a: Action)
    requires
        backup_step(j, e, n, a),
    ensures
        (e matches Event::Dumped(Err(err)) ==> a == (Action::Finish { result: Err(err) })),
        (e matches Event::Compressed(Err(err)) ==> a == (Action::Finish { result: Err(err) })),
        (e matches Event::Notified(Err(msg)) ==> a == (Action::Finish {
            result: Err(crate::error::Error::Notification(msg)),
        })),
{
}

/// Every step of every command finishes exactly when the command is done.
pub proof fn law_commands_finish_exactly_when_done(
    bj: BackupJob,
    be: Event,
    bn: BackupJob,
    ba: Action,
    uj: UploadJob,
    ue: Event,
    un: UploadJob,
    ua: Action,
    dj: DeleteJob,
    de: Event,
    dn: DeleteJob,
    da: Action,
)
    requires
        backup_step(bj, be, bn, ba),
        upload_step(uj, ue, un, ua),
        delete_step(dj, de, dn, da),
    ensures
        (bn.state is Done <==> ba is Finish),
        (un.state is Done <==> ua is Finish),
        (dn.state is Done <==> da is Finish),
{
    assert(un.state is Done <==> ua is Finish);
    match (dj.state, de) {
        (DeleteState::Listing, Event::Listed(Ok(files))) => {
            let expired = choose|expired: Vec<CosItem>|
                expired@ == files@.filter(
                    |item: CosItem| is_expired_remote(item, dj.today as int, dj.retention_days),
                ) && delete_from(expired, 0, dn.state, da);
        },
        _ => {},
    }
}

/// When backups are only kept locally, an upload never lists the remote
/// storage: there is no remote copy to compare.
pub proof fn law_local_upload_never_lists(j: UploadJob, e: Event, n: UploadJob, a: Action)
    requires
        upload_step(j, e, n, a),
        upload_wf(j),
        !j.verify_remote,
    ensures
        !(a is List),
{
}

/// When the storage can be listed, an upload reports success (or
/// notifies) only right after a listing showed the uploaded object with the
/// local size, after the notification went out, or when there was no
/// archive to upload.
pub proof fn law_remote_upload_succeeds_only_after_size_check(
    j: UploadJob,
    e: Event,
    n: UploadJob,
    a: Action,
)
    requires
        upload_step(j, e, n, a),
        upload_wf(j),
        j.verify_remote,
        (a == (Action::Finish { result: Ok(()) }) || a is Notify),
    ensures
        (e is Notified || (e matches Event::AllUploaded(Some(paths)) && paths@.len() == 0)
            || (e matches Event::Listed(Ok(files)) && j.state matches UploadState::ListingFile {
            key,
            local_size,
        } && remote_size_matches(files@, key@, local_size)) || (e matches Event::Listed(Ok(files))
            && j.state matches UploadState::ListingAll { key, local_size, .. }
            && remote_size_matches(files@, key@, local_size))),
{
}

/// An upload notifies only after every uploaded file was (when asked)
/// verified, and only when a webhook is configured.
pub proof fn law_upload_notifies_only_on_success(j: UploadJob, e: Event, n: UploadJob, a: Action)
    requires
        upload_step(j, e, n, a),
        (a is Notify),
    ensures
        j.has_webhook,
        (n.state is Notifying),
        (!(e is Measured) || j.state is MeasuringAll),
{
}

/// In `delete --all`, every object deleted is a non-empty backup that
/// expired under the retention.
pub proof fn law_delete_all_removes_only_expired(j: DeleteJob, e: Event, n: DeleteJob, a: Action)
    requires
        delete_step(j, e, n, a),
        delete_wf(j),
        (j.key is None),
        (a is Delete),
    ensures
        (exists|item: CosItem|
            is_expired_remote(item, j.today as int, j.retention_days) && a == (Action::Delete {
                key: item.key,
            })),
{
    match n.state {
        DeleteState::DeletingExpired { expired, index } => {
            assert(is_expired_remote(expired@[index as int], j.today as int, j.retention_days));
        },
        _ => {
            match (j.state, e) {
                (DeleteState::Listing, Event::Listed(Ok(files))) => {
                    let expired = choose|expired: Vec<CosItem>|
                        expired@ == files@.filter(
                            |item: CosItem|
                                is_expired_remote(item, j.today as int, j.retention_days),
                        ) && delete_from(expired, 0, n.state, a);
                },
                _ => {},
            }
        },
    }
}


/// Local cleanup removes every archive whose name carries a date that some
/// name of the first listing also carries, at whatever position in that
/// listing, once the date has expired under the retention.
pub proof fn law_local_cleanup_removes_every_expired_listed_date(
    known: Seq<Option<String>>,
    candidates: Seq<Option<String>>,
    today: int,
    retention_days: Option<u32>,
    i: int,
    k: int,
    d: i32,
)
    requires
        0 <= i < candidates.len() <= usize::MAX,
        0 <= k < known.len(),
        (candidates[i] matches Some(n) && spec_parse_backup_date(n@) == Some(d)),
        (known[k] matches Some(m) && spec_parse_backup_date(m@) == Some(d)),
        spec_is_expired(d as int, today, retention_days),
    ensures
        positions(candidates.len()).filter(
            |p: usize| is_removable_backup(known, candidates[p as int], today, retention_days),
        ).contains(i as usize),
{
    assert(name_has_date(known[k], d));
    assert(date_is_listed(known, d));
    let ps = positions(candidates.len());
    let pred = |p: usize| is_removable_backup(known, candidates[p as int], today, retention_days);
    assert(ps[i] == i as usize);
    assert(pred(ps[i]));
    ps.lemma_filter_contains(pred, i);
}

/// When both listings of the backup directory agree, cleanup removes
/// exactly the archives whose name carries a date that expired under the
/// retention.
pub proof fn law_local_cleanup_of_one_listing(
    names: Seq<Option<String>>,
    today: int,
    retention_days: Option<u32>,
    i: int,
)
    requires
        0 <= i < names.len() <= usize::MAX,
    ensures
        positions(names.len()).filter(
            |p: usize| is_removable_backup(names, names[p as int], today, retention_days),
        ).contains(i as usize) <==> (names[i] matches Some(n) && spec_parse_backup_date(n@) matches Some(d)
            && spec_is_expired(d as int, today, retention_days)),
{
    let ps = positions(names.len());
    let pred = |p: usize| is_removable_backup(names, names[p as int], today, retention_days);
    assert(ps[i] == i as usize);
    if names[i] matches Some(n) && spec_parse_backup_date(n@) matches Some(d) && spec_is_expired(
        d as int,
        today,
        retention_days,
    ) {
        let d = spec_parse_backup_date(names[i]->0@)->0;
        law_local_cleanup_removes_every_expired_listed_date(
            names,
            names,
            today,
            retention_days,
            i,
            i,
            d,
        );
    }
    if ps.filter(pred).contains(i as usize) {
        let f = ps.filter(pred);
        let j = choose|j: int| 0 <= j < f.len() && f[j] == i as usize;
        ps.lemma_filter_pred(pred, j);
        assert(pred(i as usize));
    }
}

/// Once the archive is checked and found not empty, a backup removes its
/// dump, whether or not a webhook is configured; and a backup finishes
/// successfully only after the dump was removed (and, with a webhook, after
/// the notification went out).
pub proof fn law_backup_always_removes_the_dump(j: BackupJob, e: Event, n: BackupJob, a: Action)
    requires
        backup_step(j, e, n, a),
    ensures
        match (j.state, e) {
            (BackupState::Measuring { dump, .. }, Event::Measured(Ok(len))) => len > 0 ==> a
                == (Action::RemoveFile { path: dump }),
            _ => true,
        },
        a == (Action::Finish { result: Ok(()) }) ==> ((j.state is RemovingDump && e is Removed
            && !j.has_webhook) || (j.state is Notifying && e is Notified)),
{
}

/// The first listing entry with a key is the one found by any search for
/// the first entry with it.
proof fn lemma_first_with_key_unique(files: Seq<CosItem>, key: Seq<char>, i: int, k: int)
    requires
        crate::storage::is_first_with_key(files, key, i),
        crate::storage::is_first_with_key(files, key, k),
    ensures
        i == k,
{
    if i < k {
        assert(files[i].key@ == key);
    } else if k < i {
        assert(files[k].key@ == key);
    }
}

/// The remote size matches exactly when the first listing entry with the
/// object's key has the local size: a larger or smaller object does not.
pub proof fn law_remote_size_matches_is_exact(files: Seq<CosItem>, key: Seq<char>, size: u64, i: int)
    requires
        crate::storage::is_first_with_key(files, key, i),
    ensures
        remote_size_matches(files, key, size) <==> files[i].size == size,
{
    if remote_size_matches(files, key, size) {
        let k = choose|k: int|
            #[trigger] crate::storage::is_first_with_key(files, key, k) && files[k].size == size;
        lemma_first_with_key_unique(files, key, i, k);
    }
}

/// After an upload, comparing with the listing fails the command exactly
/// when the first entry with the object's key has another size than the
/// local file, and then the error names both sizes.
pub proof fn law_upload_size_check_is_exact(j: UploadJob, e: Event, n: UploadJob, a: Action, i: int)
    requires
        upload_step(j, e, n, a),
    ensures
        match (j.state, e) {
            (UploadState::ListingFile { key, local_size }, Event::Listed(Ok(files))) => (
            crate::storage::is_first_with_key(files@, key@, i) ==> ((files@[i].size == local_size
                <==> !(a matches Action::Finish { result: Err(_) })) && (files@[i].size
                != local_size ==> (a matches Action::Finish {
                result: Err(crate::error::Error::Integrity(m)),
            } && m@ == crate::storage::size_mismatch_message(
                key@,
                local_size as nat,
                files@[i].size as nat,
            ))))),
            (UploadState::ListingAll { key, local_size, .. }, Event::Listed(Ok(files))) => (
            crate::storage::is_first_with_key(files@, key@, i) ==> ((files@[i].size == local_size
                <==> !(a matches Action::Finish { result: Err(_) })) && (files@[i].size
                != local_size ==> (a matches Action::Finish {
                result: Err(crate::error::Error::Integrity(m)),
            } && m@ == crate::storage::size_mismatch_message(
                key@,
                local_size as nat,
                files@[i].size as nat,
            ))))),
            _ => true,
        },
{
    match (j.state, e) {
        (UploadState::ListingFile { key, local_size }, Event::Listed(Ok(files))) => {
            if crate::storage::is_first_with_key(files@, key@, i) {
                law_remote_size_matches_is_exact(files@, key@, local_size, i);
                if files@[i].size != local_size {
                    assert(!(forall|k: int| 0 <= k < files@.len() ==> files@[k].key@ != key@));
                    let err = a->Finish_result->Err_0;
                    assert(remote_size_failure(files@, key@, local_size, err));
                    let k = choose|k: int| #[trigger]
                        crate::storage::is_first_with_key(files@, key@, k) && (err matches crate::error::Error::Integrity(m)
                            && m@ == crate::storage::size_mismatch_message(key@, local_size as nat, files@[k].size as nat));
                    lemma_first_with_key_unique(files@, key@, i, k);
                }
            }
        },
        (UploadState::ListingAll { key, local_size, .. }, Event::Listed(Ok(files))) => {
            if crate::storage::is_first_with_key(files@, key@, i) {
                law_remote_size_matches_is_exact(files@, key@, local_size, i);
                if files@[i].size != local_size {
                    assert(!(forall|k: int| 0 <= k < files@.len() ==> files@[k].key@ != key@));
                    let err = a->Finish_result->Err_0;
                    assert(remote_size_failure(files@, key@, local_size, err));
                    let k = choose|k: int| #[trigger]
                        crate::storage::is_first_with_key(files@, key@, k) && (err matches crate::error::Error::Integrity(m)
                            && m@ == crate::storage::size_mismatch_message(key@, local_size as nat, files@[k].size as nat));
                    lemma_first_with_key_unique(files@, key@, i, k);
                }
            }
        },
        _ => {},
    }
}

/// Without remote verification (local storage), a file whose upload
/// succeeded completes the command: it notifies when a webhook is
/// configured and otherwise finishes successfully.
pub proof fn law_local_upload_of_a_file_succeeds(j: UploadJob, e: Event, n: UploadJob, a: Action)
    requires
        upload_step(j, e, n, a),
        !j.verify_remote,
        j.state is UploadingFile,
        e == Event::FileUploaded(true),
    ensures
        j.has_webhook ==> (n.state is Notifying && is_progress_notice(
            a,
            file_uploaded_message(j.file->0@),
        )),
        !j.has_webhook ==> (n.state is Done && a == (Action::Finish { result: Ok(()) })),
{
}

/// A failed deletion ends the delete command with an error, whichever object
/// it was: in `delete --all` the error names the object that could not be
/// deleted and says `delete failed`. So a delete that finishes successfully
/// saw every deletion succeed.
pub proof fn law_delete_failure_ends_it(j: DeleteJob, e: Event, n: DeleteJob, a: Action)
    requires
        delete_step(j, e, n, a),
    ensures
        (e matches Event::Deleted(Err(_))) ==> (n.state is Done && a matches Action::Finish {
            result: Err(crate::error::Error::StorageDelete { .. }),
        }),
        match (j.state, e) {
            (DeleteState::DeletingExpired { expired, index }, Event::Deleted(Err(_))) => a
                matches Action::Finish {
                result: Err(crate::error::Error::StorageDelete { key, message }),
            } && key == expired@[index as int].key && message@ == "delete failed"@,
            _ => true,
        },
{
}

/// `delete --all` deletes the expired objects one after the other, in the
/// order of the listing, starting with the first and going on after each
/// successful deletion until none is left; then it finishes successfully.
pub proof fn law_delete_all_deletes_each_expired_in_turn(j: DeleteJob, e: Event, n: DeleteJob, a: Action)
    requires
        delete_step(j, e, n, a),
    ensures
        match (j.state, e) {
            (DeleteState::Listing, Event::Listed(Ok(files))) => {
                let expired = files@.filter(
                    |item: CosItem| is_expired_remote(item, j.today as int, j.retention_days),
                );
                if expired.len() > 0 {
                    a == (Action::Delete { key: expired[0].key })
                } else {
                    n.state is Done && a == (Action::Finish { result: Ok(()) })
                }
            },
            (DeleteState::DeletingExpired { expired, index }, Event::Deleted(Ok(()))) => if index
                + 1 < expired@.len() {
                a == (Action::Delete { key: expired@[index + 1].key })
            } else {
                n.state is Done && a == (Action::Finish { result: Ok(()) })
            },
            _ => true,
        },
{
    match (j.state, e) {
        (DeleteState::Listing, Event::Listed(Ok(files))) => {
            let ex = choose|expired: Vec<CosItem>|
                expired@ == files@.filter(
                    |item: CosItem| is_expired_remote(item, j.today as int, j.retention_days),
                ) && delete_from(expired, 0, n.state, a);
        },
        _ => {},
    }
}

/// Listing entries compare equal exactly when they are ordered as equal:
/// both go by the instant of the last modification.
pub proof fn law_listing_order_agrees_with_equality(a: CosItem, b: CosItem)
    ensures
        (a.last_modified == b.last_modified) <==> chronological_order(a.last_modified, b.last_modified)
            == Ordering::Equal,
        chronological_order(a.last_modified, b.last_modified) == Ordering::Less <==> chronological_order(
            b.last_modified,
            a.last_modified,
        ) == Ordering::Greater,
{
    lemma_time_eq(a.last_modified, b.last_modified);
}


/// How far a backup is from being done.
pub open spec fn backup_rank(s: BackupState) -> int {
    match s {
        BackupState::Start => 6,
        BackupState::Dumping => 5,
        BackupState::Compressing { .. } => 4,
        BackupState::Measuring { .. } => 3,
        BackupState::RemovingDump => 2,
        BackupState::Notifying => 1,
        BackupState::Done => 0,
    }
}

/// How far an upload is from being done: a phase, then the work left in it.
pub open spec fn upload_rank(s: UploadState) -> (int, int) {
    match s {
        UploadState::Start => (5, 0),
        UploadState::CheckingFile => (4, 3),
        UploadState::MeasuringFile => (4, 2),
        UploadState::UploadingFile { .. } => (4, 1),
        UploadState::ListingFile { .. } => (4, 0),
        UploadState::UploadingAll => (3, 0),
        UploadState::MeasuringAll { paths, index } => (2, 2 * (paths@.len() - index)),
        UploadState::ListingAll { paths, index, .. } => (2, 2 * (paths@.len() - index) - 1),
        UploadState::Notifying => (1, 0),
        UploadState::Done => (0, 0),
    }
}

/// How far a delete is from being done: a phase, then the work left in it.
pub open spec fn delete_rank(s: DeleteState) -> (int, int) {
    match s {
        DeleteState::Start => (3, 0),
        DeleteState::DeletingKey => (2, 0),
        DeleteState::Listing => (2, 0),
        DeleteState::DeletingExpired { expired, index } => (1, expired@.len() - index),
        DeleteState::Done => (0, 0),
    }
}

/// `b` comes strictly before `a` in the order of ranks, and stays within it.
pub open spec fn rank_below(b: (int, int), a: (int, int)) -> bool {
    &&& 0 <= b.1
    &&& b.0 < a.0 || (b.0 == a.0 && b.1 < a.1)
}

/// Every command is done after finitely many steps: each step of a backup,
/// an upload or a delete lowers its rank, which cannot fall forever.
pub proof fn law_commands_terminate(
    bj: BackupJob,
    be: Event,
    bn: BackupJob,
    ba: Action,
    uj: UploadJob,
    ue: Event,
    un: UploadJob,
    ua: Action,
    dj: DeleteJob,
    de: Event,
    dn: DeleteJob,
    da: Action,
)
    requires
        backup_step(bj, be, bn, ba),
        upload_step(uj, ue, un, ua),
        upload_wf(uj),
        delete_step(dj, de, dn, da),
        delete_wf(dj),
    ensures
        0 <= backup_rank(bn.state) < backup_rank(bj.state),
        rank_below(upload_rank(un.state), upload_rank(uj.state)),
        rank_below(delete_rank(dn.state), delete_rank(dj.state)),
{
    match (dj.state, de) {
        (DeleteState::Listing, Event::Listed(Ok(files))) => {
            let expired = choose|expired: Vec<CosItem>|
                expired@ == files@.filter(
                    |item: CosItem| is_expired_remote(item, dj.today as int, dj.retention_days),
                ) && delete_from(expired, 0, dn.state, da);
        },
        _ => {},
    }
}

} // verus!
