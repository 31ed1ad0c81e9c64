//! Remote objects: their listing entries, the keys under which backups are
//! stored, expiry of remote backups and the check of an upload's size.
use crate::date::{cutoff_in_range, is_valid_day, spec_is_expired, UtcTime};
use crate::error::Error;
use crate::text::{concat2, concat3, ends_with_char};
use core::cmp::Ordering;
use vstd::prelude::*;
use vstd::std_specs::cmp::{PartialEqSpecImpl, PartialOrdSpecImpl};

verus! {

/// One object of the remote storage listing.
#[derive(Debug)]
pub struct CosItem {
    /// The object's full key, such as `db/mydb_20260608_020000.7z`.
    pub key: String,
    /// When the object was last modified.
    pub last_modified: UtcTime,
    /// The object's size in bytes.
    pub size: u64,
}

impl Clone for CosItem {
    fn clone(&self) -> (r: Self)
        ensures
            r == *self,
    {
        CosItem { key: self.key.clone(), last_modified: self.last_modified, size: self.size }
    }
}

/// Listing entries are equal when they were last modified at the same
/// instant.
impl PartialEq for CosItem {
    fn eq(&self, other: &Self) -> (r: bool) {
        self.last_modified == other.last_modified
    }
}

impl PartialEqSpecImpl for CosItem {
    open spec fn obeys_eq_spec() -> bool {
        true
    }

    open spec fn eq_spec(&self, other: &CosItem) -> bool {
        self.last_modified == other.last_modified
    }
}

impl Eq for CosItem {

}

/// The order of two instants: by seconds, then by nanoseconds.
pub open spec fn chronological_order(a: UtcTime, b: UtcTime) -> Ordering {
    if a.spec_secs() < b.spec_secs() {
        Ordering::Less
    } else if a.spec_secs() > b.spec_secs() {
        Ordering::Greater
    } else if a.spec_nanos() < b.spec_nanos() {
        Ordering::Less
    } else if a.spec_nanos() > b.spec_nanos() {
        Ordering::Greater
    } else {
        Ordering::Equal
    }
}

/// Which of two instants comes first.
pub fn compare_times(a: &UtcTime, b: &UtcTime) -> (r: Ordering)
    ensures
        r == chronological_order(*a, *b),
{
    let (sa, sb) = (a.timestamp(), b.timestamp());
    if sa < sb {
        Ordering::Less
    } else if sa > sb {
        Ordering::Greater
    } else {
        let (na, nb) = (a.timestamp_subsec_nanos(), b.timestamp_subsec_nanos());
        if na < nb {
            Ordering::Less
        } else if na > nb {
            Ordering::Greater
        } else {
            Ordering::Equal
        }
    }
}

/// Listing entries are ordered by when they were last modified.
impl PartialOrd for CosItem {
    fn partial_cmp(&self, other: &Self) -> (r: Option<Ordering>) {
        Some(compare_times(&self.last_modified, &other.last_modified))
    }
}

impl PartialOrdSpecImpl for CosItem {
    open spec fn obeys_partial_cmp_spec() -> bool {
        true
    }

    open spec fn partial_cmp_spec(&self, other: &CosItem) -> Option<Ordering> {
        Some(chronological_order(self.last_modified, other.last_modified))
    }
}

/// The characters of `s` after its last `/` (all of `s` when it holds none).
pub open spec fn final_segment(s: Seq<char>) -> Seq<char>
    decreases s.len(),
{
    if s.len() == 0 || s.last() == '/' {
        Seq::empty()
    } else {
        final_segment(s.drop_last()).push(s.last())
    }
}

/// `s` holds no `/`, so that it names a single path component.
pub open spec fn has_no_separator(s: Seq<char>) -> bool {
    forall|i: int| 0 <= i < s.len() ==> s[i] != '/'
}

/// `Path::new(p).file_name()` on Unix: the last component of `p` once
/// trailing `/` and `.` components are set aside, or `None` when that
/// component is `..` or there is none (`p` is empty, a root, or `.`).
pub open spec fn file_name_of(p: Seq<char>) -> Option<Seq<char>>
    decreases p.len(),
{
    if p.len() == 0 {
        None
    } else if p.last() == '/' || final_segment(p) == seq!['.'] {
        file_name_of(p.drop_last())
    } else if final_segment(p) == seq!['.', '.'] {
        None
    } else {
        Some(final_segment(p))
    }
}

/// The final segment of `s` is what follows position `start` when no `/`
/// stands after it and `start` begins the string or follows a `/`.
pub proof fn lemma_final_segment_from(s: Seq<char>, start: int)
    requires
        0 <= start <= s.len(),
        start == 0 || s[start - 1] == '/',
        forall|k: int| start <= k < s.len() ==> s[k] != '/',
    ensures
        final_segment(s) == s.subrange(start, s.len() as int),
    decreases s.len(),
{
    if s.len() == start {
        if s.len() > 0 {
            assert(s.last() == '/');
        }
        assert(s.subrange(start, s.len() as int) =~= Seq::<char>::empty());
    } else {
        lemma_final_segment_from(s.drop_last(), start);
        assert(s.subrange(start, s.len() as int) =~= s.drop_last().subrange(
            start,
            s.len() - 1,
        ).push(s.last()));
    }
}

/// Where the last component of `p` ends once trailing `/` and `.`
/// components are set aside: `p` cut there still has the same file name.
pub open spec fn final_component_end(p: Seq<char>) -> int
    decreases p.len(),
{
    if p.len() == 0 {
        0
    } else if p.last() == '/' || final_segment(p) == seq!['.'] {
        final_component_end(p.drop_last())
    } else {
        p.len() as int
    }
}

/// The file name of `p` as the positions `(start, end)` of the component
/// that holds it, or `None` when `p` has no file name.
pub(crate) fn final_component(p: &str) -> (r: Option<(usize, usize)>)
    ensures
        match r {
            Some((start, end)) => {
                &&& start < end <= p@.len()
                &&& end == final_component_end(p@)
                &&& file_name_of(p@) == Some(p@.subrange(start as int, end as int))
            },
            None => file_name_of(p@) is None,
        },
{
    let n = p.unicode_len();
    let mut end: usize = n;
    assert(p@.subrange(0, n as int) =~= p@);
    loop
        invariant
            end <= n,
            n == p@.len(),
            file_name_of(p@) == file_name_of(p@.subrange(0, end as int)),
            final_component_end(p@) == final_component_end(p@.subrange(0, end as int)),
        decreases end,
    {
        if end == 0 {
            return None;
        }
        let ghost t = p@.subrange(0, end as int);
        let mut start: usize = end;
        while start > 0 && p.get_char(start - 1) != '/'
            invariant
                start <= end <= n,
                n == p@.len(),
                forall|k: int| start <= k < end ==> p@[k] != '/',
            decreases start,
        {
            start = start - 1;
        }
        proof {
            lemma_final_segment_from(t, start as int);
            assert(t.subrange(start as int, end as int) =~= p@.subrange(start as int, end as int));
            assert(t.drop_last() =~= p@.subrange(0, end - 1));
        }
        if start == end {
            end = end - 1;
        } else if end - start == 1 && p.get_char(start) == '.' {
            proof {
                assert(p@.subrange(start as int, end as int) =~= seq!['.']);
            }
            end = end - 1;
        } else if end - start == 2 && p.get_char(start) == '.' && p.get_char(start + 1) == '.' {
            proof {
                assert(p@.subrange(start as int, end as int) =~= seq!['.', '.']);
            }
            return None;
        } else {
            proof {
                let seg = p@.subrange(start as int, end as int);
                if seg.len() == 1 {
                    assert(seg != seq!['.']) by {
                        assert(seg[0] == p@[start as int]);
                    }
                }
                if seg.len() == 2 {
                    assert(seg != seq!['.', '.']) by {
                        assert(seg[0] == p@[start as int]);
                        assert(seg[1] == p@[start + 1]);
                    }
                }
            }
            return Some((start, end));
        }
    }
}

/// The file name of the path `p`, as `Path::file_name` finds it on Unix.
pub fn file_name(p: &str) -> (r: Option<String>)
    ensures
        match r {
            Some(name) => file_name_of(p@) == Some(name@),
            None => file_name_of(p@) is None,
        },
{
    match final_component(p) {
        Some((start, end)) => Some(String::from_str(p.substring_char(start, end))),
        None => None,
    }
}

/// The object key of `file_name` under the prefix `cos_path`: one `/`
/// separates them unless the prefix already ends with one.
pub open spec fn object_key_of(cos_path: Seq<char>, file_name: Seq<char>) -> Seq<char> {
    if cos_path.len() > 0 && cos_path.last() == '/' {
        cos_path + file_name
    } else {
        cos_path + seq!['/'] + file_name
    }
}

/// The message of the error reported for a path without a file name.
pub open spec fn invalid_path_message(file_path: Seq<char>) -> Seq<char> {
    "Invalid file path: "@ + file_path
}

/// The file name and object key of `file_path` below `cos_path`, given the
/// path's file name `file_name` (`None` when it has none).
pub fn object_key_from_name(file_path: &str, cos_path: &str, file_name: Option<String>) -> (r:
    Result<(String, String), Error>)
    ensures
        match file_name {
            Some(name) => r matches Ok((n, k)) && n == name && k@ == object_key_of(
                cos_path@,
                name@,
            ),
            None => r matches Err(Error::InvalidConfig(m)) && m@ == invalid_path_message(
                file_path@,
            ),
        },
{
    match file_name {
        None => {
            let m = concat2("Invalid file path: ", file_path);
            Err(Error::InvalidConfig(m))
        },
        Some(file_name) => {
            let key = if ends_with_char(cos_path, '/') {
                concat2(cos_path, file_name.as_str())
            } else {
                let k = concat3(cos_path, "/", file_name.as_str());
                proof {
                    reveal_strlit("/");
                    assert("/"@ =~= seq!['/']);
                }
                k
            };
            Ok((file_name, key))
        },
    }
}

/// The file name of `file_path` and the key under which it is stored below
/// `cos_path`.
pub fn build_object_key(file_path: &str, cos_path: &str) -> (r: Result<(String, String), Error>)
    ensures
        match file_name_of(file_path@) {
            Some(name) => r matches Ok((n, k)) && n@ == name && k@ == object_key_of(
                cos_path@,
                name,
            ),
            None => r matches Err(Error::InvalidConfig(m)) && m@ == invalid_path_message(
                file_path@,
            ),
        },
{
    object_key_from_name(file_path, cos_path, file_name(file_path))
}

/// `i` is the first position in `files` whose key is `key`.
pub open spec fn is_first_with_key(files: Seq<CosItem>, key: Seq<char>, i: int) -> bool {
    &&& 0 <= i < files.len()
    &&& files[i].key@ == key
    &&& forall|j: int| 0 <= j < i ==> files[j].key@ != key
}

/// The first listing entry whose key is exactly `object_key`.
pub fn find_remote_item_by_key<'a>(files: &'a [CosItem], object_key: &str) -> (r: Option<
    &'a CosItem,
>)
    ensures
        match r {
            Some(item) => exists|i: int| is_first_with_key(files@, object_key@, i) && *item == files@[i],
            None => forall|i: int| 0 <= i < files@.len() ==> files@[i].key@ != object_key@,
        },
{
    let target = String::from_str(object_key);
    let mut i: usize = 0;
    while i < files.len()
        invariant
            i <= files@.len(),
            target@ == object_key@,
            forall|j: int| 0 <= j < i ==> files@[j].key@ != object_key@,
        decreases files@.len() - i,
    {
        if files[i].key == target {
            assert(is_first_with_key(files@, object_key@, i as int));
            return Some(&files[i]);
        }
        i = i + 1;
    }
    None
}

/// A remote object that `delete --all` removes on `today`: it is not empty
/// and it expired under the retention.
pub open spec fn is_expired_remote(item: CosItem, today: int, retention_days: Option<u32>) -> bool {
    item.size > 0 && spec_is_expired(item.last_modified.spec_day(), today, retention_days)
}

/// Some object of `files` is not empty.
pub open spec fn has_non_empty(files: Seq<CosItem>) -> bool {
    exists|i: int| 0 <= i < files.len() && #[trigger] files[i].size > 0
}

/// Whether some object of `files` is not empty, so that selecting the
/// expired ones compares a date with the retention cutoff.
pub fn any_non_empty(files: &[CosItem]) -> (r: bool)
    ensures
        r == has_non_empty(files@),
{
    let mut i: usize = 0;
    while i < files.len()
        invariant
            i <= files@.len(),
            forall|j: int| 0 <= j < i ==> files@[j].size == 0,
        decreases files@.len() - i,
    {
        if files[i].size > 0 {
            return true;
        }
        i = i + 1;
    }
    false
}

/// The non-empty objects of `files` that expired on `today`, in their order.
/// The retention cutoff must be a representable date when some object is
/// not empty.
pub fn select_expired_remote_files(files: Vec<CosItem>, today: i32, retention_days: Option<u32>) -> (r:
    Vec<CosItem>)
    requires
        is_valid_day(today as int),
        cutoff_in_range(today as int, retention_days) || !has_non_empty(files@),
    ensures
        r@ == files@.filter(|item: CosItem| is_expired_remote(item, today as int, retention_days)),
{
    let ghost pred = |item: CosItem| is_expired_remote(item, today as int, retention_days);
    let mut r: Vec<CosItem> = Vec::new();
    let mut i: usize = 0;
    while i < files.len()
        invariant
            i <= files@.len(),
            is_valid_day(today as int),
            cutoff_in_range(today as int, retention_days) || !has_non_empty(files@),
            pred == (|item: CosItem| is_expired_remote(item, today as int, retention_days)),
            r@ == files@.take(i as int).filter(pred),
        decreases files@.len() - i,
    {
        let item = &files[i];
        let day = item.last_modified.date_naive();
        let keep = item.size > 0 && crate::date::is_expired_by_retention_days(
            day,
            today,
            retention_days,
        );
        proof {
            reveal_with_fuel(Seq::<_>::filter, 1);
            assert(files@.take(i + 1).drop_last() =~= files@.take(i as int));
            assert(files@.take(i + 1).last() == files@[i as int]);
        }
        if keep {
            r.push(item.clone());
        }
        i = i + 1;
    }
    proof {
        assert(files@.take(files@.len() as int) =~= files@);
    }
    r
}

/// The message reported when an uploaded object is missing from the listing.
pub open spec fn missing_upload_message(key: Seq<char>) -> Seq<char> {
    "uploaded object '"@ + key + "' not found during verification"@
}

/// The message reported when an uploaded object has another size than the
/// local file.
pub open spec fn size_mismatch_message(key: Seq<char>, local: nat, remote: nat) -> Seq<char> {
    "uploaded object '"@ + key + "' size mismatch: local="@ + crate::text::decimal(local)
        + ", remote="@ + crate::text::decimal(remote)
}

/// Checks that the listing `files` taken after an upload holds `object_key`
/// with `expected_size` bytes; the first entry with that key is the one
/// compared.
pub fn check_remote_upload_size(files: &[CosItem], object_key: &str, expected_size: u64) -> (r:
    Result<(), Error>)
    ensures
        (forall|i: int| 0 <= i < files@.len() ==> files@[i].key@ != object_key@) ==> (r matches Err(
            Error::Integrity(m),
        ) && m@ == missing_upload_message(object_key@)),
        forall|i: int| #[trigger]
            is_first_with_key(files@, object_key@, i) ==> if files@[i].size == expected_size {
                r is Ok
            } else {
                r matches Err(Error::Integrity(m)) && m@ == size_mismatch_message(
                    object_key@,
                    expected_size as nat,
                    files@[i].size as nat,
                )
            },
{
    match find_remote_item_by_key(files, object_key) {
        None => {
            let m = concat3("uploaded object '", object_key, "' not found during verification");
            proof {
                reveal_strlit("uploaded object '");
                reveal_strlit("' not found during verification");
            }
            Err(Error::Integrity(m))
        },
        Some(item) => {
            proof {
                assert forall|i: int| #[trigger]
                    is_first_with_key(files@, object_key@, i) implies files@[i] == *item by {
                    let k = choose|k: int| is_first_with_key(files@, object_key@, k) && *item == files@[k];
                    if k < i {
                        assert(files@[k].key@ == object_key@);
                    } else if i < k {
                        assert(files@[i].key@ == object_key@);
                    }
                }
            }
            if item.size != expected_size {
                let mut m = concat3("uploaded object '", object_key, "' size mismatch: local=");
                m.append(crate::text::u64_to_string(expected_size).as_str());
                m.append(", remote=");
                m.append(crate::text::u64_to_string(item.size).as_str());
                proof {
                    reveal_strlit("uploaded object '");
                    reveal_strlit("' size mismatch: local=");
                    reveal_strlit(", remote=");
                }
                Err(Error::Integrity(m))
            } else {
                Ok(())
            }
        },
    }
}

} // verus!
