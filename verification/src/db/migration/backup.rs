//! Backups taken before a migration: their manifest and where they are kept.

use vstd::prelude::*;
use std::path::PathBuf;
use std::time::Duration;
use crate::text::concat_str;
use crate::clock::{duration_as_secs, duration_subsec_nanos, spec_duration_secs, spec_duration_subsec_nanos};

verus! {

/// `std::path::PathBuf`, held opaque.
#[verifier::external_type_specification]
#[verifier::external_body]
pub struct ExPathBuf(PathBuf);

/// A file saved in a backup.
#[derive(Debug)]
pub struct BackupFile {
    /// Where the file was.
    pub original_path: PathBuf,
    /// Where its copy is.
    pub backup_path: PathBuf,
    /// Its size in bytes.
    pub size_bytes: u64,
}

/// The manifest of a backup.
#[derive(Debug)]
pub struct BackupMetadata {
    /// When the backup was taken, as `YYYYMMDD_HHMMSS`.
    pub timestamp: String,
    /// The directory of the backup.
    pub backup_path: PathBuf,
    /// The files saved.
    pub files: Vec<BackupFile>,
    /// Schema version at the time of the backup.
    pub schema_version: i32,
}

/// Takes and restores backups under a root directory.
pub struct BackupManager {
    pub backup_root: PathBuf,
}

impl BackupManager {
    /// A manager of the backups under `backup_root`.
    pub fn new(backup_root: PathBuf) -> (m: Self)
        ensures
            m.backup_root == backup_root,
    {
        Self { backup_root }
    }
}

/// Name of the directory of a backup taken at `timestamp`.
pub fn backup_dir_name(timestamp: &str) -> (s: String)
    ensures
        s@ == "backup_"@ + timestamp@,
{
    concat_str("backup_", timestamp)
}

/// Seconds in `days` days.
pub open spec fn retention_secs(days: u64) -> int {
    days * 86400
}

/// Whether a backup of age `age` is past a retention of `retention_days` days: it is
/// strictly older.
pub fn backup_expired(age: &Duration, retention_days: u64) -> (r: bool)
    requires
        retention_secs(retention_days) <= u64::MAX,
    ensures
        r == (spec_duration_secs(*age) > retention_secs(retention_days) || (spec_duration_secs(*age)
            == retention_secs(retention_days) && spec_duration_subsec_nanos(*age) > 0)),
{
    let limit = retention_days * 86400;
    let secs = duration_as_secs(age);
    secs > limit || (secs == limit && duration_subsec_nanos(age) > 0)
}

/// `a` sorts after `b` in the order of their UTF-8 bytes (which is the order of their characters).
pub open spec fn text_greater(a: Seq<char>, b: Seq<char>) -> bool
    decreases a.len(),
{
    if a.len() == 0 {
        false
    } else if b.len() == 0 {
        true
    } else if a[0] != b[0] {
        (a[0] as u32) > (b[0] as u32)
    } else {
        text_greater(a.drop_first(), b.drop_first())
    }
}

/// Whether `a` sorts after `b`.
fn str_greater(a: &str, b: &str) -> (r: bool)
    ensures
        r == text_greater(a@, b@),
{
    let n = a.unicode_len();
    let m = b.unicode_len();
    let mut i: usize = 0;
    proof {
        assert(a@.skip(0) =~= a@);
        assert(b@.skip(0) =~= b@);
    }
    while i < n && i < m
        invariant
            n == a@.len(),
            m == b@.len(),
            i <= n,
            i <= m,
            text_greater(a@, b@) == text_greater(a@.skip(i as int), b@.skip(i as int)),
        decreases n - i,
    {
        let x = a.get_char(i);
        let y = b.get_char(i);
        proof {
            assert(a@.skip(i as int)[0] == x);
            assert(b@.skip(i as int)[0] == y);
            assert(a@.skip(i as int).drop_first() =~= a@.skip(i + 1));
            assert(b@.skip(i as int).drop_first() =~= b@.skip(i + 1));
        }
        if x != y {
            return (x as u32) > (y as u32);
        }
        i = i + 1;
    }
    i < n
}

/// `s` is sorted newest first: no backup's timestamp sorts after that of a backup before it.
pub open spec fn newest_first(s: Seq<BackupMetadata>) -> bool {
    forall|i: int, j: int| 0 <= i < j < s.len() ==> !text_greater(s[j].timestamp@, s[i].timestamp@)
}

/// `r` is `orig` sorted newest first, with backups of equal timestamps in their order in
/// `orig`: `r[i]` is `orig[perm[i]]` for a permutation `perm`.
pub open spec fn stably_newest_first(orig: Seq<BackupMetadata>, r: Seq<BackupMetadata>, perm: Seq<int>) -> bool {
    &&& perm.len() == r.len()
    &&& r.len() == orig.len()
    &&& forall|i: int| 0 <= i < r.len() ==> 0 <= #[trigger] perm[i] < orig.len() && r[i] == orig[perm[i]]
    &&& forall|i: int, j: int| 0 <= i < j < r.len() ==> perm[i] != perm[j]
    &&& newest_first(r)
    &&& forall|i: int, j: int| 0 <= i < j < r.len() && !text_greater(r[i].timestamp@, r[j].timestamp@) ==> perm[i] < perm[j]
}

/// Sorts backups by timestamp, newest first; backups with equal timestamps keep their order.
pub fn sort_newest_first(backups: Vec<BackupMetadata>) -> (r: Vec<BackupMetadata>)
    ensures
        newest_first(r@),
        r@.to_multiset() == backups@.to_multiset(),
        exists|perm: Seq<int>| stably_newest_first(backups@, r@, perm),
{
    broadcast use vstd::multiset::group_multiset_axioms;
    broadcast use vstd::seq_lib::group_to_multiset_ensures;
    let ghost orig = backups@;
    let mut input = backups;
    let mut sorted: Vec<BackupMetadata> = Vec::new();
    let ghost mut k: int = 0;
    let ghost mut perm: Seq<int> = Seq::empty();
    while input.len() > 0
        invariant
            0 <= k <= orig.len(),
            input@ == orig.skip(k),
            newest_first(sorted@),
            sorted@.to_multiset() == orig.take(k).to_multiset(),
            perm.len() == sorted@.len(),
            sorted@.len() == k,
            forall|i: int| 0 <= i < sorted@.len() ==> 0 <= #[trigger] perm[i] < k && sorted@[i] == orig[perm[i]],
            forall|i: int, j: int| 0 <= i < j < sorted@.len() ==> perm[i] != perm[j],
            forall|i: int, j: int| 0 <= i < j < sorted@.len() && !text_greater(sorted@[i].timestamp@, sorted@[j].timestamp@) ==> perm[i] < perm[j],
        decreases input@.len(),
    {
        let x = input.remove(0);
        let mut p: usize = 0;
        while p < sorted.len() && !str_greater(x.timestamp.as_str(), sorted[p].timestamp.as_str())
            invariant
                p <= sorted@.len(),
                newest_first(sorted@),
                forall|i: int| 0 <= i < p ==> !text_greater(x.timestamp@, sorted@[i].timestamp@),
            decreases sorted@.len() - p,
        {
            p = p + 1;
        }
        let ghost perm2 = perm.insert(p as int, k);
        proof {
            assert(x == orig[k]);
            assert(orig.take(k + 1) =~= orig.take(k).push(x));
            let s2 = sorted@.insert(p as int, x);
            assert forall|i: int, j: int| 0 <= i < j < s2.len() implies !text_greater(s2[j].timestamp@, s2[i].timestamp@) by {
                if p < sorted@.len() {
                    lemma_text_greater_asymmetric(x.timestamp@, sorted@[p as int].timestamp@);
                }
                if j < p {
                } else if j == p {
                } else if i == p {
                    // x is newer than sorted[p] (or p is the end), and sorted[p] is at least as new as sorted[j - 1]
                    if p < sorted@.len() {
                        assert(text_greater(x.timestamp@, sorted@[p as int].timestamp@));
                        if text_greater(s2[j].timestamp@, x.timestamp@) {
                            lemma_text_greater_transitive(
                                s2[j].timestamp@,
                                x.timestamp@,
                                sorted@[p as int].timestamp@,
                            );
                            assert(s2[j] == sorted@[j - 1]);
                        }
                    }
                } else if i < p {
                    assert(s2[j] == sorted@[j - 1]);
                } else {
                    assert(s2[j] == sorted@[j - 1]);
                    assert(s2[i] == sorted@[i - 1]);
                }
            }
            assert forall|i: int| 0 <= i < s2.len() implies 0 <= #[trigger] perm2[i] < k + 1 && s2[i] == orig[perm2[i]] by {
                if i < p {
                    assert(perm2[i] == perm[i]);
                } else if i > p {
                    assert(perm2[i] == perm[i - 1]);
                    assert(s2[i] == sorted@[i - 1]);
                }
            }
            assert forall|i: int, j: int| 0 <= i < j < s2.len() implies perm2[i] != perm2[j] by {
                if i < p && j > p {
                    assert(perm2[j] == perm[j - 1]);
                } else if i > p {
                    assert(perm2[j] == perm[j - 1]);
                    assert(perm2[i] == perm[i - 1]);
                } else if j == p {
                    assert(perm2[i] == perm[i]);
                } else if i == p {
                    assert(perm2[j] == perm[j - 1]);
                }
            }
            assert forall|i: int, j: int| 0 <= i < j < s2.len() && !text_greater(s2[i].timestamp@, s2[j].timestamp@) implies perm2[i] < perm2[j] by {
                if j < p {
                } else if j == p {
                    assert(perm2[i] == perm[i]);
                } else if i == p {
                    // every backup after the insertion point is strictly older than x
                    assert(s2[j] == sorted@[j - 1]);
                    assert(text_greater(x.timestamp@, sorted@[p as int].timestamp@));
                    if sorted@[j - 1].timestamp@ != sorted@[p as int].timestamp@ {
                        lemma_text_greater_total(sorted@[j - 1].timestamp@, sorted@[p as int].timestamp@);
                        if j - 1 > p {
                            assert(!text_greater(sorted@[j - 1].timestamp@, sorted@[p as int].timestamp@));
                        }
                        lemma_text_greater_transitive(
                            x.timestamp@,
                            sorted@[p as int].timestamp@,
                            sorted@[j - 1].timestamp@,
                        );
                    }
                } else if i < p {
                    assert(s2[j] == sorted@[j - 1]);
                    assert(perm2[j] == perm[j - 1]);
                } else {
                    assert(s2[j] == sorted@[j - 1]);
                    assert(s2[i] == sorted@[i - 1]);
                    assert(perm2[j] == perm[j - 1]);
                    assert(perm2[i] == perm[i - 1]);
                }
            }
            vstd::seq_lib::to_multiset_insert(sorted@, p as int, x);
        }
        let ghost before = sorted@;
        sorted.insert(p, x);
        proof {
            assert(sorted@ == before.insert(p as int, x));
            assert(sorted@.to_multiset() == before.to_multiset().insert(x));
            vstd::seq_lib::to_multiset_build(orig.take(k), x);
            k = k + 1;
            perm = perm2;
            assert(input@ =~= orig.skip(k));
        }
    }
    proof {
        assert(orig.take(k) =~= orig);
        assert(stably_newest_first(orig, sorted@, perm));
    }
    sorted
}

/// Of two different texts, one sorts after the other.
proof fn lemma_text_greater_total(a: Seq<char>, b: Seq<char>)
    requires
        a != b,
    ensures
        text_greater(a, b) || text_greater(b, a),
    decreases a.len(),
{
    if a.len() > 0 && b.len() > 0 && a[0] == b[0] {
        if a.drop_first() == b.drop_first() {
            assert(a =~= seq![a[0]] + a.drop_first());
            assert(b =~= seq![b[0]] + b.drop_first());
        }
        lemma_text_greater_total(a.drop_first(), b.drop_first());
    } else if a.len() == 0 && b.len() == 0 {
        assert(a =~= b);
    } else if a.len() > 0 && b.len() > 0 {
        vstd::utf8::char_u32_cast(a[0], a[0] as u32);
        vstd::utf8::char_u32_cast(b[0], b[0] as u32);
    }
}

proof fn lemma_text_greater_transitive(a: Seq<char>, b: Seq<char>, c: Seq<char>)
    requires
        text_greater(a, b),
        text_greater(b, c),
    ensures
        text_greater(a, c),
    decreases a.len(),
{
    if c.len() > 0 && a[0] == b[0] && b[0] == c[0] {
        lemma_text_greater_transitive(a.drop_first(), b.drop_first(), c.drop_first());
    }
}

proof fn lemma_text_greater_asymmetric(a: Seq<char>, b: Seq<char>)
    ensures
        text_greater(a, b) ==> !text_greater(b, a),
    decreases a.len(),
{
    if a.len() > 0 && b.len() > 0 && a[0] == b[0] {
        lemma_text_greater_asymmetric(a.drop_first(), b.drop_first());
    }
}

} // verus!
