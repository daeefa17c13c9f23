//! Choosing the bundle to import among the files of the incoming directory.
use vstd::prelude::*;
use crate::error::QSyncError;
use crate::names::starts_with;

verus! {

/// A directory entry as listed by the caller.
#[derive(Debug, Clone)]
pub struct BundleCandidate {
    /// The file name, without its directory.
    pub name: String,
    /// The entry is a regular file.
    pub is_file: bool,
    /// The modification time in nanoseconds since the Unix epoch (0 where unknown).
    pub modified: u128,
}

/// The directory where bundles from `source_vm` for `project` arrive.
pub open spec fn incoming_path(home: Seq<char>, source_vm: Seq<char>, project: Seq<char>) -> Seq<char> {
    home + "/QubesIncoming/"@ + source_vm + "/git-qsync/"@ + project
}

/// The directory where bundles from `source_vm` for `project` arrive,
/// under the home directory `home`.
pub fn incoming_dir(home: &str, source_vm: &str, project: &str) -> (r: String)
    ensures
        r@ == incoming_path(home@, source_vm@, project@),
{
    let mut r = String::from_str(home);
    r.append("/QubesIncoming/");
    r.append(source_vm);
    r.append("/git-qsync/");
    r.append(project);
    r
}

/// `name` has the extension `bundle` after a non-empty stem.
pub open spec fn is_bundle_name(name: Seq<char>) -> bool {
    name.len() > 7 && name.subrange(name.len() - 7, name.len() as int) == ".bundle"@
}

/// The entry is a bundle file.
pub open spec fn qualifies(e: BundleCandidate) -> bool {
    e.is_file && is_bundle_name(e.name@)
}

/// Lexicographic order of names, character by character.
pub open spec fn name_lt(a: Seq<char>, b: Seq<char>) -> bool
    decreases a.len(),
{
    if a.len() == 0 {
        b.len() > 0
    } else if b.len() == 0 {
        false
    } else if a[0] != b[0] {
        a[0] < b[0]
    } else {
        name_lt(a.drop_first(), b.drop_first())
    }
}

/// `a` is preferred over `b`: modified later, or at the same time with a
/// greater name.
pub open spec fn newer(a: BundleCandidate, b: BundleCandidate) -> bool {
    a.modified > b.modified || (a.modified == b.modified && name_lt(b.name@, a.name@))
}

/// Entry `i` is a bundle file and no bundle file of `entries` is newer.
pub open spec fn is_latest(entries: Seq<BundleCandidate>, i: int) -> bool {
    &&& 0 <= i < entries.len()
    &&& qualifies(entries[i])
    &&& forall|j: int| 0 <= j < entries.len() && qualifies(#[trigger] entries[j]) ==> !newer(entries[j], entries[i])
}

/// Two entries that agree in everything the choice reads.
pub open spec fn same_entry(a: BundleCandidate, b: BundleCandidate) -> bool {
    a.name@ == b.name@ && a.is_file == b.is_file && a.modified == b.modified
}

/// Two listings of the same directory contents, in any order.
pub open spec fn same_listing(a: Seq<BundleCandidate>, b: Seq<BundleCandidate>) -> bool {
    &&& forall|i: int| 0 <= i < a.len() ==> exists|j: int| 0 <= j < b.len() && same_entry(#[trigger] a[i], #[trigger] b[j])
    &&& forall|j: int| 0 <= j < b.len() ==> exists|i: int| 0 <= i < a.len() && same_entry(#[trigger] a[i], #[trigger] b[j])
}

proof fn lemma_name_lt_transitive(a: Seq<char>, b: Seq<char>, c: Seq<char>)
    requires
        name_lt(a, b),
        name_lt(b, c),
    ensures
        name_lt(a, c),
    decreases a.len(),
{
    if a.len() > 0 && b.len() > 0 && c.len() > 0 && a[0] == b[0] && b[0] == c[0] {
        lemma_name_lt_transitive(a.drop_first(), b.drop_first(), c.drop_first());
    }
}

proof fn lemma_name_lt_total(a: Seq<char>, b: Seq<char>)
    requires
        a != b,
    ensures
        name_lt(a, b) || name_lt(b, a),
    decreases a.len(),
{
    if a.len() > 0 && b.len() > 0 {
        if a[0] == b[0] {
            if a.drop_first() == b.drop_first() {
                assert(a =~= seq![a[0]] + a.drop_first());
                assert(b =~= seq![b[0]] + b.drop_first());
            }
            lemma_name_lt_total(a.drop_first(), b.drop_first());
        }
    } else if a.len() == 0 && b.len() == 0 {
        assert(a =~= b);
    }
}

proof fn lemma_newer_transitive(a: BundleCandidate, b: BundleCandidate, c: BundleCandidate)
    requires
        newer(a, b),
        newer(b, c),
    ensures
        newer(a, c),
{
    if a.modified == b.modified && b.modified == c.modified {
        lemma_name_lt_transitive(c.name@, b.name@, a.name@);
    }
}

/// Ordering of two names: negative, zero or positive as `a` sorts before,
/// equal to or after `b`.
pub fn compare_names(a: &str, b: &str) -> (r: i8)
    ensures
        r < 0 <==> name_lt(a@, b@),
        r > 0 <==> name_lt(b@, a@),
        r == 0 <==> a@ == b@,
{
    let n = a.unicode_len();
    let m = b.unicode_len();
    let mut i: usize = 0;
    assert(a@.skip(0) =~= a@);
    assert(b@.skip(0) =~= b@);
    assert(a@.subrange(0, 0) =~= b@.subrange(0, 0));
    while i < n && i < m
        invariant
            n == a@.len(),
            m == b@.len(),
            i <= n,
            i <= m,
            a@.subrange(0, i as int) == b@.subrange(0, i as int),
            name_lt(a@, b@) == name_lt(a@.skip(i as int), b@.skip(i as int)),
            name_lt(b@, a@) == name_lt(b@.skip(i as int), a@.skip(i as int)),
        decreases n - i,
    {
        let x = a.get_char(i);
        let y = b.get_char(i);
        assert(a@.skip(i as int)[0] == x);
        assert(b@.skip(i as int)[0] == y);
        if x != y {
            proof {
                if a@ == b@ {
                    assert(a@[i as int] == b@[i as int]);
                }
            }
            if x < y {
                return -1;
            } else {
                return 1;
            }
        }
        assert(a@.skip(i as int).drop_first() =~= a@.skip(i + 1));
        assert(b@.skip(i as int).drop_first() =~= b@.skip(i + 1));
        assert(a@.subrange(0, i + 1) =~= a@.subrange(0, i as int).push(x));
        assert(b@.subrange(0, i + 1) =~= b@.subrange(0, i as int).push(y));
        i = i + 1;
    }
    if i < m {
        assert(a@.skip(i as int).len() == 0);
        assert(a@ != b@);
        -1
    } else if i < n {
        assert(b@.skip(i as int).len() == 0);
        assert(a@ != b@);
        1
    } else {
        assert(a@ =~= a@.subrange(0, i as int));
        assert(b@ =~= b@.subrange(0, i as int));
        assert(a@.skip(i as int).len() == 0);
        assert(b@.skip(i as int).len() == 0);
        0
    }
}

/// Whether `name` is a bundle file name.
pub fn has_bundle_extension(name: &str) -> (r: bool)
    ensures
        r == is_bundle_name(name@),
{
    let n = name.unicode_len();
    if n <= 7 {
        return false;
    }
    let tail = name.substring_char(n - 7, n);
    let r = starts_with(tail, ".bundle");
    proof {
        reveal_strlit(".bundle");
        assert(tail@ =~= tail@.subrange(0, 7));
    }
    r
}

/// Whether `a` is preferred over `b`.
pub fn is_newer(a: &BundleCandidate, b: &BundleCandidate) -> (r: bool)
    ensures
        r == newer(*a, *b),
{
    if a.modified > b.modified {
        true
    } else if a.modified == b.modified {
        compare_names(b.name.as_str(), a.name.as_str()) < 0
    } else {
        false
    }
}

/// The name of the newest bundle file among the entries of `dir_path`:
/// the latest modified, ties going to the greatest name.
pub fn find_latest_bundle(dir_path: &str, entries: &Vec<BundleCandidate>) -> (r: Result<
    String,
    QSyncError,
>)
    ensures
        match r {
            Ok(name) => exists|i: int| is_latest(entries@, i) && #[trigger] entries@[i].name@ == name@,
            Err(QSyncError::NoBundlesFound { path }) => path@ == dir_path@
                && forall|j: int| 0 <= j < entries@.len() ==> !qualifies(#[trigger] entries@[j]),
            Err(_) => false,
        },
{
    let mut best: Option<usize> = None;
    let mut i: usize = 0;
    while i < entries.len()
        invariant
            i <= entries@.len(),
            match best {
                Some(k) => k < i && qualifies(entries@[k as int])
                    && forall|j: int| 0 <= j < i && qualifies(#[trigger] entries@[j]) ==> !newer(entries@[j], entries@[k as int]),
                None => forall|j: int| 0 <= j < i ==> !qualifies(#[trigger] entries@[j]),
            },
        decreases entries@.len() - i,
    {
        let e = &entries[i];
        if e.is_file && has_bundle_extension(e.name.as_str()) {
            match best {
                Some(k) => {
                    if is_newer(e, &entries[k]) {
                        proof {
                            assert forall|j: int| 0 <= j < i + 1 && qualifies(#[trigger] entries@[j]) implies !newer(entries@[j], entries@[i as int]) by {
                                if j < i && newer(entries@[j], entries@[i as int]) {
                                    lemma_newer_transitive(entries@[j], entries@[i as int], entries@[k as int]);
                                }
                                if j == i {
                                    lemma_not_newer_than_itself(entries@[j]);
                                }
                            }
                        }
                        best = Some(i);
                    }
                },
                None => {
                    proof {
                        lemma_not_newer_than_itself(entries@[i as int]);
                    }
                    best = Some(i);
                },
            }
        }
        i = i + 1;
    }
    match best {
        Some(k) => {
            assert(is_latest(entries@, k as int));
            Ok(entries[k].name.clone())
        },
        None => Err(QSyncError::NoBundlesFound { path: String::from_str(dir_path) }),
    }
}

proof fn lemma_name_lt_irreflexive(a: Seq<char>)
    ensures
        !name_lt(a, a),
    decreases a.len(),
{
    if a.len() > 0 {
        lemma_name_lt_irreflexive(a.drop_first());
    }
}

proof fn lemma_not_newer_than_itself(a: BundleCandidate)
    ensures
        !newer(a, a),
{
    lemma_name_lt_irreflexive(a.name@);
}

/// Discovery is stable: two listings of the same directory contents, in
/// whatever order, select a bundle of the same name and modification time.
pub proof fn latest_bundle_is_stable(a: Seq<BundleCandidate>, b: Seq<BundleCandidate>, i: int, j: int)
    requires
        same_listing(a, b),
        is_latest(a, i),
        is_latest(b, j),
    ensures
        a[i].name@ == b[j].name@,
        a[i].modified == b[j].modified,
{
    let jj = choose|jj: int| 0 <= jj < b.len() && same_entry(a[i], b[jj]);
    let ii = choose|ii: int| 0 <= ii < a.len() && same_entry(a[ii], b[j]);
    assert(qualifies(b[jj]));
    assert(!newer(b[jj], b[j]));
    assert(qualifies(a[ii]));
    assert(!newer(a[ii], a[i]));
    if a[i].name@ != b[j].name@ {
        lemma_name_lt_total(a[i].name@, b[j].name@);
    }
}

} // verus!
