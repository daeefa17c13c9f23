//! Branch names: prefix handling, the normalisation used to compare a branch
//! with the default branch, and the names and file names derived from them.
use vstd::prelude::*;

verus! {

/// `s` starts with `p`.
pub open spec fn has_prefix(s: Seq<char>, p: Seq<char>) -> bool {
    p.len() <= s.len() && s.subrange(0, p.len() as int) == p
}

/// `s` without the leading `p`, if it starts with `p`.
pub open spec fn strip_prefix(s: Seq<char>, p: Seq<char>) -> Option<Seq<char>> {
    if has_prefix(s, p) {
        Some(s.subrange(p.len() as int, s.len() as int))
    } else {
        None
    }
}

/// `s` without the leading `p` where it has one, else `s` itself.
pub open spec fn strip_or_keep(s: Seq<char>, p: Seq<char>) -> Seq<char> {
    match strip_prefix(s, p) {
        Some(t) => t,
        None => s,
    }
}

/// A branch or default-branch name without the first of the prefixes
/// `refs/heads/`, `refs/remotes/origin/` and `origin/` that it carries, so
/// that local and remote spellings of one branch compare equal.
pub open spec fn normalize_ref(name: Seq<char>) -> Seq<char> {
    if has_prefix(name, "refs/heads/"@) {
        strip_or_keep(name, "refs/heads/"@)
    } else if has_prefix(name, "refs/remotes/origin/"@) {
        strip_or_keep(name, "refs/remotes/origin/"@)
    } else {
        strip_or_keep(name, "origin/"@)
    }
}

/// The branch is the default branch once both are normalised alike.
pub open spec fn same_as_default(branch: Seq<char>, default_branch: Seq<char>) -> bool {
    normalize_ref(branch) == normalize_ref(default_branch)
}

/// Both spellings of one branch name count as the default branch whichever
/// side they stand on: the check is reflexive and symmetric.
pub proof fn default_check_is_symmetric(a: Seq<char>, b: Seq<char>)
    ensures
        same_as_default(a, a),
        same_as_default(a, b) == same_as_default(b, a),
{
}

/// Whether `s` starts with `p`.
pub fn starts_with(s: &str, p: &str) -> (r: bool)
    ensures
        r == has_prefix(s@, p@),
{
    let n = s.unicode_len();
    let m = p.unicode_len();
    if m > n {
        return false;
    }
    let mut i: usize = 0;
    while i < m
        invariant
            m <= n,
            n == s@.len(),
            m == p@.len(),
            i <= m,
            forall|k: int| 0 <= k < i ==> s@[k] == p@[k],
        decreases m - i,
    {
        if s.get_char(i) != p.get_char(i) {
            assert(s@.subrange(0, m as int)[i as int] != p@[i as int]);
            return false;
        }
        i = i + 1;
    }
    assert(s@.subrange(0, m as int) =~= p@);
    true
}

/// `s` without the leading `p`, or `None` where `s` does not start with it.
pub fn strip_prefix_of(s: &str, p: &str) -> (r: Option<String>)
    ensures
        r.deep_view() == strip_prefix(s@, p@),
{
    if starts_with(s, p) {
        let n = s.unicode_len();
        let m = p.unicode_len();
        Some(String::from_str(s.substring_char(m, n)))
    } else {
        None
    }
}

/// `s` without the leading `p` where it has one, else a copy of `s`.
pub fn strip_or_copy(s: &str, p: &str) -> (r: String)
    ensures
        r@ == strip_or_keep(s@, p@),
{
    match strip_prefix_of(s, p) {
        Some(t) => t,
        None => String::from_str(s),
    }
}

/// The name without its local or remote ref prefix.
pub fn normalized_ref(name: &str) -> (r: String)
    ensures
        r@ == normalize_ref(name@),
{
    if starts_with(name, "refs/heads/") {
        strip_or_copy(name, "refs/heads/")
    } else if starts_with(name, "refs/remotes/origin/") {
        strip_or_copy(name, "refs/remotes/origin/")
    } else {
        strip_or_copy(name, "origin/")
    }
}

/// Whether `branch` names the default branch, both sides normalised alike.
pub fn is_default_branch(branch: &str, default_branch: &str) -> (r: bool)
    ensures
        r == same_as_default(branch@, default_branch@),
{
    let a = normalized_ref(branch);
    let b = normalized_ref(default_branch);
    a == b
}

/// The name under which a bundle's branch is imported when the user keeps
/// the existing local branch.
pub open spec fn renamed_import(b: Seq<char>) -> Seq<char> {
    "import-"@ + b
}

/// The name of the branch that holds HEAD while the branch `b` is replaced.
pub open spec fn detour_name(b: Seq<char>) -> Seq<char> {
    "temp-before-import-"@ + b
}

/// Path separators in a branch name turned into dashes, for use in a file name.
pub open spec fn file_safe(b: Seq<char>) -> Seq<char> {
    b.map_values(|c: char| if c == '/' { '-' } else { c })
}

/// The decimal digit for `d < 10`.
pub open spec fn digit_char(d: nat) -> char {
    "0123456789"@[d as int]
}

/// The decimal representation of `n`, without leading zeros.
pub open spec fn decimal(n: nat) -> Seq<char>
    decreases n,
{
    if n < 10 {
        seq![digit_char(n)]
    } else {
        decimal(n / 10) + seq![digit_char(n % 10)]
    }
}

/// The file name of a bundle: project, file-safe branch and timestamp.
pub open spec fn bundle_file(project: Seq<char>, branch: Seq<char>, timestamp: nat) -> Seq<char> {
    project + "_"@ + file_safe(branch) + "_"@ + decimal(timestamp) + ".bundle"@
}

/// The first eight characters of a commit id, or all of a shorter one.
pub open spec fn short_form(id: Seq<char>) -> Seq<char> {
    if id.len() <= 8 {
        id
    } else {
        id.subrange(0, 8)
    }
}

/// The name under which a conflicting bundle branch is imported instead.
pub fn import_branch_name(branch: &str) -> (r: String)
    ensures
        r@ == renamed_import(branch@),
{
    String::from_str("import-").concat(branch)
}

/// The name of the temporary branch used while `branch` is replaced.
pub fn temp_branch_name(branch: &str) -> (r: String)
    ensures
        r@ == detour_name(branch@),
{
    String::from_str("temp-before-import-").concat(branch)
}

/// The branch name with each `/` replaced by `-`.
pub fn sanitize_for_filename(branch: &str) -> (r: String)
    ensures
        r@ == file_safe(branch@),
{
    let n = branch.unicode_len();
    let mut out = String::new();
    let mut i: usize = 0;
    while i < n
        invariant
            n == branch@.len(),
            i <= n,
            out@ == file_safe(branch@.subrange(0, i as int)),
        decreases n - i,
    {
        let c = branch.get_char(i);
        let ghost before = out@;
        if c == '/' {
            out.append("-");
            proof {
                reveal_strlit("-");
            }
            assert("-"@ =~= seq!['-']);
        } else {
            let one = branch.substring_char(i, i + 1);
            out.append(one);
            assert(one@ =~= seq![c]);
        }
        assert(out@ =~= before.push(if c == '/' { '-' } else { c }));
        assert(branch@.subrange(0, i + 1) =~= branch@.subrange(0, i as int).push(c));
        assert(out@ =~= file_safe(branch@.subrange(0, i + 1)));
        i = i + 1;
    }
    assert(branch@.subrange(0, n as int) =~= branch@);
    out
}

/// The decimal representation of `n`.
pub fn decimal_string(n: u64) -> (r: String)
    ensures
        r@ == decimal(n as nat),
{
    let digits = "0123456789";
    proof {
        reveal_strlit("0123456789");
    }
    assert(digits@.len() == 10);
    let mut m: u64 = n;
    let mut acc = String::new();
    loop
        invariant
            digits@ == "0123456789"@,
            digits@.len() == 10,
            decimal(n as nat) == decimal(m as nat) + acc@,
        decreases m,
    {
        let d = (m % 10) as usize;
        let mut piece = String::from_str(digits.substring_char(d, d + 1));
        assert(piece@ =~= seq![digit_char((m % 10) as nat)]);
        piece.append(acc.as_str());
        let ghost old_acc = acc@;
        acc = piece;
        if m < 10 {
            assert(decimal(m as nat) == seq![digit_char(m as nat)]);
            assert(acc@ =~= decimal(m as nat) + old_acc);
            assert(decimal(n as nat) =~= acc@);
            return acc;
        }
        assert(decimal(m as nat) == decimal((m / 10) as nat) + seq![digit_char((m % 10) as nat)]);
        assert(decimal(n as nat) =~= decimal((m / 10) as nat) + acc@);
        m = m / 10;
    }
}

/// The file name of the bundle exported for `branch` of `project` at `timestamp`.
pub fn bundle_file_name(project: &str, branch: &str, timestamp: u64) -> (r: String)
    ensures
        r@ == bundle_file(project@, branch@, timestamp as nat),
{
    let mut r = String::from_str(project);
    r.append("_");
    let safe = sanitize_for_filename(branch);
    r.append(safe.as_str());
    r.append("_");
    let ts = decimal_string(timestamp);
    r.append(ts.as_str());
    r.append(".bundle");
    r
}

/// The abbreviated form of a commit id that reports show.
pub fn short_id(id: &str) -> (r: String)
    ensures
        r@ == short_form(id@),
{
    let n = id.unicode_len();
    if n <= 8 {
        String::from_str(id)
    } else {
        String::from_str(id.substring_char(0, 8))
    }
}

} // verus!
