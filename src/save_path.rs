use vstd::prelude::*;
use vstd::string::*;

verus! {

/// Index of the last `c` in `s` before position `hi`, or -1.
pub open spec fn last_index_before(s: Seq<char>, c: char, hi: int) -> int
    decreases hi,
{
    if hi <= 0 || hi > s.len() {
        -1
    } else if s[hi - 1] == c {
        hi - 1
    } else {
        last_index_before(s, c, hi - 1)
    }
}

/// Where the last component of a path starts.
pub open spec fn file_start(name: Seq<char>) -> int {
    last_index_before(name, '/', name.len() as int) + 1
}

/// Where the stem of the last component ends: at its last dot, unless the
/// component is `..`, has no dot, or has its only dot in front; then at the
/// end of the name.
pub open spec fn stem_end(name: Seq<char>) -> int {
    let f = file_start(name);
    let d = last_index_before(name, '.', name.len() as int);
    if name.subrange(f, name.len() as int) == seq!['.', '.'] || d <= f {
        name.len() as int
    } else {
        d
    }
}

/// `k` underscores.
pub open spec fn underscores(k: nat) -> Seq<char> {
    Seq::new(k, |_i: int| '_')
}

/// The name with `k` underscores appended to its stem; the extension stays.
pub open spec fn save_candidate(name: Seq<char>, k: nat) -> Seq<char> {
    name.subrange(0, stem_end(name)) + underscores(k) + name.subrange(
        stem_end(name),
        name.len() as int,
    )
}

/// `name` within `folder`: an absolute name stands alone, and a separator is
/// put between the two where `folder` is not empty and does not end in one.
pub open spec fn joined(folder: Seq<char>, name: Seq<char>) -> Seq<char> {
    if name.len() > 0 && name[0] == '/' {
        name
    } else if folder.len() == 0 || folder.last() == '/' {
        folder + name
    } else {
        folder + seq!['/'] + name
    }
}

/// The path tried in round `k` of the search.
pub open spec fn candidate_path(folder: Seq<char>, name: Seq<char>, k: nat) -> Seq<char> {
    joined(folder, save_candidate(name, k))
}

/// The first round, from `k` on, whose candidate is not among `existing`.
pub open spec fn first_free_from(
    folder: Seq<char>,
    name: Seq<char>,
    existing: Seq<Seq<char>>,
    k: nat,
) -> nat
    decreases existing.len() + 1 - k,
{
    if k > existing.len() || !existing.contains(candidate_path(folder, name, k)) {
        k
    } else {
        first_free_from(folder, name, existing, k + 1)
    }
}

/// The path recommended for saving `name` in `folder` when the paths of
/// `existing` are taken: the first candidate that is free.
pub open spec fn recommended_path_spec(
    folder: Seq<char>,
    name: Seq<char>,
    existing: Seq<Seq<char>>,
) -> Seq<char> {
    candidate_path(folder, name, first_free_from(folder, name, existing, 0))
}

/// How many entries of `s` are at least `l` long.
pub open spec fn count_at_least(s: Seq<Seq<char>>, l: int) -> nat
    decreases s.len(),
{
    if s.len() == 0 {
        0
    } else {
        count_at_least(s.drop_last(), l) + if s.last().len() >= l {
            1nat
        } else {
            0nat
        }
    }
}

proof fn lemma_last_index_bounds(s: Seq<char>, c: char, hi: int)
    requires
        0 <= hi <= s.len(),
    ensures
        -1 <= last_index_before(s, c, hi) < hi,
        last_index_before(s, c, hi) >= 0 ==> s[last_index_before(s, c, hi)] == c,
    decreases hi,
{
    if hi > 0 && s[hi - 1] != c {
        lemma_last_index_bounds(s, c, hi - 1);
    }
}

proof fn lemma_stem_end_bounds(name: Seq<char>)
    ensures
        0 <= stem_end(name) <= name.len(),
        name.len() > 0 && name[0] == '/' ==> stem_end(name) >= 1,
{
    lemma_last_index_bounds(name, '/', name.len() as int);
    lemma_last_index_bounds(name, '.', name.len() as int);
}

proof fn lemma_count_at_least(s: Seq<Seq<char>>, x: Seq<char>, l: int)
    ensures
        count_at_least(s, l) <= s.len(),
        count_at_least(s, l + 1) <= count_at_least(s, l),
        s.contains(x) && x.len() == l ==> count_at_least(s, l + 1) < count_at_least(s, l),
    decreases s.len(),
{
    if s.len() > 0 {
        lemma_count_at_least(s.drop_last(), x, l);
        if s.contains(x) && x.len() == l && s.last() != x {
            let i = choose|i: int| 0 <= i < s.len() && s[i] == x;
            assert(s.drop_last()[i] == x);
        }
    }
}

/// Each round's candidate is one character longer than the one before.
proof fn lemma_candidate_len(folder: Seq<char>, name: Seq<char>, k: nat)
    ensures
        candidate_path(folder, name, k).len() == candidate_path(folder, name, 0).len() + k,
{
    lemma_stem_end_bounds(name);
    let c0 = save_candidate(name, 0);
    let ck = save_candidate(name, k);
    assert(c0 =~= name);
    if name.len() > 0 && name[0] == '/' {
        assert(ck[0] == '/');
    } else if ck.len() > 0 && ck[0] == '/' {
        if stem_end(name) > 0 {
            assert(ck[0] == name[0]);
        } else {
            assert(ck[0] == '_' || ck[0] == name[0]);
        }
    }
}

proof fn lemma_first_free(
    folder: Seq<char>,
    name: Seq<char>,
    existing: Seq<Seq<char>>,
    m: nat,
    k: nat,
)
    requires
        m <= k <= existing.len(),
        forall|j: nat| m <= j < k ==> existing.contains(#[trigger] candidate_path(folder, name, j)),
        !existing.contains(candidate_path(folder, name, k)),
    ensures
        first_free_from(folder, name, existing, m) == k,
    decreases k - m,
{
    if m < k {
        lemma_first_free(folder, name, existing, m + 1, k);
    }
}

/// One past the index of the last `c` in `s`; 0 where there is none.
fn last_index_end(s: &str, c: char) -> (r: usize)
    ensures
        r == last_index_before(s@, c, s@.len() as int) + 1,
{
    let n = s.unicode_len();
    let mut r: usize = 0;
    let mut i: usize = 0;
    while i < n
        invariant
            n == s@.len(),
            i <= n,
            r == last_index_before(s@, c, i as int) + 1,
            r <= i,
        decreases n - i,
    {
        if s.get_char(i) == c {
            r = i + 1;
        }
        i = i + 1;
    }
    r
}

/// Where the stem of `name` ends (see `stem_end`).
fn stem_end_of(name: &str) -> (r: usize)
    ensures
        r == stem_end(name@),
{
    proof {
        lemma_last_index_bounds(name@, '/', name@.len() as int);
        lemma_last_index_bounds(name@, '.', name@.len() as int);
    }
    let n = name.unicode_len();
    let f = last_index_end(name, '/');
    let d = last_index_end(name, '.');
    let dots = n - f == 2 && name.get_char(f) == '.' && name.get_char(f + 1) == '.';
    proof {
        let tail = name@.subrange(f as int, n as int);
        if dots {
            assert(tail =~= seq!['.', '.']);
        } else if tail.len() == 2 {
            assert(tail[0] == name@[f as int] && tail[1] == name@[f + 1]);
            assert(tail != seq!['.', '.']);
        }
    }
    if dots || d == 0 || d - 1 <= f {
        n
    } else {
        d - 1
    }
}

/// `name` within `folder` (see `joined`).
pub fn join_path(folder: &str, name: &str) -> (r: String)
    ensures
        r@ == joined(folder@, name@),
{
    let nl = name.unicode_len();
    let fl = folder.unicode_len();
    if nl > 0 && name.get_char(0) == '/' {
        name.to_string()
    } else if fl == 0 || folder.get_char(fl - 1) == '/' {
        let mut r = folder.to_string();
        r.append(name);
        r
    } else {
        let mut r = folder.to_string();
        r.append("/");
        proof {
            reveal_strlit("/");
        }
        r.append(name);
        proof {
            assert(r@ =~= folder@ + seq!['/'] + name@);
        }
        r
    }
}

/// The folder part of `path` as it is spelled there: everything up to and
/// including its last `/`. Every candidate of a search starts with the
/// same folder part, since underscores go into the last component only.
pub fn dir_prefix(path: &str) -> (r: String)
    ensures
        r@ == path@.subrange(0, file_start(path@)),
{
    proof {
        lemma_last_index_bounds(path@, '/', path@.len() as int);
    }
    let f = last_index_end(path, '/');
    path.substring_char(0, f).to_string()
}

/// Whether `path` is one of `existing`.
fn contains_path(existing: &Vec<String>, path: &String) -> (r: bool)
    ensures
        r == existing.deep_view().contains(path@),
{
    let mut i: usize = 0;
    while i < existing.len()
        invariant
            i <= existing.len(),
            forall|j: int| 0 <= j < i ==> existing.deep_view()[j] != path@,
        decreases existing.len() - i,
    {
        if existing[i] == *path {
            assert(existing.deep_view()[i as int] == path@);
            return true;
        }
        i = i + 1;
    }
    false
}

/// The path to recommend for saving `name` in `folder`, where `existing`
/// holds the paths that are taken: the name itself if it is free, else the
/// name with as few underscores appended to its stem as make it free. The
/// extension stays, and the search ends after at most `existing.len() + 1`
/// rounds.
pub fn recommended_path(folder: &str, name: &str, existing: &Vec<String>) -> (r: String)
    ensures
        r@ == recommended_path_spec(folder@, name@, existing.deep_view()),
        !existing.deep_view().contains(r@),
{
    let ghost ex = existing.deep_view();
    let ghost base = candidate_path(folder@, name@, 0).len() as int;
    proof {
        lemma_stem_end_bounds(name@);
        lemma_count_at_least(ex, Seq::empty(), base);
    }
    let n = name.unicode_len();
    let split = stem_end_of(name);
    let mut stem = name.substring_char(0, split).to_string();
    let suffix = name.substring_char(split, n);
    let total = existing.len();
    let mut k: usize = 0;
    loop
        invariant
            ex.len() == total,
            n == name@.len(),
            split == stem_end(name@),
            split <= n,
            suffix@ == name@.subrange(split as int, n as int),
            stem@ == name@.subrange(0, split as int) + underscores(k as nat),
            ex == existing.deep_view(),
            base == candidate_path(folder@, name@, 0).len(),
            k + count_at_least(ex, base + k) <= ex.len(),
            forall|j: nat| j < k ==> ex.contains(#[trigger] candidate_path(folder@, name@, j)),
        decreases ex.len() - k,
    {
        let mut cand = stem.clone();
        cand.append(suffix);
        let path = join_path(folder, cand.as_str());
        assert(path@ == candidate_path(folder@, name@, k as nat));
        if !contains_path(existing, &path) {
            proof {
                lemma_first_free(folder@, name@, ex, 0, k as nat);
            }
            return path;
        }
        proof {
            lemma_candidate_len(folder@, name@, k as nat);
            lemma_count_at_least(ex, path@, base + k);
        }
        stem.append("_");
        proof {
            reveal_strlit("_");
        }
        assert(underscores(k as nat) + seq!['_'] =~= underscores((k + 1) as nat));
        k = k + 1;
    }
}

proof fn lemma_first_free_is_free(
    folder: Seq<char>,
    name: Seq<char>,
    existing: Seq<Seq<char>>,
    m: nat,
)
    requires
        m + count_at_least(existing, candidate_path(folder, name, 0).len() + m as int)
            <= existing.len(),
    ensures
        first_free_from(folder, name, existing, m) <= existing.len(),
        !existing.contains(
            candidate_path(folder, name, first_free_from(folder, name, existing, m)),
        ),
    decreases existing.len() - m,
{
    let base = candidate_path(folder, name, 0).len() as int;
    let c = candidate_path(folder, name, m);
    if existing.contains(c) {
        lemma_candidate_len(folder, name, m);
        lemma_count_at_least(existing, c, base + m);
        lemma_first_free_is_free(folder, name, existing, m + 1);
    }
}

/// The recommended path is never one of the taken paths, and it is the
/// requested name with a number of underscores appended to its stem, at
/// most one more than there are taken paths: whatever follows the stem (the
/// extension) is kept verbatim.
pub proof fn lemma_recommended_path_free(
    folder: Seq<char>,
    name: Seq<char>,
    existing: Seq<Seq<char>>,
)
    ensures
        !existing.contains(recommended_path_spec(folder, name, existing)),
        exists|k: nat|
            k <= existing.len() && recommended_path_spec(folder, name, existing) == joined(
                folder,
                name.subrange(0, stem_end(name)) + underscores(k) + name.subrange(
                    stem_end(name),
                    name.len() as int,
                ),
            ),
{
    let base = candidate_path(folder, name, 0).len() as int;
    lemma_count_at_least(existing, Seq::empty(), base);
    lemma_first_free_is_free(folder, name, existing, 0);
    let k = first_free_from(folder, name, existing, 0);
    assert(recommended_path_spec(folder, name, existing) == candidate_path(folder, name, k));
}

/// Asking twice with the same folder, name and taken paths gives the same
/// path.
pub proof fn lemma_recommended_path_deterministic(
    folder: Seq<char>,
    name: Seq<char>,
    existing: Seq<Seq<char>>,
    r1: Seq<char>,
    r2: Seq<char>,
)
    requires
        r1 == recommended_path_spec(folder, name, existing),
        r2 == recommended_path_spec(folder, name, existing),
    ensures
        r1 == r2,
{
}

} // verus!
