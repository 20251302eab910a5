use vstd::prelude::*;
use vstd::string::*;

use crate::command::strings_view;

verus! {

/// `dir` joined with `name`: no separator is added after an empty directory or
/// after one that already ends with `sep`.
pub open spec fn joined(dir: Seq<char>, name: Seq<char>, sep: char) -> Seq<char> {
    if dir.len() == 0 {
        name
    } else if dir.last() == sep {
        dir + name
    } else {
        dir.push(sep) + name
    }
}

/// The file name of the controller executable.
pub open spec fn exe_name() -> Seq<char> {
    "relay.exe"@
}

pub open spec fn opt_candidate(dir: Option<Seq<char>>, sep: char) -> Seq<Seq<char>> {
    match dir {
        Some(d) => seq![joined(d, exe_name(), sep)],
        None => seq![],
    }
}

/// Where the executable is looked for, in order: the application's
/// executable directory, the running process's directory, then `bin` under
/// the install root, one level up and two levels up from it.
pub open spec fn candidates(
    app_dir: Option<Seq<char>>,
    exe_dir: Option<Seq<char>>,
    root: Seq<char>,
    sep: char,
) -> Seq<Seq<char>> {
    opt_candidate(app_dir, sep) + opt_candidate(exe_dir, sep) + seq![
        joined(joined(root, "bin"@, sep), exe_name(), sep),
        joined(joined(root, ".."@, sep), exe_name(), sep),
        joined(joined(joined(root, ".."@, sep), ".."@, sep), exe_name(), sep),
    ]
}

/// Joins `name` onto `dir` with the one-character separator `sep`.
pub fn join_path(dir: &str, name: &str, sep: &str) -> (r: String)
    requires
        sep@.len() == 1,
    ensures
        r@ == joined(dir@, name@, sep@[0]),
{
    let n = dir.unicode_len();
    if n == 0 {
        return String::from_str(name);
    }
    let mut r = String::from_str(dir);
    if dir.get_char(n - 1) != sep.get_char(0) {
        r.append(sep);
        assert(r@ =~= dir@.push(sep@[0]));
    }
    r.append(name);
    r
}

fn push_candidate(list: &mut Vec<String>, dir: Option<String>, sep: &str)
    requires
        sep@.len() == 1,
    ensures
        strings_view(final(list)@) == strings_view(old(list)@) + opt_candidate(
            crate::command::opt_view(dir),
            sep@[0],
        ),
{
    let ghost before = strings_view(list@);
    if let Some(d) = dir {
        list.push(join_path(d.as_str(), "relay.exe", sep));
    }
    assert(strings_view(list@) =~= before + opt_candidate(crate::command::opt_view(dir), sep@[0]));
}

/// The candidate locations of the executable, in the order they are checked.
pub fn candidate_paths(app_dir: Option<String>, exe_dir: Option<String>, root: &str, sep: &str) -> (r:
    Vec<String>)
    requires
        sep@.len() == 1,
    ensures
        strings_view(r@) == candidates(
            crate::command::opt_view(app_dir),
            crate::command::opt_view(exe_dir),
            root@,
            sep@[0],
        ),
{
    let mut list: Vec<String> = Vec::new();
    push_candidate(&mut list, app_dir, sep);
    push_candidate(&mut list, exe_dir, sep);
    let bin = join_path(root, "bin", sep);
    list.push(join_path(bin.as_str(), "relay.exe", sep));
    let up = join_path(root, "..", sep);
    list.push(join_path(up.as_str(), "relay.exe", sep));
    let up2 = join_path(up.as_str(), "..", sep);
    list.push(join_path(up2.as_str(), "relay.exe", sep));
    assert(strings_view(list@) =~= candidates(
        crate::command::opt_view(app_dir),
        crate::command::opt_view(exe_dir),
        root@,
        sep@[0],
    ));
    list
}

/// What a search does next, given the answers of the checks made so far.
#[derive(Debug, Clone, Copy)]
pub enum Probe {
    /// Check whether the candidate at this index exists.
    Check(usize),
    /// The candidate at this index exists: stop.
    Found(usize),
    /// Every candidate was checked and none exists.
    Exhausted,
}

/// The next step of a search over `count` candidates, where `answers[i]` says
/// whether candidate `i` was found to exist.
pub open spec fn probe_step(count: nat, answers: Seq<bool>) -> Probe {
    if answers.len() > 0 && answers.last() {
        Probe::Found((answers.len() - 1) as usize)
    } else if answers.len() < count {
        Probe::Check(answers.len() as usize)
    } else {
        Probe::Exhausted
    }
}

/// Answers that a search can have gathered: none beyond the candidates, and
/// every one but the last negative.
pub open spec fn answers_ok(count: nat, answers: Seq<bool>) -> bool {
    &&& answers.len() <= count
    &&& forall|j: int| 0 <= j < answers.len() - 1 ==> !#[trigger] answers[j]
}

/// Decides the next step of a search over `count` candidates.
pub fn next_probe(count: usize, answers: &Vec<bool>) -> (r: Probe)
    requires
        answers_ok(count as nat, answers@),
    ensures
        r == probe_step(count as nat, answers@),
{
    let n = answers.len();
    if n > 0 && answers[n - 1] {
        Probe::Found(n - 1)
    } else if n < count {
        Probe::Check(n)
    } else {
        Probe::Exhausted
    }
}

/// A search over candidates whose presence on disk is `present`, where
/// candidate `k` is the first present one, checks candidates `0` to `k` in
/// that order and then stops at `k`: no candidate after it is checked.
pub proof fn lemma_search_stops_at_first(present: Seq<bool>, k: int)
    requires
        0 <= k < present.len(),
        present[k],
        forall|j: int| 0 <= j < k ==> !#[trigger] present[j],
    ensures
        forall|m: int|
            0 <= m <= k ==> answers_ok(present.len(), #[trigger] present.take(m)) && probe_step(
                present.len(),
                present.take(m),
            ) == Probe::Check(m as usize),
        answers_ok(present.len(), present.take(k + 1)),
        probe_step(present.len(), present.take(k + 1)) == Probe::Found(k as usize),
{
    assert forall|m: int| 0 <= m <= k implies answers_ok(
        present.len(),
        #[trigger] present.take(m),
    ) && probe_step(present.len(), present.take(m)) == Probe::Check(m as usize) by {
        let a = present.take(m);
        if m > 0 {
            assert(a.last() == present[m - 1]);
        }
        assert forall|j: int| 0 <= j < a.len() - 1 implies !#[trigger] a[j] by {
            assert(a[j] == present[j]);
        }
    }
    let a = present.take(k + 1);
    assert(a.last() == present[k]);
    assert forall|j: int| 0 <= j < a.len() - 1 implies !#[trigger] a[j] by {
        assert(a[j] == present[j]);
    }
}

/// A search over candidates none of which is present checks every one of
/// them in order and then reports that none exists.
pub proof fn lemma_search_checks_all(present: Seq<bool>)
    requires
        forall|j: int| 0 <= j < present.len() ==> !#[trigger] present[j],
    ensures
        forall|m: int|
            0 <= m < present.len() ==> answers_ok(present.len(), #[trigger] present.take(m))
                && probe_step(present.len(), present.take(m)) == Probe::Check(m as usize),
        answers_ok(present.len(), present),
        probe_step(present.len(), present) == Probe::Exhausted,
{
    assert forall|m: int| 0 <= m < present.len() implies answers_ok(
        present.len(),
        #[trigger] present.take(m),
    ) && probe_step(present.len(), present.take(m)) == Probe::Check(m as usize) by {
        let a = present.take(m);
        if m > 0 {
            assert(a.last() == present[m - 1]);
        }
        assert forall|j: int| 0 <= j < a.len() - 1 implies !#[trigger] a[j] by {
            assert(a[j] == present[j]);
        }
    }
    if present.len() > 0 {
        assert(!present[present.len() - 1]);
    }
}

/// Relies on `std::path::Path::exists`: whether a file is present at `p`. The
/// answer depends on the disk at the time of the call, so nothing is stated
/// of it.
#[verifier::external_body]
fn path_exists(p: &String) -> (r: bool) {
    std::path::Path::new(p.as_str()).exists()
}

/// The first candidate that exists on disk, and the number of candidates that
/// were checked. Candidates are checked in order and none after the first one
/// found: when one is found it is the last one checked, otherwise every
/// candidate was checked. The answers of those checks are ones after which
/// `probe_step` stops where the search stopped.
pub fn first_existing(candidates: &Vec<String>) -> (r: (Option<String>, usize))
    ensures
        r.1 <= candidates@.len(),
        match r.0 {
            Some(p) => r.1 >= 1 && p@ == candidates@[r.1 - 1]@,
            None => r.1 == candidates@.len(),
        },
        exists|answers: Seq<bool>|
            #![trigger probe_step(candidates@.len(), answers)]
            answers.len() == r.1 && answers_ok(candidates@.len(), answers) && probe_step(
                candidates@.len(),
                answers,
            ) == match r.0 {
                Some(_) => Probe::Found((r.1 - 1) as usize),
                None => Probe::Exhausted,
            },
{
    let n = candidates.len();
    let mut answers: Vec<bool> = Vec::new();
    loop
        invariant
            n == candidates@.len(),
            answers_ok(n as nat, answers@),
        decreases n - answers@.len() + if answers@.len() > 0 && answers@.last() { 0int } else { 1 },
    {
        match next_probe(n, &answers) {
            Probe::Check(i) => {
                let present = path_exists(&candidates[i]);
                answers.push(present);
            },
            Probe::Found(i) => {
                return (Some(candidates[i].clone()), answers.len());
            },
            Probe::Exhausted => {
                return (None, answers.len());
            },
        }
    }
}

} // verus!

verus! {

/// The list of checked paths, one per line, each as `  - <path>`.
pub open spec fn checked_lines(paths: Seq<Seq<char>>) -> Seq<char>
    decreases paths.len(),
{
    if paths.len() == 0 {
        seq![]
    } else if paths.len() == 1 {
        "  - "@ + paths[0]
    } else {
        checked_lines(paths.drop_last()) + "\n"@ + "  - "@ + paths.last()
    }
}

/// What is reported when no candidate exists: every checked path, then how to
/// install the executable.
pub open spec fn not_found_message(paths: Seq<Seq<char>>) -> Seq<char> {
    "relay.exe not found. Checked:\n"@ + checked_lines(paths) + "\n\nFix: place relay.exe in src-tauri/bin/relay.exe (recommended) and set bundle.externalBin to [\"bin/relay.exe\"], or place relay.exe next to the running executable."@
}

/// Builds the report for a search that found none of `paths`.
pub fn not_found_report(paths: &Vec<String>) -> (r: String)
    ensures
        r@ == not_found_message(strings_view(paths@)),
{
    let mut lines = String::new();
    let mut i: usize = 0;
    while i < paths.len()
        invariant
            i <= paths@.len(),
            lines@ == checked_lines(strings_view(paths@.take(i as int))),
        decreases paths@.len() - i,
    {
        let ghost prev = strings_view(paths@.take(i as int));
        let ghost next = strings_view(paths@.take(i + 1));
        assert(next.drop_last() =~= prev);
        assert(next.last() == paths@[i as int]@);
        if i > 0 {
            lines.append("\n");
        }
        lines.append("  - ");
        lines.append(paths[i].as_str());
        proof {
            if i == 0 {
                assert(prev.len() == 0);
                assert(next[0] == paths@[0]@);
            }
        }
        i = i + 1;
    }
    assert(paths@.take(paths@.len() as int) =~= paths@);
    let mut r = String::from_str("relay.exe not found. Checked:\n");
    r.append(lines.as_str());
    r.append(
        "\n\nFix: place relay.exe in src-tauri/bin/relay.exe (recommended) and set bundle.externalBin to [\"bin/relay.exe\"], or place relay.exe next to the running executable.",
    );
    r
}

/// `a + b`, held at the largest `u64`.
pub open spec fn saturated(a: nat, b: nat) -> nat {
    if a + b > u64::MAX {
        u64::MAX as nat
    } else {
        a + b
    }
}

/// Finds the controller executable once and remembers where it is.
///
/// A found location is kept for the resolver's lifetime and never replaced; a
/// failed search is not remembered, so the next call searches again.
pub struct Resolver {
    cached: Option<String>,
    probes: u64,
}

impl Resolver {
    /// The remembered location, if one was found.
    pub closed spec fn cached_path(&self) -> Option<Seq<char>> {
        crate::command::opt_view(self.cached)
    }

    /// How many existence checks on disk this resolver has made, held at the
    /// largest `u64`.
    pub closed spec fn probe_count(&self) -> nat {
        self.probes as nat
    }

    /// A resolver that has found nothing and checked nothing yet.
    pub fn new() -> (r: Self)
        ensures
            r.cached_path() is None,
            r.probe_count() == 0,
    {
        Resolver { cached: None, probes: 0 }
    }

    /// The remembered location, if one was found.
    pub fn cached(&self) -> (r: Option<String>)
        ensures
            crate::command::opt_view(r) == self.cached_path(),
    {
        match &self.cached {
            Some(p) => Some(p.clone()),
            None => None,
        }
    }

    /// How many existence checks on disk this resolver has made.
    pub fn probes(&self) -> (r: u64)
        ensures
            r as nat == self.probe_count(),
    {
        self.probes
    }

    /// The location of the executable: the remembered one, without touching
    /// the disk, or else the first of `candidates` that exists, which is then
    /// remembered. When none exists the error lists every candidate.
    pub fn resolve(&mut self, candidates: &Vec<String>) -> (r: Result<String, String>)
        ensures
            resolve_post(*old(self), *final(self), strings_view(candidates@), r),
    {
        if let Some(p) = &self.cached {
            return Ok(p.clone());
        }
        let (found, checked) = first_existing(candidates);
        self.probes = self.probes.saturating_add(checked as u64);
        match found {
            Some(p) => {
                self.cached = Some(p.clone());
                proof {
                    assert(strings_view(candidates@)[checked - 1] == candidates@[checked - 1]@);
                }
                Ok(p)
            },
            None => Err(not_found_report(candidates)),
        }
    }
}

/// What one call of `resolve` does, from the resolver `before` to `after`,
/// given the candidate locations `paths`.
pub open spec fn resolve_post(
    before: Resolver,
    after: Resolver,
    paths: Seq<Seq<char>>,
    r: Result<String, String>,
) -> bool {
    match before.cached_path() {
        Some(p) => {
            &&& r is Ok
            &&& r->Ok_0@ == p
            &&& after.cached_path() == before.cached_path()
            &&& after.probe_count() == before.probe_count()
        },
        None => match r {
            Ok(p) => exists|k: int|
                0 <= k < paths.len() && #[trigger] paths[k] == p@ && after.cached_path() == Some(p@)
                    && after.probe_count() == saturated(before.probe_count(), (k + 1) as nat),
            Err(m) => {
                &&& m@ == not_found_message(paths)
                &&& after.cached_path() is None
                &&& after.probe_count() == saturated(before.probe_count(), paths.len())
            },
        },
    }
}

/// Once a location is found, every later call returns that same location and
/// makes no further check on disk.
pub proof fn lemma_resolution_cached(
    r0: Resolver,
    r1: Resolver,
    r2: Resolver,
    paths1: Seq<Seq<char>>,
    paths2: Seq<Seq<char>>,
    p: String,
    res2: Result<String, String>,
)
    requires
        resolve_post(r0, r1, paths1, Ok(p)),
        resolve_post(r1, r2, paths2, res2),
    ensures
        res2 is Ok,
        res2->Ok_0@ == p@,
        r2.cached_path() == Some(p@),
        r2.probe_count() == r1.probe_count(),
{
}

} // verus!
