use vstd::prelude::*;

verus! {

/// What the search for a usable binary does next, over a list of candidates
/// given by their positions.
#[derive(PartialEq, Eq, Structural, Clone, Copy, Debug)]
pub enum LocateStep {
    /// Run the candidate at this position with `-h` and report whether it
    /// started and exited with status 0.
    Probe(usize),
    /// The candidate at this position is the binary to use.
    Found(usize),
    /// No candidate worked.
    NotFound,
}

/// The first step of a search over `n` candidates.
pub open spec fn first_step(n: nat) -> LocateStep {
    if n == 0 {
        LocateStep::NotFound
    } else {
        LocateStep::Probe(0)
    }
}

/// The step after the candidate at `i`, of `n`, was probed with outcome `ok`.
pub open spec fn step_after(n: nat, i: nat, ok: bool) -> LocateStep {
    if ok {
        LocateStep::Found(i as usize)
    } else if i + 1 < n {
        LocateStep::Probe((i + 1) as usize)
    } else {
        LocateStep::NotFound
    }
}

/// Where the search ends when it is at `step` and each probe of candidate
/// `j` has outcome `probes[j]`.
pub open spec fn search_from(probes: Seq<bool>, step: LocateStep) -> LocateStep
    decreases probes.len() - match step {
        LocateStep::Probe(i) => i as int,
        _ => probes.len() as int,
    },
{
    match step {
        LocateStep::Probe(i) => if i < probes.len() && probes.len() <= usize::MAX {
            search_from(probes, step_after(probes.len(), i as nat, probes[i as int]))
        } else {
            LocateStep::NotFound
        },
        _ => step,
    }
}

/// The position of the first candidate whose probe succeeds, searching from
/// position `i`.
pub open spec fn first_ok_from(probes: Seq<bool>, i: int) -> Option<int>
    decreases probes.len() - i,
{
    if i < 0 || i >= probes.len() {
        None
    } else if probes[i] {
        Some(i)
    } else {
        first_ok_from(probes, i + 1)
    }
}

/// The step with which a search over `n` candidates begins.
pub fn locate_start(n: usize) -> (r: LocateStep)
    ensures
        r == first_step(n as nat),
{
    if n == 0 {
        LocateStep::NotFound
    } else {
        LocateStep::Probe(0)
    }
}

/// The step that follows the probe of candidate `i` of `n`: a success ends
/// the search there; a failure moves on to the next candidate, or ends the
/// search without a binary after the last one.
pub fn locate_next(n: usize, i: usize, ok: bool) -> (r: LocateStep)
    requires
        i < n,
    ensures
        r == step_after(n as nat, i as nat, ok),
{
    if ok {
        LocateStep::Found(i)
    } else if i + 1 < n {
        LocateStep::Probe(i + 1)
    } else {
        LocateStep::NotFound
    }
}

proof fn lemma_search_from(probes: Seq<bool>, i: int)
    requires
        0 <= i < probes.len(),
        probes.len() <= usize::MAX,
    ensures
        search_from(probes, LocateStep::Probe(i as usize)) == match first_ok_from(probes, i) {
            Some(k) => LocateStep::Found(k as usize),
            None => LocateStep::NotFound,
        },
    decreases probes.len() - i,
{
    lemma_first_ok(probes, i);
    let s = LocateStep::Probe(i as usize);
    let next = step_after(probes.len(), i as nat, probes[i]);
    assert(search_from(probes, s) == search_from(probes, next));
    if probes[i] {
        assert(next == LocateStep::Found(i as usize));
    } else if i + 1 < probes.len() {
        assert(next == LocateStep::Probe((i + 1) as usize));
        lemma_search_from(probes, i + 1);
    } else {
        assert(next == LocateStep::NotFound);
        assert(first_ok_from(probes, i + 1) is None);
    }
}

/// Whatever the probes report, the search ends on the first candidate, in
/// list order, whose probe succeeded, and without a binary exactly when none
/// did.
pub proof fn lemma_search_finds_first(probes: Seq<bool>)
    requires
        probes.len() <= usize::MAX,
    ensures
        search_from(probes, first_step(probes.len())) == match first_ok_from(probes, 0) {
            Some(k) => LocateStep::Found(k as usize),
            None => LocateStep::NotFound,
        },
        first_ok_from(probes, 0) matches Some(k) ==> 0 <= k < probes.len() && probes[k]
            && forall|j: int| 0 <= j < k ==> !probes[j],
        first_ok_from(probes, 0) is None ==> forall|j: int| 0 <= j < probes.len() ==> !probes[j],
{
    if probes.len() > 0 {
        lemma_search_from(probes, 0);
    }
    lemma_first_ok(probes, 0);
}

proof fn lemma_first_ok(probes: Seq<bool>, i: int)
    requires
        0 <= i,
    ensures
        first_ok_from(probes, i) matches Some(k) ==> i <= k < probes.len() && probes[k]
            && forall|j: int| i <= j < k ==> !probes[j],
        first_ok_from(probes, i) is None ==> forall|j: int| i <= j < probes.len() ==> !probes[j],
    decreases probes.len() - i,
{
    if i < probes.len() && !probes[i] {
        lemma_first_ok(probes, i + 1);
    }
}

/// How the standard library's `Debug` writes a path given as text: between
/// double quotes, with quotes, backslashes and control characters escaped.
pub uninterp spec fn path_debug_of(path: Seq<char>) -> Seq<char>;

/// Relies on `<std::path::Path as Debug>::fmt`, which is how a list of
/// paths writes each of its items; the text depends on the path alone.
#[verifier::external_body]
fn path_debug(path: &str) -> (r: String)
    ensures
        r@ == path_debug_of(path@),
{
    format!("{:?}", std::path::Path::new(path))
}

/// The paths as `Debug` writes them, in order, separated by `, `.
pub open spec fn path_list(paths: Seq<Seq<char>>) -> Seq<char>
    decreases paths.len(),
{
    if paths.len() == 0 {
        Seq::empty()
    } else if paths.len() == 1 {
        path_debug_of(paths[0])
    } else {
        path_list(paths.drop_last()) + seq![',', ' '] + path_debug_of(paths.last())
    }
}

/// The report of a search that found no usable binary among `paths`.
pub open spec fn not_found_text(paths: Seq<Seq<char>>) -> Seq<char> {
    "failed to find a valid ffmpeg binary. checked paths: ["@ + path_list(paths) + "]"@
}

/// `p` stands somewhere in `t`.
pub open spec fn occurs_in(p: Seq<char>, t: Seq<char>) -> bool {
    exists|k: int| 0 <= k && k + p.len() <= t.len() && #[trigger] t.subrange(k, k + p.len()) == p
}

/// The report of a search that found no usable binary, naming every path
/// that was checked, in order.
pub fn not_found_message(paths: &Vec<String>) -> (r: String)
    ensures
        r@ == not_found_text(paths.deep_view()),
{
    let ghost pv = paths.deep_view();
    let mut r = String::from_str("failed to find a valid ffmpeg binary. checked paths: [");
    let mut i: usize = 0;
    while i < paths.len()
        invariant
            i <= paths.len(),
            pv == paths.deep_view(),
            r@ == "failed to find a valid ffmpeg binary. checked paths: ["@ + path_list(pv.take(i as int)),
        decreases paths.len() - i,
    {
        proof {
            reveal_strlit(", ");
            assert(pv.take(i + 1).drop_last() =~= pv.take(i as int));
        }
        if i > 0 {
            r.append(", ");
        }
        let item = path_debug(paths[i].as_str());
        r.append(item.as_str());
        proof {
            if i == 0 {
                assert(path_list(pv.take(1)) == path_debug_of(pv[0]));
            }
            assert(r@ =~= "failed to find a valid ffmpeg binary. checked paths: ["@ + path_list(pv.take(i + 1)));
        }
        i = i + 1;
    }
    r.append("]");
    assert(pv.take(paths.len() as int) =~= pv);
    r
}

proof fn lemma_occurs_within(p: Seq<char>, a: Seq<char>, x: Seq<char>, y: Seq<char>)
    requires
        occurs_in(p, a),
    ensures
        occurs_in(p, x + a + y),
{
    let k = choose|k: int| 0 <= k && k + p.len() <= a.len() && #[trigger] a.subrange(k, k + p.len()) == p;
    let t = x + a + y;
    assert(t.subrange(x.len() + k, x.len() + k + p.len()) =~= p);
}

proof fn lemma_path_list_names_all(paths: Seq<Seq<char>>)
    ensures
        forall|i: int| 0 <= i < paths.len() ==> occurs_in(path_debug_of(#[trigger] paths[i]), path_list(paths)),
    decreases paths.len(),
{
    if paths.len() == 1 {
        let q = path_debug_of(paths[0]);
        assert(q.subrange(0, 0 + q.len() as int) =~= q);
        assert(occurs_in(q, q));
    } else if paths.len() > 1 {
        let init = paths.drop_last();
        lemma_path_list_names_all(init);
        let last = paths.last();
        let tail = seq![',', ' '] + path_debug_of(last);
        assert forall|i: int| 0 <= i < paths.len() implies occurs_in(path_debug_of(#[trigger] paths[i]), path_list(paths)) by {
            if i < paths.len() - 1 {
                assert(paths[i] == init[i]);
                lemma_occurs_within(path_debug_of(paths[i]), path_list(init), Seq::empty(), tail);
                assert(Seq::<char>::empty() + path_list(init) + tail =~= path_list(paths));
            } else {
                let q = path_debug_of(last);
                assert(occurs_in(q, q)) by {
                    assert(q.subrange(0, 0 + q.len() as int) =~= q);
                }
                lemma_occurs_within(q, path_debug_of(last), path_list(init) + seq![',', ' '], Seq::empty());
                assert(path_list(init) + seq![',', ' '] + path_debug_of(last) + Seq::<char>::empty() =~= path_list(paths));
            }
        }
    }
}

/// The report of a failed search names every path that was checked, as
/// `Debug` writes it.
pub proof fn lemma_not_found_names_all(paths: Seq<Seq<char>>)
    ensures
        forall|i: int| 0 <= i < paths.len() ==> occurs_in(path_debug_of(#[trigger] paths[i]), not_found_text(paths)),
{
    lemma_path_list_names_all(paths);
    assert forall|i: int| 0 <= i < paths.len() implies occurs_in(path_debug_of(#[trigger] paths[i]), not_found_text(paths)) by {
        lemma_occurs_within(path_debug_of(paths[i]), path_list(paths),
            "failed to find a valid ffmpeg binary. checked paths: ["@, "]"@);
    }
}

} // verus!
