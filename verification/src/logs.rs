//! Log persistence planning.
//!
//! One pipeline run persists the captured output of its steps under a
//! randomized run directory: step `i`'s non-empty stdout goes to
//! `<run_id>/<i>/1`, its non-empty stderr to `<run_id>/<i>/2`, both under
//! `<work_dir>/cache/logs/`.  Each written stream gets a retrieval URL
//! `<base_url>/logs?id=<rel>`; empty streams get neither file nor URL, so no
//! link dangles.  The writes themselves are I/O and live outside the crate:
//! `persist_plan` decides exactly which bytes go where and which URLs are
//! handed out, and the laws below show that a URL's id leads back to exactly
//! the bytes that were planned for it, and that distinct runs never share a
//! path.

use crate::executor::{StepResult, StepsResult};
use crate::text::{
    dec_rep, lemma_dec_rep_injective, lemma_dec_rep_no_slash, lemma_slash_split_unique, slash_free,
    slash_join, usize_to_string,
};
use vstd::prelude::*;
use vstd::string::StringExecFns;

verus! {

/// The persisted view of one step result: its description and the retrieval
/// URLs of whichever streams were non-empty.
pub struct StepLog {
    pub description: Option<String>,
    pub stdout: Option<String>,
    pub stderr: Option<String>,
}

/// One planned write: the path fragment under the log root, and the bytes
/// that belong there.
pub struct LogFile {
    pub rel_path: String,
    pub bytes: Vec<u8>,
}

/// The path fragment of stream `stream` of step `index` of a run:
/// `<run_id>/<index>/<stream>`.
pub open spec fn rel_path(run_id: Seq<char>, index: nat, stream: nat) -> Seq<char> {
    slash_join(run_id, slash_join(dec_rep(index), dec_rep(stream)))
}

/// The retrieval URL of a persisted stream.
pub open spec fn log_url(base: Seq<char>, rel: Seq<char>) -> Seq<char> {
    base + "/logs?id="@ + rel
}

/// Whether a captured stream holds any bytes.
pub open spec fn has_content(o: Option<Vec<u8>>) -> bool {
    o matches Some(b) && b@.len() > 0
}

/// The bytes of a captured stream.
pub open spec fn content_of(o: Option<Vec<u8>>) -> Seq<u8> {
    match o {
        Some(b) => b@,
        None => Seq::empty(),
    }
}

/// The (path, bytes) views of planned writes.
pub open spec fn file_views(files: Seq<LogFile>) -> Seq<(Seq<char>, Seq<u8>)> {
    files.map_values(|f: LogFile| (f.rel_path@, f.bytes@))
}

/// The writes one step result contributes: its non-empty streams, stdout
/// first.
pub open spec fn step_files(r: StepResult, run_id: Seq<char>, index: nat) -> Seq<
    (Seq<char>, Seq<u8>),
> {
    (if has_content(r.stdout) {
        seq![(rel_path(run_id, index, 1), content_of(r.stdout))]
    } else {
        Seq::empty()
    }) + (if has_content(r.stderr) {
        seq![(rel_path(run_id, index, 2), content_of(r.stderr))]
    } else {
        Seq::empty()
    })
}

/// The writes a whole run plans, in step order.
pub open spec fn plan_files(results: Seq<StepResult>, run_id: Seq<char>) -> Seq<
    (Seq<char>, Seq<u8>),
>
    decreases results.len(),
{
    if results.len() == 0 {
        Seq::empty()
    } else {
        plan_files(results.drop_last(), run_id) + step_files(
            results.last(),
            run_id,
            (results.len() - 1) as nat,
        )
    }
}

/// Whether one step's log entry reports exactly the step's outcome: the
/// step's description, and a URL per non-empty stream, none for an empty
/// one.
pub open spec fn log_matches(
    l: StepLog,
    r: StepResult,
    base: Seq<char>,
    run_id: Seq<char>,
    index: nat,
) -> bool {
    &&& l.description == r.description
    &&& if has_content(r.stdout) {
        l.stdout matches Some(u) && u@ == log_url(base, rel_path(run_id, index, 1))
    } else {
        l.stdout is None
    }
    &&& if has_content(r.stderr) {
        l.stderr matches Some(u) && u@ == log_url(base, rel_path(run_id, index, 2))
    } else {
        l.stderr is None
    }
}

fn copy_bytes(v: &Vec<u8>) -> (r: Vec<u8>)
    ensures
        r@ == v@,
{
    let mut r: Vec<u8> = Vec::new();
    let mut i: usize = 0;
    while i < v.len()
        invariant
            i <= v@.len(),
            r@ == v@.take(i as int),
        decreases v@.len() - i,
    {
        r.push(v[i]);
        i = i + 1;
        proof {
            assert(r@ =~= v@.take(i as int));
        }
    }
    proof {
        assert(v@.take(v@.len() as int) =~= v@);
    }
    r
}

/// Builds the `<run_id>/<index>/<stream>` path fragment.
pub fn make_rel_path(run_id: &str, index: usize, stream: usize) -> (r: String)
    ensures
        r@ == rel_path(run_id@, index as nat, stream as nat),
{
    let r = run_id
        .to_owned()
        .concat("/")
        .concat(usize_to_string(index).as_str())
        .concat("/")
        .concat(usize_to_string(stream).as_str());
    proof {
        reveal_strlit("/");
        assert("/"@ =~= seq!['/']);
        assert(r@ =~= rel_path(run_id@, index as nat, stream as nat));
    }
    r
}

/// Builds the retrieval URL `<base>/logs?id=<rel>`.
pub fn make_log_url(base: &str, rel: &str) -> (r: String)
    ensures
        r@ == log_url(base@, rel@),
{
    let r = base.to_owned().concat("/logs?id=").concat(rel);
    proof {
        assert(r@ =~= log_url(base@, rel@));
    }
    r
}

/// Where a persisted fragment lives on disk: `<work_dir>/cache/logs/<id>`.
/// The log retrieval endpoint resolves its `id` query parameter through this
/// same function, so a planned write and its later retrieval name one path.
pub fn log_file_path(work_dir: &str, id: &str) -> (r: String)
    ensures
        r@ == work_dir@ + "/cache/logs/"@ + id@,
{
    let r = work_dir.to_owned().concat("/cache/logs/").concat(id);
    proof {
        assert(r@ =~= work_dir@ + "/cache/logs/"@ + id@);
    }
    r
}

impl StepsResult {
    /// Plans the persistence of this run's captured output: which bytes go
    /// to which path under the log root, and one `StepLog` per executed
    /// step, holding a retrieval URL exactly for each non-empty stream.
    pub fn persist_plan(&self, base_url: &str, run_id: &str) -> (r: (Vec<LogFile>, Vec<StepLog>))
        ensures
            file_views(r.0@) == plan_files(self.action_result@, run_id@),
            r.1@.len() == self.action_result@.len(),
            forall|i: int|
                0 <= i < r.1@.len() ==> log_matches(
                    #[trigger] r.1@[i],
                    self.action_result@[i],
                    base_url@,
                    run_id@,
                    i as nat,
                ),
    {
        let mut files: Vec<LogFile> = Vec::new();
        let mut logs: Vec<StepLog> = Vec::new();
        let mut i: usize = 0;
        while i < self.action_result.len()
            invariant
                i <= self.action_result@.len(),
                file_views(files@) == plan_files(self.action_result@.take(i as int), run_id@),
                logs@.len() == i,
                forall|j: int|
                    0 <= j < i ==> log_matches(
                        #[trigger] logs@[j],
                        self.action_result@[j],
                        base_url@,
                        run_id@,
                        j as nat,
                    ),
            decreases self.action_result@.len() - i,
        {
            let res = &self.action_result[i];
            let description = match &res.description {
                Some(d) => Some(d.clone()),
                None => None,
            };
            let mut stdout_url: Option<String> = None;
            if let Some(b) = &res.stdout {
                if b.len() > 0 {
                    let rel = make_rel_path(run_id, i, 1);
                    stdout_url = Some(make_log_url(base_url, rel.as_str()));
                    files.push(LogFile { rel_path: rel, bytes: copy_bytes(b) });
                }
            }
            let mut stderr_url: Option<String> = None;
            if let Some(b) = &res.stderr {
                if b.len() > 0 {
                    let rel = make_rel_path(run_id, i, 2);
                    stderr_url = Some(make_log_url(base_url, rel.as_str()));
                    files.push(LogFile { rel_path: rel, bytes: copy_bytes(b) });
                }
            }
            logs.push(StepLog { description, stdout: stdout_url, stderr: stderr_url });
            i = i + 1;
            proof {
                let taken = self.action_result@.take(i as int);
                assert(taken.drop_last() =~= self.action_result@.take(i as int - 1));
                assert(taken.last() == self.action_result@[i as int - 1]);
                assert(file_views(files@) =~= plan_files(
                    self.action_result@.take(i as int - 1),
                    run_id@,
                ) + step_files(taken.last(), run_id@, (i - 1) as nat));
            }
        }
        proof {
            assert(self.action_result@.take(self.action_result@.len() as int)
                =~= self.action_result@);
        }
        (files, logs)
    }
}


/// The bytes planned for a path: those of the first planned write naming
/// it (the laws below show at most one write of a run ever names a path).
pub open spec fn file_lookup(files: Seq<(Seq<char>, Seq<u8>)>, rel: Seq<char>) -> Option<Seq<u8>>
    decreases files.len(),
{
    if files.len() == 0 {
        None
    } else if files.first().0 == rel {
        Some(files.first().1)
    } else {
        file_lookup(files.drop_first(), rel)
    }
}

/// Looking a path up in a concatenation: the earlier list wins when it
/// plans the path at all.
pub proof fn lemma_file_lookup_concat(
    a: Seq<(Seq<char>, Seq<u8>)>,
    b: Seq<(Seq<char>, Seq<u8>)>,
    rel: Seq<char>,
)
    ensures
        file_lookup(a + b, rel) == if file_lookup(a, rel) is Some {
            file_lookup(a, rel)
        } else {
            file_lookup(b, rel)
        },
    decreases a.len(),
{
    if a.len() == 0 {
        assert(a + b =~= b);
    } else {
        assert((a + b).drop_first() =~= a.drop_first() + b);
        lemma_file_lookup_concat(a.drop_first(), b, rel);
    }
}

/// Within one run, a path fragment names one step and one stream.
pub proof fn lemma_rel_path_injective(run_id: Seq<char>, i1: nat, s1: nat, i2: nat, s2: nat)
    requires
        slash_free(run_id),
        rel_path(run_id, i1, s1) == rel_path(run_id, i2, s2),
    ensures
        i1 == i2,
        s1 == s2,
{
    lemma_dec_rep_no_slash(i1);
    lemma_dec_rep_no_slash(i2);
    lemma_slash_split_unique(
        run_id,
        slash_join(dec_rep(i1), dec_rep(s1)),
        run_id,
        slash_join(dec_rep(i2), dec_rep(s2)),
    );
    lemma_slash_split_unique(dec_rep(i1), dec_rep(s1), dec_rep(i2), dec_rep(s2));
    lemma_dec_rep_injective(i1, i2);
    lemma_dec_rep_injective(s1, s2);
}

/// Looking a step's own paths up in the step's planned writes finds exactly
/// the step's captured bytes.
pub proof fn lemma_step_files_lookup(r: StepResult, run_id: Seq<char>, index: nat)
    requires
        slash_free(run_id),
    ensures
        has_content(r.stdout) ==> file_lookup(step_files(r, run_id, index), rel_path(run_id, index, 1))
            == Some(content_of(r.stdout)),
        has_content(r.stderr) ==> file_lookup(step_files(r, run_id, index), rel_path(run_id, index, 2))
            == Some(content_of(r.stderr)),
{
    if rel_path(run_id, index, 1) == rel_path(run_id, index, 2) {
        lemma_rel_path_injective(run_id, index, 1, index, 2);
        assert(false);
    }
    let out_part = if has_content(r.stdout) {
        seq![(rel_path(run_id, index, 1), content_of(r.stdout))]
    } else {
        Seq::<(Seq<char>, Seq<u8>)>::empty()
    };
    let err_part = if has_content(r.stderr) {
        seq![(rel_path(run_id, index, 2), content_of(r.stderr))]
    } else {
        Seq::<(Seq<char>, Seq<u8>)>::empty()
    };
    lemma_file_lookup_concat(out_part, err_part, rel_path(run_id, index, 1));
    lemma_file_lookup_concat(out_part, err_part, rel_path(run_id, index, 2));
    if has_content(r.stdout) {
        assert(out_part.drop_first() =~= Seq::<(Seq<char>, Seq<u8>)>::empty());
    }
    if has_content(r.stderr) {
        assert(err_part.drop_first() =~= Seq::<(Seq<char>, Seq<u8>)>::empty());
    }
    assert(file_lookup(Seq::<(Seq<char>, Seq<u8>)>::empty(), rel_path(run_id, index, 2)) is None);
    assert(file_lookup(out_part, rel_path(run_id, index, 2)) is None);
}

/// A run's planned writes never name a step the run did not execute.
pub proof fn lemma_plan_files_fresh(
    results: Seq<StepResult>,
    run_id: Seq<char>,
    index: nat,
    stream: nat,
)
    requires
        slash_free(run_id),
        index >= results.len(),
    ensures
        file_lookup(plan_files(results, run_id), rel_path(run_id, index, stream)) is None,
    decreases results.len(),
{
    if results.len() > 0 {
        let target = rel_path(run_id, index, stream);
        let prefix = plan_files(results.drop_last(), run_id);
        let lastf = step_files(results.last(), run_id, (results.len() - 1) as nat);
        lemma_file_lookup_concat(prefix, lastf, target);
        lemma_plan_files_fresh(results.drop_last(), run_id, index, stream);
        let idx = (results.len() - 1) as nat;
        if rel_path(run_id, idx, 1) == target {
            lemma_rel_path_injective(run_id, idx, 1, index, stream);
            assert(false);
        }
        if rel_path(run_id, idx, 2) == target {
            lemma_rel_path_injective(run_id, idx, 2, index, stream);
            assert(false);
        }
        let last = results.last();
        let out_part = if has_content(last.stdout) {
            seq![(rel_path(run_id, idx, 1), content_of(last.stdout))]
        } else {
            Seq::<(Seq<char>, Seq<u8>)>::empty()
        };
        let err_part = if has_content(last.stderr) {
            seq![(rel_path(run_id, idx, 2), content_of(last.stderr))]
        } else {
            Seq::<(Seq<char>, Seq<u8>)>::empty()
        };
        lemma_file_lookup_concat(out_part, err_part, target);
        if has_content(last.stdout) {
            assert(out_part.drop_first() =~= Seq::<(Seq<char>, Seq<u8>)>::empty());
        }
        if has_content(last.stderr) {
            assert(err_part.drop_first() =~= Seq::<(Seq<char>, Seq<u8>)>::empty());
        }
        assert(file_lookup(Seq::<(Seq<char>, Seq<u8>)>::empty(), target) is None);
        assert(file_lookup(lastf, target) is None);
    }
}

/// Log persistence round trip: for every step whose stream was captured
/// non-empty, the id issued in that stream's retrieval URL leads, through
/// the run's planned writes, to exactly the captured bytes.
pub proof fn lemma_log_round_trip(results: Seq<StepResult>, run_id: Seq<char>, i: int)
    requires
        slash_free(run_id),
        0 <= i < results.len(),
    ensures
        has_content(results[i].stdout) ==> file_lookup(
            plan_files(results, run_id),
            rel_path(run_id, i as nat, 1),
        ) == Some(content_of(results[i].stdout)),
        has_content(results[i].stderr) ==> file_lookup(
            plan_files(results, run_id),
            rel_path(run_id, i as nat, 2),
        ) == Some(content_of(results[i].stderr)),
    decreases results.len(),
{
    let prefix = plan_files(results.drop_last(), run_id);
    let lastf = step_files(results.last(), run_id, (results.len() - 1) as nat);
    lemma_file_lookup_concat(prefix, lastf, rel_path(run_id, i as nat, 1));
    lemma_file_lookup_concat(prefix, lastf, rel_path(run_id, i as nat, 2));
    if i == results.len() - 1 {
        lemma_plan_files_fresh(results.drop_last(), run_id, i as nat, 1);
        lemma_plan_files_fresh(results.drop_last(), run_id, i as nat, 2);
        lemma_step_files_lookup(results.last(), run_id, i as nat);
    } else {
        lemma_log_round_trip(results.drop_last(), run_id, i);
        assert(results.drop_last()[i] == results[i]);
    }
}

/// Every path a run plans lies under the run's own directory.
pub proof fn lemma_plan_files_prefix(results: Seq<StepResult>, run_id: Seq<char>, k: int)
    requires
        0 <= k < plan_files(results, run_id).len(),
    ensures
        exists|t: Seq<char>| plan_files(results, run_id)[k].0 == #[trigger] slash_join(run_id, t),
    decreases results.len(),
{
    if results.len() > 0 {
        let prefix = plan_files(results.drop_last(), run_id);
        let lastf = step_files(results.last(), run_id, (results.len() - 1) as nat);
        if k < prefix.len() {
            lemma_plan_files_prefix(results.drop_last(), run_id, k);
            let t = choose|t: Seq<char>| prefix[k].0 == #[trigger] slash_join(run_id, t);
            assert(plan_files(results, run_id)[k].0 == slash_join(run_id, t));
        } else {
            let entry = plan_files(results, run_id)[k];
            assert(entry == lastf[k - prefix.len()]);
            let idx = (results.len() - 1) as nat;
            if has_content(results.last().stdout) && k - prefix.len() == 0 {
                assert(entry.0 == slash_join(run_id, slash_join(dec_rep(idx), dec_rep(1))));
            } else if has_content(results.last().stdout) {
                assert(entry.0 == slash_join(run_id, slash_join(dec_rep(idx), dec_rep(2))));
            } else {
                assert(entry.0 == slash_join(run_id, slash_join(dec_rep(idx), dec_rep(2))));
            }
        }
    }
}

/// Concurrent runs are independent on disk: two runs with distinct
/// identifiers never plan a write to the same path, whatever either
/// executed.
pub proof fn lemma_runs_disjoint(
    results1: Seq<StepResult>,
    run_id1: Seq<char>,
    results2: Seq<StepResult>,
    run_id2: Seq<char>,
    k1: int,
    k2: int,
)
    requires
        slash_free(run_id1),
        slash_free(run_id2),
        run_id1 != run_id2,
        0 <= k1 < plan_files(results1, run_id1).len(),
        0 <= k2 < plan_files(results2, run_id2).len(),
    ensures
        plan_files(results1, run_id1)[k1].0 != plan_files(results2, run_id2)[k2].0,
{
    lemma_plan_files_prefix(results1, run_id1, k1);
    lemma_plan_files_prefix(results2, run_id2, k2);
    let t1 = choose|t: Seq<char>|
        plan_files(results1, run_id1)[k1].0 == #[trigger] slash_join(run_id1, t);
    let t2 = choose|t: Seq<char>|
        plan_files(results2, run_id2)[k2].0 == #[trigger] slash_join(run_id2, t);
    if plan_files(results1, run_id1)[k1].0 == plan_files(results2, run_id2)[k2].0 {
        lemma_slash_split_unique(run_id1, t1, run_id2, t2);
        assert(false);
    }
}

} // verus!
