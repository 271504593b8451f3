//! The workflow-run event and the rules that decide whether it is worth a
//! notification.

use vstd::prelude::*;

verus! {

#[derive(Debug)]
pub struct Repository {
    pub name: String,
    pub full_name: String,
}

/// One run of a CI workflow. `conclusion` is absent while the run is going on.
#[derive(Debug)]
pub struct Workflow {
    pub name: String,
    pub head_branch: String,
    pub path: String,
    pub event: String,
    pub status: String,
    pub conclusion: Option<String>,
    pub html_url: String,
}

#[derive(Debug)]
pub struct Sender {
    pub login: String,
    pub id: u64,
}

/// A decoded webhook event. An event without a workflow run is valid too.
#[derive(Debug)]
pub struct Payload {
    pub repository: Repository,
    pub workflow_run: Option<Workflow>,
    pub sender: Sender,
}

/// What an event calls for.
#[derive(Clone, Copy, Debug, PartialEq, Eq, Structural)]
pub enum Decision {
    SkipNoWorkflow,
    SkipNotConcluded,
    SkipSuccess,
    SkipNonDefaultBranch,
    Send,
}

pub open spec fn is_default_branch(branch: Seq<char>) -> bool {
    branch == "main"@ || branch == "master"@
}

/// The rules, first match wins: no run; run not concluded; run succeeded;
/// failure off the default branch; otherwise a failure worth sending.
pub open spec fn decision_of(p: Payload) -> Decision {
    match p.workflow_run {
        None => Decision::SkipNoWorkflow,
        Some(run) => match run.conclusion {
            None => Decision::SkipNotConcluded,
            Some(c) => if c@ == "success"@ {
                Decision::SkipSuccess
            } else if !is_default_branch(run.head_branch@) {
                Decision::SkipNonDefaultBranch
            } else {
                Decision::Send
            },
        },
    }
}

/// The line that reports a run's status and name.
pub open spec fn received_text(run: Workflow) -> Seq<char> {
    "Received status '"@ + run.status@ + "' for workflow '"@ + run.name@ + "'\n"@
}

/// The text that acknowledges an event, whatever was decided for it.
pub open spec fn acknowledgment_text(p: Payload) -> Seq<char> {
    match p.workflow_run {
        None => "Ok (no workflow)\n"@,
        Some(run) => match run.conclusion {
            None => "Ok (not concluded workflow)\n"@ + received_text(run),
            Some(_) => received_text(run),
        },
    }
}

pub open spec fn conclusion_text(run: Workflow) -> Seq<char> {
    match run.conclusion {
        None => Seq::empty(),
        Some(c) => c@,
    }
}

/// The notification sent for a failed run.
pub open spec fn failure_text(repository: Repository, run: Workflow) -> Seq<char> {
    "\nFailure building repository "@ + repository.name@ + " ("@ + repository.full_name@
        + ")\nEvent: "@ + run.event@ + "\nWorkflow path: "@ + run.path@ + "\nStatus: "@
        + run.status@ + " ("@ + conclusion_text(run) + ")\nJob: "@ + run.html_url@ + "\n"@
}

fn text_is(s: &String, word: &str) -> (r: bool)
    ensures
        r == (s@ == word@),
{
    let w = String::from_str(word);
    s.eq(&w)
}

/// Applies the rules to an event.
pub fn decide(p: &Payload) -> (d: Decision)
    ensures
        d == decision_of(*p),
{
    match &p.workflow_run {
        None => Decision::SkipNoWorkflow,
        Some(run) => match &run.conclusion {
            None => Decision::SkipNotConcluded,
            Some(c) => {
                if text_is(c, "success") {
                    Decision::SkipSuccess
                } else if !text_is(&run.head_branch, "main") && !text_is(&run.head_branch, "master") {
                    Decision::SkipNonDefaultBranch
                } else {
                    Decision::Send
                }
            },
        },
    }
}

fn received_line(run: &Workflow) -> (r: String)
    ensures
        r@ == received_text(*run),
{
    let mut r = String::from_str("Received status '");
    r.append(run.status.as_str());
    r.append("' for workflow '");
    r.append(run.name.as_str());
    r.append("'\n");
    r
}

/// The acknowledgment returned for an event: a fixed text where there is no
/// run, else the run's status and name, marked where it has not concluded.
pub fn acknowledgment(p: &Payload) -> (r: String)
    ensures
        r@ == acknowledgment_text(*p),
{
    match &p.workflow_run {
        None => String::from_str("Ok (no workflow)\n"),
        Some(run) => match &run.conclusion {
            None => {
                let mut r = String::from_str("Ok (not concluded workflow)\n");
                let line = received_line(run);
                r.append(line.as_str());
                r
            },
            Some(_) => received_line(run),
        },
    }
}

/// The notification text for a failed run of a repository's workflow.
pub fn failure_message(repository: &Repository, run: &Workflow) -> (r: String)
    ensures
        r@ == failure_text(*repository, *run),
{
    let mut m = String::from_str("\nFailure building repository ");
    m.append(repository.name.as_str());
    m.append(" (");
    m.append(repository.full_name.as_str());
    m.append(")\nEvent: ");
    m.append(run.event.as_str());
    m.append("\nWorkflow path: ");
    m.append(run.path.as_str());
    m.append("\nStatus: ");
    m.append(run.status.as_str());
    m.append(" (");
    match &run.conclusion {
        None => {},
        Some(c) => m.append(c.as_str()),
    }
    m.append(")\nJob: ");
    m.append(run.html_url.as_str());
    m.append("\n");
    m
}


/// `t` occurs in `s` as a contiguous piece.
pub open spec fn contains(s: Seq<char>, t: Seq<char>) -> bool {
    exists|k: int| 0 <= k && k + t.len() <= s.len() && #[trigger] s.subrange(k, k + t.len()) == t
}

proof fn lemma_contains_piece(a: Seq<char>, t: Seq<char>, b: Seq<char>)
    ensures
        contains(a + t + b, t),
{
    let s = a + t + b;
    assert(s.subrange(a.len() as int, (a.len() + t.len()) as int) =~= t);
}

proof fn lemma_contains_extend(s: Seq<char>, t: Seq<char>, u: Seq<char>)
    requires
        contains(s, t),
    ensures
        contains(s + u, t),
{
    let k = choose|k: int| 0 <= k && k + t.len() <= s.len() && #[trigger] s.subrange(k, k + t.len()) == t;
    assert((s + u).subrange(k, k + t.len()) =~= s.subrange(k, k + t.len()));
}

/// An event without a workflow run is skipped, whatever else it holds.
pub proof fn lemma_no_workflow(p: Payload)
    requires
        p.workflow_run is None,
    ensures
        decision_of(p) == Decision::SkipNoWorkflow,
{
}

/// A run without a conclusion is skipped.
pub proof fn lemma_not_concluded(p: Payload)
    requires
        p.workflow_run matches Some(run) && run.conclusion is None,
    ensures
        decision_of(p) == Decision::SkipNotConcluded,
{
}

/// A successful run is skipped, on any branch.
pub proof fn lemma_success(p: Payload)
    requires
        p.workflow_run matches Some(run) && run.conclusion matches Some(c) && c@ == "success"@,
    ensures
        decision_of(p) == Decision::SkipSuccess,
{
}

/// A run that did not succeed, off `main` and `master`, is skipped.
pub proof fn lemma_feature_branch_failure(p: Payload)
    requires
        p.workflow_run matches Some(run) && run.conclusion matches Some(c) && c@ != "success"@
            && !is_default_branch(run.head_branch@),
    ensures
        decision_of(p) == Decision::SkipNonDefaultBranch,
{
}

/// A run that did not succeed on `main` or `master` is sent, and its message
/// holds the repository's full name, the event, the workflow path, the status,
/// the conclusion and the run's URL as they came.
pub proof fn lemma_default_branch_failure(p: Payload)
    requires
        p.workflow_run matches Some(run) && run.conclusion matches Some(c) && c@ != "success"@
            && is_default_branch(run.head_branch@),
    ensures
        decision_of(p) == Decision::Send,
        ({
            let run = p.workflow_run->Some_0;
            let m = failure_text(p.repository, run);
            &&& contains(m, p.repository.full_name@)
            &&& contains(m, run.event@)
            &&& contains(m, run.path@)
            &&& contains(m, run.status@)
            &&& contains(m, run.conclusion->Some_0@)
            &&& contains(m, run.html_url@)
        }),
{
    let repo = p.repository;
    let run = p.workflow_run->Some_0;
    let s0 = "\nFailure building repository "@ + repo.name@ + " ("@;
    let s1 = s0 + repo.full_name@;
    let s2 = s1 + ")\nEvent: "@;
    let s3 = s2 + run.event@;
    let s4 = s3 + "\nWorkflow path: "@;
    let s5 = s4 + run.path@;
    let s6 = s5 + "\nStatus: "@;
    let s7 = s6 + run.status@;
    let s8 = s7 + " ("@;
    let s9 = s8 + conclusion_text(run);
    let s10 = s9 + ")\nJob: "@;
    let s11 = s10 + run.html_url@;
    let m = s11 + "\n"@;
    assert(m == failure_text(repo, run));
    lemma_contains_piece(s0, repo.full_name@, Seq::empty());
    assert(s0 + repo.full_name@ + Seq::<char>::empty() =~= s1);
    lemma_contains_piece(s2, run.event@, Seq::empty());
    assert(s2 + run.event@ + Seq::<char>::empty() =~= s3);
    lemma_contains_piece(s4, run.path@, Seq::empty());
    assert(s4 + run.path@ + Seq::<char>::empty() =~= s5);
    lemma_contains_piece(s6, run.status@, Seq::empty());
    assert(s6 + run.status@ + Seq::<char>::empty() =~= s7);
    lemma_contains_piece(s8, conclusion_text(run), Seq::empty());
    assert(s8 + conclusion_text(run) + Seq::<char>::empty() =~= s9);
    lemma_contains_piece(s10, run.html_url@, Seq::empty());
    assert(s10 + run.html_url@ + Seq::<char>::empty() =~= s11);
    lemma_contains_extend(s1, repo.full_name@, ")\nEvent: "@);
    lemma_contains_extend(s2, repo.full_name@, run.event@);
    lemma_contains_extend(s3, repo.full_name@, "\nWorkflow path: "@);
    lemma_contains_extend(s3, run.event@, "\nWorkflow path: "@);
    lemma_contains_extend(s4, repo.full_name@, run.path@);
    lemma_contains_extend(s4, run.event@, run.path@);
    lemma_contains_extend(s5, repo.full_name@, "\nStatus: "@);
    lemma_contains_extend(s5, run.event@, "\nStatus: "@);
    lemma_contains_extend(s5, run.path@, "\nStatus: "@);
    lemma_contains_extend(s6, repo.full_name@, run.status@);
    lemma_contains_extend(s6, run.event@, run.status@);
    lemma_contains_extend(s6, run.path@, run.status@);
    lemma_contains_extend(s7, repo.full_name@, " ("@);
    lemma_contains_extend(s7, run.event@, " ("@);
    lemma_contains_extend(s7, run.path@, " ("@);
    lemma_contains_extend(s7, run.status@, " ("@);
    lemma_contains_extend(s8, repo.full_name@, conclusion_text(run));
    lemma_contains_extend(s8, run.event@, conclusion_text(run));
    lemma_contains_extend(s8, run.path@, conclusion_text(run));
    lemma_contains_extend(s8, run.status@, conclusion_text(run));
    lemma_contains_extend(s9, repo.full_name@, ")\nJob: "@);
    lemma_contains_extend(s9, run.event@, ")\nJob: "@);
    lemma_contains_extend(s9, run.path@, ")\nJob: "@);
    lemma_contains_extend(s9, run.status@, ")\nJob: "@);
    lemma_contains_extend(s9, conclusion_text(run), ")\nJob: "@);
    lemma_contains_extend(s10, repo.full_name@, run.html_url@);
    lemma_contains_extend(s10, run.event@, run.html_url@);
    lemma_contains_extend(s10, run.path@, run.html_url@);
    lemma_contains_extend(s10, run.status@, run.html_url@);
    lemma_contains_extend(s10, conclusion_text(run), run.html_url@);
    lemma_contains_extend(s11, repo.full_name@, "\n"@);
    lemma_contains_extend(s11, run.event@, "\n"@);
    lemma_contains_extend(s11, run.path@, "\n"@);
    lemma_contains_extend(s11, run.status@, "\n"@);
    lemma_contains_extend(s11, conclusion_text(run), "\n"@);
    lemma_contains_extend(s11, run.html_url@, "\n"@);
}

} // verus!
