use ci_relay::event::{acknowledgment, decide, failure_message, Decision, Payload, Repository, Sender, Workflow};

fn run(branch: &str, conclusion: Option<&str>) -> Workflow {
    Workflow {
        name: "CI".to_string(),
        head_branch: branch.to_string(),
        path: ".github/workflows/ci.yml".to_string(),
        event: "push".to_string(),
        status: "completed".to_string(),
        conclusion: conclusion.map(|c| c.to_string()),
        html_url: "https://example.com/runs/1".to_string(),
    }
}

fn payload(workflow_run: Option<Workflow>) -> Payload {
    Payload {
        repository: Repository { name: "relay".to_string(), full_name: "acme/relay".to_string() },
        workflow_run,
        sender: Sender { login: "octo".to_string(), id: 7 },
    }
}

#[test]
fn no_workflow_is_skipped() {
    let p = payload(None);
    assert_eq!(decide(&p), Decision::SkipNoWorkflow);
    assert_eq!(acknowledgment(&p), "Ok (no workflow)\n");
}

#[test]
fn not_concluded_is_skipped() {
    let p = payload(Some(run("main", None)));
    assert_eq!(decide(&p), Decision::SkipNotConcluded);
    assert_eq!(acknowledgment(&p), "Ok (not concluded workflow)\nReceived status 'completed' for workflow 'CI'\n");
}

#[test]
fn success_is_skipped_on_any_branch() {
    assert_eq!(decide(&payload(Some(run("main", Some("success"))))), Decision::SkipSuccess);
    assert_eq!(decide(&payload(Some(run("feature", Some("success"))))), Decision::SkipSuccess);
    let p = payload(Some(run("feature", Some("success"))));
    assert_eq!(acknowledgment(&p), "Received status 'completed' for workflow 'CI'\n");
}

#[test]
fn feature_branch_failure_is_skipped() {
    assert_eq!(decide(&payload(Some(run("feature", Some("failure"))))), Decision::SkipNonDefaultBranch);
    assert_eq!(decide(&payload(Some(run("mainline", Some("cancelled"))))), Decision::SkipNonDefaultBranch);
}

#[test]
fn default_branch_failure_is_sent() {
    assert_eq!(decide(&payload(Some(run("main", Some("failure"))))), Decision::Send);
    assert_eq!(decide(&payload(Some(run("master", Some("cancelled"))))), Decision::Send);
    assert_eq!(decide(&payload(Some(run("master", Some("Success"))))), Decision::Send);
}

#[test]
fn failure_message_holds_the_fields() {
    let p = payload(Some(run("main", Some("failure"))));
    let m = failure_message(&p.repository, p.workflow_run.as_ref().unwrap());
    assert_eq!(
        m,
        "\nFailure building repository relay (acme/relay)\nEvent: push\nWorkflow path: .github/workflows/ci.yml\nStatus: completed (failure)\nJob: https://example.com/runs/1\n"
    );
}
