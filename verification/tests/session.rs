use movedogs::error::UploadError;
use movedogs::scan::UploadPart;
use movedogs::session::{classify, Action, Outcome, Phase, Reply, Step, UploadSession};
use movedogs::upload::{MetadataRecord, UploadPlan};

fn plan() -> UploadPlan {
    UploadPlan {
        metadata: MetadataRecord {
            package_name: "foo".to_string(),
            version: "1.0.0".to_string(),
            license: String::new(),
            authors: "[]".to_string(),
            description: String::new(),
            module_names: "[\"coin\"]".to_string(),
            github: String::new(),
        },
        parts: vec![UploadPart {
            file_name: "foo+coin.md".to_string(),
            content: "# Module `0x1::coin`\n".to_string(),
        }],
    }
}

fn answer(status: u16, body: &str) -> Reply {
    Reply::Answer { status, body: body.to_string() }
}

#[test]
fn success_is_confirmed_with_the_body() {
    assert_eq!(
        classify(answer(200, "https://movedogs.org/foo")),
        Outcome::Confirmed(
            "Your package has been successfully uploaded to https://movedogs.org/foo.".to_string()
        )
    );
    assert_eq!(
        classify(answer(299, "")),
        Outcome::Confirmed("Your package has been successfully uploaded to .".to_string())
    );
}

#[test]
fn client_error_carries_the_body() {
    assert_eq!(
        classify(answer(400, "name taken")),
        Outcome::Failed(UploadError::RemoteClientError("name taken".to_string()))
    );
    assert_eq!(
        classify(answer(499, "")),
        Outcome::Failed(UploadError::RemoteClientError(String::new()))
    );
}

#[test]
fn server_error_and_silence_are_generic() {
    assert_eq!(classify(answer(500, "trace")), Outcome::Failed(UploadError::RemoteServerError));
    assert_eq!(classify(answer(599, "trace")), Outcome::Failed(UploadError::RemoteServerError));
    assert_eq!(classify(Reply::NoAnswer), Outcome::Failed(UploadError::RemoteServerError));
}

#[test]
fn other_statuses_go_unnoticed() {
    assert_eq!(classify(answer(199, "x")), Outcome::Unnoticed);
    assert_eq!(classify(answer(300, "x")), Outcome::Unnoticed);
    assert_eq!(classify(answer(399, "x")), Outcome::Unnoticed);
    assert_eq!(classify(answer(600, "x")), Outcome::Unnoticed);
    assert_eq!(classify(answer(0, "x")), Outcome::Unnoticed);
}

#[test]
fn both_requests_succeed() {
    let mut session = UploadSession::new(plan(), false);
    assert_eq!(session.pending(), Action::PostMetadata);
    let first = session.handle(answer(201, "a"));
    assert_eq!(first.action, Action::PostDocuments);
    assert_eq!(session.phase, Phase::Documents);
    let second = session.handle(answer(200, "b"));
    assert_eq!(
        second,
        Step {
            outcome: Outcome::Confirmed(
                "Your package has been successfully uploaded to b.".to_string()
            ),
            action: Action::Stop,
        }
    );
    assert_eq!(session.phase, Phase::Finished);
    assert_eq!(session.result(), Ok(()));
}

#[test]
fn documents_are_sent_after_failed_metadata() {
    let mut session = UploadSession::new(plan(), false);
    let first = session.handle(answer(404, "no such package"));
    assert_eq!(
        first,
        Step {
            outcome: Outcome::Failed(UploadError::RemoteClientError("no such package".to_string())),
            action: Action::PostDocuments,
        }
    );
    let second = session.handle(answer(200, "ok"));
    assert_eq!(second.action, Action::Stop);
    assert_eq!(
        session.result(),
        Err(UploadError::RemoteClientError("no such package".to_string()))
    );
}

#[test]
fn first_failure_is_the_result() {
    let mut session = UploadSession::new(plan(), false);
    session.handle(Reply::NoAnswer);
    session.handle(answer(400, "bad form"));
    assert_eq!(session.result(), Err(UploadError::RemoteServerError));

    let mut session = UploadSession::new(plan(), false);
    session.handle(answer(200, "ok"));
    session.handle(answer(400, "bad form"));
    assert_eq!(session.result(), Err(UploadError::RemoteClientError("bad form".to_string())));
}

#[test]
fn failed_metadata_may_end_the_session() {
    let mut session = UploadSession::new(plan(), true);
    let first = session.handle(answer(500, ""));
    assert_eq!(first.action, Action::Stop);
    assert_eq!(session.phase, Phase::Finished);
    assert_eq!(session.result(), Err(UploadError::RemoteServerError));

    let mut session = UploadSession::new(plan(), true);
    assert_eq!(session.handle(answer(200, "x")).action, Action::PostDocuments);
    assert_eq!(session.handle(answer(302, "x")).action, Action::Stop);
    assert_eq!(session.result(), Ok(()));
}

#[test]
fn finished_session_takes_no_answer() {
    let mut session = UploadSession::new(plan(), false);
    session.handle(answer(200, "a"));
    session.handle(answer(200, "b"));
    let before = session.clone();
    let step = session.handle(answer(500, "late"));
    assert_eq!(step, Step { outcome: Outcome::Unnoticed, action: Action::Stop });
    assert_eq!(session, before);
    assert_eq!(session.plan, plan());
    assert_eq!(session.result(), Ok(()));
}
