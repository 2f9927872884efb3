use file_converter::dispatch::{claim, deliver, dispatch, is_finished_event, Callback, DispatchError};
use file_converter::download::download_headers;
use file_converter::errors::{internal_error, ConverterError};
use file_converter::notification::render_decimal;
use file_converter::response::{find_export_task, CreateResponse, Job, JobTask, TaskFile, TaskResult};
use file_converter::search::SearchQuery;
use file_converter::session::{parse_session_id, render_frames, Frame, Phase, SocketSession};
use file_converter::submit::{check_upload, record_created_job};
use file_converter::text::split_after_last;
use file_converter::{AlreadyConnected, ConnectionRegistry, DuplicateJob, JobId, JobRegistry, JobStatus, SocketMessage};
use hyper::StatusCode;

fn task(operation: &str, files: Vec<TaskFile>) -> JobTask {
    JobTask {
        id: format!("{}-task", operation),
        operation: operation.to_string(),
        result: TaskResult { files },
    }
}

fn file(name: &str, url: Option<&str>) -> TaskFile {
    TaskFile {
        file_name: name.to_string(),
        url: url.map(|u| u.to_string()),
    }
}

fn finished(job_id: &str, tasks: Vec<JobTask>) -> Callback {
    Callback {
        event: Some("job.finished".to_string()),
        job: Some(Job { id: job_id.to_string(), tasks }),
    }
}

fn export_callback(job_id: &str) -> Callback {
    finished(
        job_id,
        vec![task("export/url", vec![file("out.pdf", Some("https://x/out.pdf"))])],
    )
}

fn connect(conns: &mut ConnectionRegistry, id: &str) -> (SocketSession, Option<String>) {
    let mut session = SocketSession::new();
    let reply = session.on_frame(conns, Frame::Text(format!("session-id;{}", id)));
    (session, reply)
}

fn submitted(job_id: &str, owner: &str) -> JobRegistry {
    let mut jobs = JobRegistry::new();
    assert_eq!(jobs.register(JobId::from(job_id.to_string()), owner.to_string()), Ok(()));
    jobs
}

#[test]
fn test_errors() {
    let download_error = internal_error(ConverterError::Download("Unable to download file!"));
    assert_eq!(StatusCode::from_u16(download_error.0).unwrap(), StatusCode::INTERNAL_SERVER_ERROR);
    assert_eq!(download_error, (StatusCode::INTERNAL_SERVER_ERROR.as_u16(), "Unable to download file!".into()));

    let convert_error = internal_error(ConverterError::Convert("Unable to convert file!"));
    assert_eq!(convert_error, (StatusCode::INTERNAL_SERVER_ERROR.as_u16(), "Unable to convert file!".into()));

    let database_error = internal_error(ConverterError::DatabaseConnection("Unable to connect to the database!"));
    assert_eq!(database_error, (StatusCode::INTERNAL_SERVER_ERROR.as_u16(), "Unable to connect to the database!".into()));

    let dependency_error = internal_error(ConverterError::MissingDependencies("You are missing required dependencies!"));
    assert_eq!(dependency_error, (StatusCode::FAILED_DEPENDENCY.as_u16(), "You are missing required dependencies!".into()));
}

#[test]
fn connected_owner_receives_completed_frame() {
    let mut jobs = submitted("job-1", "sess-A");
    let mut conns = ConnectionRegistry::new();
    let (session, reply) = connect(&mut conns, "sess-A");
    assert!(reply.is_none());
    assert_eq!(session.phase(), Phase::Active);

    let r = dispatch(&mut jobs, &mut conns, export_callback("job-1"), Some(17));
    assert_eq!(r, Ok(()));
    assert!(!jobs.is_pending(&JobId::from("job-1".to_string())));
    assert_eq!(session.relay(&mut conns), vec!["job-completed;17".to_string()]);
    assert!(session.relay(&mut conns).is_empty());
}

#[test]
fn unconnected_owner_drops_notification() {
    let mut jobs = submitted("job-1", "sess-A");
    let mut conns = ConnectionRegistry::new();
    let r = dispatch(&mut jobs, &mut conns, export_callback("job-1"), Some(17));
    assert_eq!(r, Err(DispatchError::DisconnectedOwner));
    assert!(!jobs.is_pending(&JobId::from("job-1".to_string())));
    assert!(!conns.is_connected(&"sess-A".to_string()));

    let (session, _) = connect(&mut conns, "sess-A");
    assert!(session.relay(&mut conns).is_empty());
}

#[test]
fn export_without_url_sends_failed_frame() {
    let mut jobs = submitted("job-1", "sess-A");
    let mut conns = ConnectionRegistry::new();
    let (session, _) = connect(&mut conns, "sess-A");
    let cb = finished("job-1", vec![task("export/url", vec![file("out.pdf", None)])]);
    assert_eq!(dispatch(&mut jobs, &mut conns, cb, Some(17)), Ok(()));
    assert_eq!(session.relay(&mut conns), vec!["job-failed;job-1".to_string()]);
}

#[test]
fn failed_store_sends_failed_frame() {
    let mut jobs = submitted("job-1", "sess-A");
    let mut conns = ConnectionRegistry::new();
    let (session, _) = connect(&mut conns, "sess-A");
    assert_eq!(dispatch(&mut jobs, &mut conns, export_callback("job-1"), None), Ok(()));
    assert_eq!(session.relay(&mut conns), vec!["job-failed;job-1".to_string()]);
}

#[test]
fn one_notification_per_job_and_other_sessions_untouched() {
    let mut jobs = submitted("job-1", "sess-A");
    assert_eq!(jobs.register(JobId::from("job-2".to_string()), "sess-B".to_string()), Ok(()));
    let mut conns = ConnectionRegistry::new();
    let (a, _) = connect(&mut conns, "sess-A");
    let (b, _) = connect(&mut conns, "sess-B");
    assert_eq!(dispatch(&mut jobs, &mut conns, export_callback("job-1"), Some(3)), Ok(()));
    assert!(b.relay(&mut conns).is_empty());
    assert_eq!(a.relay(&mut conns), vec!["job-completed;3".to_string()]);
    assert!(jobs.is_pending(&JobId::from("job-2".to_string())));
}

#[test]
fn duplicate_callback_is_ignored() {
    let mut jobs = submitted("job-1", "sess-A");
    let mut conns = ConnectionRegistry::new();
    let (session, _) = connect(&mut conns, "sess-A");
    assert_eq!(dispatch(&mut jobs, &mut conns, export_callback("job-1"), Some(5)), Ok(()));
    assert_eq!(dispatch(&mut jobs, &mut conns, export_callback("job-1"), Some(6)), Err(DispatchError::UnknownJob));
    let other = finished("job-1", vec![task("export/url", vec![file("b.pdf", None)])]);
    assert_eq!(dispatch(&mut jobs, &mut conns, other, None), Err(DispatchError::UnknownJob));
    assert_eq!(session.relay(&mut conns), vec!["job-completed;5".to_string()]);
}

#[test]
fn unknown_job_changes_nothing() {
    let mut jobs = submitted("job-1", "sess-A");
    let mut conns = ConnectionRegistry::new();
    let (session, _) = connect(&mut conns, "sess-A");
    assert_eq!(dispatch(&mut jobs, &mut conns, export_callback("job-9"), Some(5)), Err(DispatchError::UnknownJob));
    assert!(jobs.is_pending(&JobId::from("job-1".to_string())));
    assert!(conns.is_connected(&"sess-A".to_string()));
    assert!(session.relay(&mut conns).is_empty());
}

#[test]
fn malformed_callbacks_are_rejected() {
    let mut jobs = submitted("job-1", "sess-A");
    let mut conns = ConnectionRegistry::new();
    let wrong_event = Callback {
        event: Some("job.failed".to_string()),
        job: Some(Job { id: "job-1".to_string(), tasks: vec![] }),
    };
    assert_eq!(dispatch(&mut jobs, &mut conns, wrong_event, None), Err(DispatchError::MalformedCallback));
    let no_event = Callback { event: None, job: Some(Job { id: "job-1".to_string(), tasks: vec![] }) };
    assert_eq!(dispatch(&mut jobs, &mut conns, no_event, None), Err(DispatchError::MalformedCallback));
    let no_job = Callback { event: Some("job.finished".to_string()), job: None };
    assert_eq!(dispatch(&mut jobs, &mut conns, no_job, None), Err(DispatchError::MalformedCallback));
    assert!(jobs.is_pending(&JobId::from("job-1".to_string())));
}

#[test]
fn missing_export_task_still_claims_job() {
    let mut jobs = submitted("job-1", "sess-A");
    let mut conns = ConnectionRegistry::new();
    let (session, _) = connect(&mut conns, "sess-A");
    let cb = finished("job-1", vec![task("convert", vec![])]);
    assert_eq!(dispatch(&mut jobs, &mut conns, cb, Some(1)), Err(DispatchError::MissingExportTask));
    assert!(!jobs.is_pending(&JobId::from("job-1".to_string())));
    assert!(session.relay(&mut conns).is_empty());
}

#[test]
fn claim_then_deliver_in_two_steps() {
    let mut jobs = submitted("job-1", "sess-A");
    let mut conns = ConnectionRegistry::new();
    let (session, _) = connect(&mut conns, "sess-A");
    let c = match claim(&mut jobs, export_callback("job-1")) {
        Ok(c) => c,
        Err(e) => panic!("unexpected {:?}", e),
    };
    assert_eq!(c.owner, "sess-A");
    let artifact = c.artifact().unwrap();
    assert_eq!(artifact.file_name, "out.pdf");
    assert_eq!(artifact.url.as_deref(), Some("https://x/out.pdf"));
    assert_eq!(deliver(&mut conns, c, Some(-4)), Ok(()));
    assert_eq!(session.relay(&mut conns), vec!["job-completed;-4".to_string()]);
}

#[test]
fn second_connection_is_refused() {
    let mut jobs = submitted("job-1", "sess-A");
    let mut conns = ConnectionRegistry::new();
    let (mut first, reply) = connect(&mut conns, "sess-A");
    assert!(reply.is_none());
    let (mut second, reply) = connect(&mut conns, "sess-A");
    assert_eq!(reply, Some("duplicate-connection".to_string()));
    assert!(second.is_closed());
    second.end(&mut conns);
    assert!(conns.is_connected(&"sess-A".to_string()));
    assert_eq!(first.phase(), Phase::Active);

    assert_eq!(dispatch(&mut jobs, &mut conns, export_callback("job-1"), Some(8)), Ok(()));
    assert!(second.relay(&mut conns).is_empty());
    assert_eq!(first.relay(&mut conns), vec!["job-completed;8".to_string()]);
    first.end(&mut conns);
    assert!(!conns.is_connected(&"sess-A".to_string()));
}

#[test]
fn handshake_ignores_non_text_frames() {
    let mut conns = ConnectionRegistry::new();
    let mut session = SocketSession::new();
    assert_eq!(session.on_frame(&mut conns, Frame::Ping(vec![1, 2, 3])), None);
    assert_eq!(session.on_frame(&mut conns, Frame::Pong(vec![])), None);
    assert_eq!(session.on_frame(&mut conns, Frame::Binary(vec![9])), None);
    assert_eq!(session.phase(), Phase::Handshaking);
    assert_eq!(session.on_frame(&mut conns, Frame::Text("session-id;abc".to_string())), None);
    assert_eq!(session.phase(), Phase::Active);
    assert_eq!(session.owner(), "abc");
    assert_eq!(session.on_frame(&mut conns, Frame::Ping(vec![])), None);
    assert_eq!(session.phase(), Phase::Active);
    assert_eq!(session.on_frame(&mut conns, Frame::Close), None);
    assert!(session.is_closed());
    assert!(!conns.is_connected(&"abc".to_string()));
}

#[test]
fn close_during_handshake_registers_nothing() {
    let mut conns = ConnectionRegistry::new();
    let mut session = SocketSession::new();
    assert_eq!(session.on_frame(&mut conns, Frame::Close), None);
    assert!(session.is_closed());
    assert_eq!(session.on_frame(&mut conns, Frame::Text("session-id;abc".to_string())), None);
    assert!(!conns.is_connected(&"abc".to_string()));
}

#[test]
fn session_id_is_text_after_last_semicolon() {
    assert_eq!(parse_session_id(&"session-id;sess-A".to_string()), "sess-A");
    assert_eq!(parse_session_id(&"a;b;c".to_string()), "c");
    assert_eq!(parse_session_id(&"plain".to_string()), "plain");
    assert_eq!(parse_session_id(&"ends;".to_string()), "");
    assert_eq!(parse_session_id(&"".to_string()), "");
    assert_eq!(parse_session_id(&"k;é☃".to_string()), "é☃");
    assert_eq!(split_after_last(&"a.b.pdf".to_string(), '.'), ("pdf".to_string(), true));
    assert_eq!(split_after_last(&"abc".to_string(), '.'), ("abc".to_string(), false));
}

#[test]
fn job_registry_rejects_duplicate_job() {
    let mut jobs = JobRegistry::new();
    let id = JobId::from("job-1".to_string());
    assert_eq!(jobs.register(id.clone(), "a".to_string()), Ok(()));
    assert_eq!(jobs.register(id.clone(), "b".to_string()), Err(DuplicateJob));
    assert_eq!(jobs.resolve_and_remove(&id), Some("a".to_string()));
    assert_eq!(jobs.resolve_and_remove(&id), None);
}

#[test]
fn connection_registry_operations() {
    let mut conns = ConnectionRegistry::new();
    let s = "s".to_string();
    assert_eq!(conns.register(s.clone()), Ok(()));
    assert_eq!(conns.register(s.clone()), Err(AlreadyConnected));
    let j = JobId::from("j".to_string());
    assert!(conns.deliver(&s, SocketMessage::failed(j.clone())));
    assert!(conns.deliver(&s, SocketMessage::completed(j.clone(), 2)));
    assert!(!conns.deliver(&"t".to_string(), SocketMessage::failed(j.clone())));
    let queued = conns.take_pending(&s);
    assert_eq!(queued.len(), 2);
    assert_eq!(queued[0].job_status(), JobStatus::FAILED);
    assert_eq!(queued[1].file_id(), Some(2));
    assert!(conns.take_pending(&s).is_empty());
    conns.remove(&s);
    conns.remove(&s);
    assert!(!conns.is_connected(&s));
}

#[test]
fn pending_messages_are_never_shown() {
    let j = JobId::from("job-7".to_string());
    let q = vec![
        SocketMessage::pending(j.clone()),
        SocketMessage::completed(j.clone(), 42),
        SocketMessage::pending(j.clone()),
        SocketMessage::failed(j.clone()),
    ];
    assert_eq!(render_frames(&q), vec!["job-completed;42".to_string(), "job-failed;job-7".to_string()]);
    assert_eq!(SocketMessage::pending(j.clone()).to_frame(), None);
    assert_eq!(SocketMessage::pending(j.clone()).job_id().as_string(), "job-7");
}

#[test]
fn decimal_rendering() {
    assert_eq!(render_decimal(0), "0");
    assert_eq!(render_decimal(7), "7");
    assert_eq!(render_decimal(1090), "1090");
    assert_eq!(render_decimal(-25), "-25");
    assert_eq!(render_decimal(i32::MAX), "2147483647");
    assert_eq!(render_decimal(i32::MIN), "-2147483648");
}

#[test]
fn export_task_is_first_export_step() {
    let tasks = vec![
        task("import/base64", vec![]),
        task("export/url", vec![file("first.pdf", None)]),
        task("export/url", vec![file("second.pdf", None)]),
    ];
    let found = find_export_task(tasks).unwrap();
    assert_eq!(found.result.files[0].file_name, "first.pdf");
    assert!(find_export_task(vec![task("convert", vec![])]).is_none());
    assert!(find_export_task(vec![]).is_none());
}

#[test]
fn finished_event_name() {
    assert!(is_finished_event(&"job.finished".to_string()));
    assert!(!is_finished_event(&"job.failed".to_string()));
    assert!(!is_finished_event(&"".to_string()));
}

#[test]
fn job_id_conversions() {
    let id = JobId::from("abc".to_string());
    assert_eq!(id, JobId("abc".to_string()));
    assert_ne!(id, JobId("abd".to_string()));
    let s: String = id.into();
    assert_eq!(s, "abc");
}

#[test]
fn download_headers_by_extension() {
    let h = download_headers(&"report.final.pdf".to_string()).unwrap();
    assert_eq!(h.content_type, "application/pdf; charset=utf-8");
    assert_eq!(h.disposition, "attachment; filename=\"report.final.pdf\"");
    let h = download_headers(&"a.docx".to_string()).unwrap();
    assert_eq!(h.content_type, "application/vnd.openxmlformats-officedocument.wordprocessingml.document; charset=utf-8");
    let h = download_headers(&"slides.pptx".to_string()).unwrap();
    assert_eq!(h.content_type, "application/vnd.openxmlformats-officedocument.presentationml.presentation; charset=utf-8");
    assert!(download_headers(&"image.png".to_string()).is_none());
    assert!(download_headers(&"pdf.".to_string()).is_none());
    assert!(download_headers(&"pdf".to_string()).is_none());
}

#[test]
fn search_pattern_wraps_term() {
    let q = SearchQuery { search_term: "report".to_string() };
    assert_eq!(q.pattern(), "%report%");
    let q = SearchQuery { search_term: String::new() };
    assert_eq!(q.pattern(), "%%");
}

#[test]
fn upload_needs_all_parts() {
    let ok = check_upload(Some("a.docx".to_string()), Some("QUJD".to_string()), Some("pdf".to_string())).ok().unwrap();
    assert_eq!(ok.file_name, "a.docx");
    assert_eq!(ok.contents, "QUJD");
    assert_eq!(ok.conversion_type, "pdf");
    let missing = (424, "You need to upload a file!".to_string());
    assert_eq!(check_upload(None, Some("x".to_string()), Some("pdf".to_string())).err(), Some(missing.clone()));
    assert_eq!(check_upload(Some("a".to_string()), None, Some("pdf".to_string())).err(), Some(missing.clone()));
    assert_eq!(check_upload(Some("a".to_string()), Some("x".to_string()), None).err(), Some(missing));
}

#[test]
fn created_job_is_recorded_for_owner() {
    let failed = (500, "Something went wrong while trying to convert the requested file!".to_string());
    let mut jobs = JobRegistry::new();
    let r = record_created_job(&mut jobs, "sess-A".to_string(), 201, Some(CreateResponse { id: "job-1".to_string() }));
    assert_eq!(r, (200, "You will be redirected when your file(s) have completed converting.".to_string()));
    assert!(jobs.is_pending(&JobId::from("job-1".to_string())));
    let r = record_created_job(&mut jobs, "sess-B".to_string(), 201, Some(CreateResponse { id: "job-1".to_string() }));
    assert_eq!(r, failed);
    let r = record_created_job(&mut jobs, "sess-A".to_string(), 200, Some(CreateResponse { id: "job-2".to_string() }));
    assert_eq!(r, failed);
    let r = record_created_job(&mut jobs, "sess-A".to_string(), 201, None);
    assert_eq!(r, failed);
    assert!(!jobs.is_pending(&JobId::from("job-2".to_string())));
    assert_eq!(jobs.resolve_and_remove(&JobId::from("job-1".to_string())), Some("sess-A".to_string()));
}
