use pikpak_core::client::{
    Client, Url, Method, RequestBody, FILES_CAPTCHA_SCOPE, FILES_READ_CAPTCHA_SCOPE, FILES_URL, LIST_LIMIT,
};
use pikpak_core::captcha::{CallStep, CaptchaCall, CAPTCHA_REQUIRED};
use pikpak_core::error::{ApiOutcome, ClientError};
use pikpak_core::path::{find_entry, split_path, ObjectKind, PathResolver, RemoteObjectRef, ResolveStep};
use pikpak_core::transfer::{TaskState, TransferBatch};

fn object(id: &str, kind: ObjectKind, name: &str) -> RemoteObjectRef {
    RemoteObjectRef { id: id.to_string(), kind, name: name.to_string() }
}

/// A small remote tree: `a/b.txt` and `cli/test/`.
fn listing(id: &str) -> Vec<RemoteObjectRef> {
    match id {
        "" => vec![object("A", ObjectKind::Folder, "a"), object("C", ObjectKind::Folder, "cli")],
        "A" => vec![object("B", ObjectKind::File, "b.txt")],
        "C" => vec![object("T", ObjectKind::Folder, "test")],
        _ => vec![],
    }
}

/// Runs a resolution against `listing`, counting the listing calls.
fn resolve(path: &str) -> (Result<RemoteObjectRef, ClientError>, usize) {
    let mut r = PathResolver::new(path);
    let mut calls = 0;
    loop {
        match r.step() {
            ResolveStep::Found(obj) => return (Ok(obj), calls),
            ResolveStep::Missing => return (Err(ClientError::NotFound), calls),
            ResolveStep::List(id) => {
                calls += 1;
                let _ = r.on_listing(&listing(&id));
            }
        }
    }
}

#[test]
fn split_skips_empty_components() {
    assert_eq!(split_path("a/b.txt"), vec!["a".to_string(), "b.txt".to_string()]);
    assert_eq!(split_path("/cli//test/"), vec!["cli".to_string(), "test".to_string()]);
    assert!(split_path("").is_empty());
    assert!(split_path("/").is_empty());
    assert!(split_path("//").is_empty());
    assert_eq!(split_path("x"), vec!["x".to_string()]);
}

#[test]
fn root_paths_resolve_without_listing() {
    for p in ["", "/"] {
        let (r, calls) = resolve(p);
        assert_eq!(r, Ok(RemoteObjectRef::root()));
        assert_eq!(calls, 0);
    }
}

#[test]
fn missing_first_component_stops_after_one_listing() {
    let (r, calls) = resolve("missing/x.txt");
    assert_eq!(r, Err(ClientError::NotFound));
    assert_eq!(calls, 1);
}

#[test]
fn nested_path_resolves() {
    let (r, calls) = resolve("a/b.txt");
    assert_eq!(r, Ok(object("B", ObjectKind::File, "b.txt")));
    assert_eq!(calls, 2);
}

#[test]
fn lookup_is_exact_and_case_sensitive() {
    let entries = vec![object("1", ObjectKind::File, "Doc"), object("2", ObjectKind::File, "doc"), object("3", ObjectKind::File, "doc")];
    assert_eq!(find_entry(&entries, &"doc".to_string()), Some(1));
    assert_eq!(find_entry(&entries, &"DOC".to_string()), None);
    assert_eq!(find_entry(&entries, &"do".to_string()), None);
}

fn download(paths: &[&str], bound: usize) -> (Vec<(String, Result<(), ClientError>)>, usize) {
    let mut batch = TransferBatch::new(paths.iter().map(|p| p.to_string()).collect(), bound);
    for (i, p) in paths.iter().enumerate() {
        batch.on_prepared(i, resolve(p).0.map(|_| ()));
    }
    let mut peak = 0;
    while !batch.is_complete() {
        let mut started = Vec::new();
        while let Some(i) = batch.start_next() {
            started.push(i);
        }
        peak = peak.max(batch.streaming);
        for i in started {
            batch.on_streamed(i, Ok(()));
        }
    }
    (batch.report(), peak)
}

#[test]
fn batch_reports_each_path() {
    let (report, _) = download(&["a/b.txt", "missing/x.txt"], 2);
    assert_eq!(
        report,
        vec![("a/b.txt".to_string(), Ok(())), ("missing/x.txt".to_string(), Err(ClientError::NotFound))]
    );
}

#[test]
fn batch_never_exceeds_bound() {
    let paths = ["a/b.txt", "a/b.txt", "a/b.txt", "a/b.txt", "a/b.txt"];
    let (report, peak) = download(&paths, 2);
    assert_eq!(peak, 2);
    assert!(report.iter().all(|(_, r)| r.is_ok()));
}

#[test]
fn one_failure_leaves_the_others() {
    let mut batch = TransferBatch::new(vec!["x".to_string(), "y".to_string(), "z".to_string()], 1);
    batch.on_prepared(1, Err(ClientError::NotFound));
    batch.on_prepared(0, Ok(()));
    batch.on_prepared(2, Ok(()));
    assert_eq!(batch.start_next(), Some(0));
    assert_eq!(batch.start_next(), None);
    batch.on_streamed(0, Err(ClientError::Transport));
    assert_eq!(batch.start_next(), Some(2));
    assert!(!batch.is_complete());
    batch.on_streamed(2, Ok(()));
    assert!(batch.is_complete());
    assert_eq!(batch.states, vec![TaskState::Failed(ClientError::Transport), TaskState::Failed(ClientError::NotFound), TaskState::Succeeded]);
    assert_eq!(batch.streaming, 0);
}

#[test]
fn empty_batch_is_complete() {
    let batch = TransferBatch::new(vec![], 3);
    assert!(batch.is_complete());
    assert!(batch.report().is_empty());
}

fn session() -> Client {
    let mut c = Client::new("dev-1".to_string(), 3);
    c.set_jwt_token("jwt".to_string());
    c
}

#[test]
fn test_new_folder() {
    let mut client = session();
    let (parent, _) = resolve("cli/test");
    let parent = parent.unwrap();
    assert_eq!(parent.get_id(), "T");
    let req = client.new_folder(&parent, "abcdefgh").unwrap();
    assert_eq!(req.method, Method::Post);
    assert_eq!(req.url, FILES_URL);
    assert_eq!(req.captcha_scope, FILES_CAPTCHA_SCOPE);
    assert_eq!(req.bearer, "jwt");
    assert_eq!(req.body, RequestBody::NewFolder { parent_id: "T".to_string(), name: "abcdefgh".to_string() });
    assert!(req.headers.contains(&("X-Captcha-Token".to_string(), String::new())));
    client.set_captcha_token("fresh".to_string());
    let replay = client.new_folder(&parent, "abcdefgh").unwrap();
    assert!(replay.headers.contains(&("X-Captcha-Token".to_string(), "fresh".to_string())));
    assert!(replay.headers.contains(&("X-Peer-Id".to_string(), "dev-1".to_string())));
    assert_eq!(replay.body, req.body);
}

#[test]
fn test_new_magnet() {
    let client = session();
    let (parent, _) = resolve("cli/test");
    let url = "magnet:?xt=urn:btih:768505aa03a891a59e4af4a7dc7a6c2131cfe296";
    let req = client.new_magnet(&parent.unwrap(), url).unwrap();
    assert_eq!(req.body, RequestBody::NewUrlTask { parent_id: "T".to_string(), url: url.to_string() });
    assert_eq!(req.method, Method::Post);
    assert_eq!(req.headers.len(), 6);
    assert_eq!(req.headers[0], ("Country".to_string(), "CN".to_string()));
}

#[test]
fn read_requests() {
    let client = session();
    let list = client.list_files("A").unwrap();
    assert_eq!(list.method, Method::Get);
    assert_eq!(list.captcha_scope, FILES_READ_CAPTCHA_SCOPE);
    assert_eq!(list.query, vec![("parent_id".to_string(), "A".to_string()), ("limit".to_string(), LIST_LIMIT.to_string())]);
    assert_eq!(list.body, RequestBody::Empty);
    let get = client.get_file("B").unwrap();
    assert_eq!(get.resource, Some("B".to_string()));
    assert!(get.query.is_empty());
}

#[test]
fn fresh_session_has_empty_tokens() {
    let c = Client::new("d".to_string(), 0);
    assert!(c.jwt_token.is_empty());
    assert!(c.captcha_token.is_empty());
    assert_eq!(c.retry_times, 0);
}

#[test]
fn control_characters_cannot_stand_in_headers() {
    let mut c = Client::new("dev\n1".to_string(), 0);
    assert_eq!(c.headers(), Err(ClientError::InvalidHeader));
    assert_eq!(c.list_files("A"), Err(ClientError::InvalidHeader));
    c = Client::new("dev\t1".to_string(), 0);
    assert!(c.headers().is_ok());
    c.set_captcha_token("tok\u{7f}".to_string());
    assert_eq!(c.new_folder(&RemoteObjectRef::root(), "x"), Err(ClientError::InvalidHeader));
    assert_eq!(c.get_file("B"), Err(ClientError::InvalidHeader));
    c.set_captcha_token("tok".to_string());
    assert!(c.new_magnet(&RemoteObjectRef::root(), "magnet:?x").is_ok());
}

#[test]
fn url_defaults_to_empty_kind() {
    let u = Url::default();
    assert_eq!(u.kind, "");
    assert_eq!(u.clone(), Url { kind: String::new() });
}

#[test]
fn new_folder_recovers_after_one_refresh() {
    let mut client = session();
    let parent = object("T", ObjectKind::Folder, "test");
    let first = client.new_folder(&parent, "x").unwrap();
    let mut call = CaptchaCall::new();
    let rejected: ApiOutcome<()> = ApiOutcome::Error { code: CAPTCHA_REQUIRED, message: String::new() };
    assert_eq!(call.on_outcome(&rejected), CallStep::RefreshCaptcha);
    assert_eq!(first.captcha_scope, "POST:/drive/v1/files");
    client.set_captcha_token("renewed".to_string());
    assert_eq!(call.on_refreshed(true), CallStep::Send);
    let replay = client.new_folder(&parent, "x").unwrap();
    assert!(replay.headers.contains(&("X-Captcha-Token".to_string(), "renewed".to_string())));
    assert_eq!(call.on_outcome(&ApiOutcome::Success(())), CallStep::Deliver);
    assert_eq!(call.refreshes, 1);
}
