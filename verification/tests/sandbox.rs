use aichemistforge_mcp_server::error::ServiceError;
use aichemistforge_mcp_server::fs_service::utils::{
    expand_home, expand_home_in, home_directory, normalize_line_endings, normalize_path,
};
use aichemistforge_mcp_server::handler::MyServerHandler;
use aichemistforge_mcp_server::fs_service::{
    DirectoryEnvironment, FileSystemService, PathEnvironment,
};

fn environment_for(service: &FileSystemService) -> PathEnvironment {
    PathEnvironment {
        home_dir: Some(String::from("/home/user")),
        current_dir: String::from("/work"),
        canonical: None,
        canonical_blocked: service.blocked_directories().iter().map(|_| None).collect(),
        canonical_allowed: service.allowed_directories().iter().map(|_| None).collect(),
        exists: false,
    }
}

fn directories(home: Option<&str>) -> DirectoryEnvironment {
    DirectoryEnvironment {
        home_dir: home.map(|h| h.to_string()),
        current_dir: String::from("/work"),
        canonical_allowed: vec![],
        canonical_blocked: vec![],
    }
}

fn made_of(allowed: &[String], blocked: &[String], home: Option<&str>) -> FileSystemService {
    FileSystemService::try_new(allowed, blocked, &directories(home)).unwrap()
}

fn strings(items: &[&str]) -> Vec<String> {
    items.iter().map(|s| s.to_string()).collect()
}

#[test]
fn test_blocklist_functionality() {
    let allowed_dirs = vec![];
    let blocked_dirs = vec!["/etc".to_string(), "/var".to_string()];

    let fs_service = FileSystemService::try_new(&allowed_dirs, &blocked_dirs, &directories(None)).unwrap();

    assert!(fs_service.allowed_directories().is_empty());
    assert_eq!(fs_service.blocked_directories().len(), 2);

    let env = environment_for(&fs_service);
    let result = fs_service.validate_path("/etc/passwd", &env);
    assert!(result.is_err());

    let result = fs_service.validate_path("/tmp/test.txt", &env);
    assert!(result.is_ok());
}

#[test]
fn test_allowed_directories_functionality() {
    let allowed_dirs = vec!["/home".to_string(), "/tmp".to_string()];
    let blocked_dirs = vec![];

    let fs_service = FileSystemService::try_new(&allowed_dirs, &blocked_dirs, &directories(None)).unwrap();

    assert_eq!(fs_service.allowed_directories().len(), 2);
    assert!(fs_service.blocked_directories().is_empty());

    let env = environment_for(&fs_service);
    let result = fs_service.validate_path("/home/user/test.txt", &env);
    assert!(result.is_ok());

    let result = fs_service.validate_path("/etc/passwd", &env);
    assert!(result.is_err());
}

#[test]
fn test_combined_allowed_and_blocked() {
    let allowed_dirs = vec!["/home".to_string(), "/tmp".to_string()];
    let blocked_dirs = vec!["/home/user/secret".to_string()];

    let fs_service = FileSystemService::try_new(&allowed_dirs, &blocked_dirs, &directories(None)).unwrap();

    assert_eq!(fs_service.allowed_directories().len(), 2);
    assert_eq!(fs_service.blocked_directories().len(), 1);

    let env = environment_for(&fs_service);
    let result = fs_service.validate_path("/home/user/documents/test.txt", &env);
    assert!(result.is_ok());

    let result = fs_service.validate_path("/home/user/secret/passwords.txt", &env);
    assert!(result.is_err());

    let result = fs_service.validate_path("/etc/passwd", &env);
    assert!(result.is_err());
}

#[test]
fn test_windows_paths_with_comma_separation() {
    let allowed_dirs = vec![];
    let blocked_dirs = vec![
        "C:\\Windows".to_string(),
        "C:\\Program Files".to_string(),
        "C:\\Program Files (x86)".to_string(),
    ];

    let fs_service = FileSystemService::try_new(&allowed_dirs, &blocked_dirs, &directories(None)).unwrap();

    assert!(fs_service.allowed_directories().is_empty());
    assert_eq!(fs_service.blocked_directories().len(), 3);

    let env = environment_for(&fs_service);
    let result = fs_service.validate_path("D:\\Projects\\test.txt", &env);
    assert!(result.is_ok());
}

#[test]
fn block_wins_over_allow() {
    let service = made_of(
        &strings(&["/home", "/tmp"]),
        &strings(&["/home/user/secret"]),
        None,
    );
    let env = environment_for(&service);
    assert!(matches!(
        service.validate_path("/home/user/secret/passwords.txt", &env),
        Err(ServiceError::PathNotAllowed)
    ));
    assert_eq!(service.validate_path("/home/user/docs/x.txt", &env).unwrap(), "/home/user/docs/x.txt");
    assert!(matches!(service.validate_path("/etc/passwd", &env), Err(ServiceError::PathNotAllowed)));
    // the blocked directory itself is blocked, a sibling with a longer name is not
    assert!(service.validate_path("/home/user/secret", &env).is_err());
    assert!(service.validate_path("/home/user/secrets.txt", &env).is_ok());
}

#[test]
fn admission_is_repeatable() {
    let service = made_of(&strings(&["/srv"]), &strings(&["/srv/private"]), None);
    let env = environment_for(&service);
    for path in ["/srv/a", "/srv/private/a", "/elsewhere", "relative/file"] {
        let first = service.validate_path(path, &env);
        let second = service.validate_path(path, &env);
        assert_eq!(first.is_ok(), second.is_ok());
        if let (Ok(a), Ok(b)) = (first, second) {
            assert_eq!(a, b);
        }
    }
}

#[test]
fn relative_paths_are_resolved_against_the_current_directory() {
    let service = made_of(&strings(&["/work"]), &[], None);
    let env = environment_for(&service);
    assert_eq!(service.validate_path("notes/a.txt", &env).unwrap(), "/work/notes/a.txt");
    assert_eq!(
        FileSystemService::absolute_path("notes/a.txt", None, "/work"),
        "/work/notes/a.txt"
    );
    assert_eq!(FileSystemService::absolute_path("/abs/a.txt", None, "/work"), "/abs/a.txt");
}

#[test]
fn home_marker_is_expanded() {
    let service = made_of(&strings(&["~/projects"]), &strings(&["~"]), Some("/home/user"));
    assert_eq!(service.allowed_directories()[0], "/home/user/projects");
    assert_eq!(service.blocked_directories()[0], "/home/user/");
    assert_eq!(expand_home_in(String::from("~/a/b"), Some("/home/user")), "/home/user/a/b");
    assert_eq!(expand_home_in(String::from("~other/a"), Some("/home/user")), "~other/a");
    assert_eq!(expand_home_in(String::from("/x/~"), Some("/home/user")), "/x/~");
    assert_eq!(expand_home_in(String::from("~/a"), None), "~/a");
    assert_eq!(expand_home(String::from("/no/marker")), "/no/marker");

    let open = made_of(&[], &[], Some("/home/user"));
    let env = environment_for(&open);
    assert_eq!(open.validate_path("~/a.txt", &env).unwrap(), "/home/user/a.txt");
}

#[test]
fn canonical_forms_are_held_against_the_directories() {
    let service = made_of(&[], &strings(&["/private"]), None);
    let mut env = environment_for(&service);
    // the requested path is a link into the blocked directory
    env.canonical = Some(String::from("/private/data/file"));
    assert!(service.validate_path("/tmp/link", &env).is_err());
    // the blocked directory is itself a link
    env.canonical = Some(String::from("/mnt/disk/data/file"));
    env.canonical_blocked = vec![Some(String::from("/mnt/disk"))];
    assert!(service.validate_path("/tmp/link", &env).is_err());
    env.canonical_blocked = vec![Some(String::from("/mnt/other"))];
    assert_eq!(service.validate_path("/tmp/link", &env).unwrap(), "/tmp/link");

    let allowing = made_of(&strings(&["/data"]), &[], None);
    let mut env = environment_for(&allowing);
    env.canonical = Some(String::from("/mnt/disk/file"));
    assert!(allowing.validate_path("/data/file", &env).is_err());
    env.canonical_allowed = vec![Some(String::from("/mnt/disk"))];
    assert!(allowing.validate_path("/data/file", &env).is_ok());
    // a list of canonical forms that is too short counts as unknown
    env.canonical_allowed = vec![];
    assert!(allowing.validate_path("/data/file", &env).is_err());
}

#[test]
fn existing_paths_must_exist() {
    let service = made_of(&[], &strings(&["/etc"]), None);
    let mut env = environment_for(&service);
    match service.validate_existing_path("/tmp/missing", &env) {
        Err(ServiceError::FileNotFound(path)) => assert_eq!(path, "/tmp/missing"),
        other => panic!("unexpected: {:?}", other),
    }
    assert!(matches!(
        service.validate_existing_path("/etc/passwd", &env),
        Err(ServiceError::PathNotAllowed)
    ));
    env.exists = true;
    assert_eq!(service.validate_existing_path("/tmp/present", &env).unwrap(), "/tmp/present");
    assert!(matches!(
        service.validate_existing_path("/etc/passwd", &env),
        Err(ServiceError::PathNotAllowed)
    ));
}

#[test]
fn normalizing_keeps_or_replaces_the_path() {
    assert_eq!(normalize_path("/a/b", None), "/a/b");
    assert_eq!(normalize_path("/a/b", Some("/c")), "/c");
}

#[test]
fn line_endings_become_line_feeds() {
    assert_eq!(normalize_line_endings("a\r\nb\rc\nd"), "a\nb\nc\nd");
    assert_eq!(normalize_line_endings("\r\r\n\r"), "\n\n\n");
    assert_eq!(normalize_line_endings(""), "");
    assert_eq!(normalize_line_endings("plain"), "plain");
}

#[test]
fn home_directory_is_the_one_of_the_environment() {
    let expected = dirs::home_dir().and_then(|home| home.into_os_string().into_string().ok());
    assert_eq!(home_directory(), expected);
    match expected {
        Some(home) => {
            let joined = std::path::Path::new(&home).join("projects");
            assert_eq!(expand_home(String::from("~/projects")), joined.to_string_lossy());
        }
        None => assert_eq!(expand_home(String::from("~/projects")), "~/projects"),
    }
}

#[test]
fn directories_are_normalized_at_construction() {
    let environment = DirectoryEnvironment {
        home_dir: Some(String::from("/home/user")),
        current_dir: String::from("/work"),
        canonical_allowed: vec![None, Some(String::from("/mnt/disk/data")), None, None],
        canonical_blocked: vec![Some(String::from("/real/secret"))],
    };
    let service = FileSystemService::try_new(
        &strings(&["relative/dir", "/data", "~/projects", "/abs"]),
        &strings(&["~/link", "tmp"]),
        &environment,
    )
    .unwrap();
    // relative directories are made absolute, the home is filled in, and a
    // canonical form replaces the directory where the file system has one
    assert_eq!(
        *service.allowed_directories(),
        vec!["/work/relative/dir", "/mnt/disk/data", "/home/user/projects", "/abs"]
    );
    // a list of canonical forms that is too short counts as unknown
    assert_eq!(*service.blocked_directories(), vec!["/real/secret", "/work/tmp"]);

    let request = environment_for(&service);
    assert!(service.validate_path("/work/relative/dir/file", &request).is_ok());
    assert!(service.validate_path("/work/tmp/file", &request).is_err());
    assert!(service.validate_path("tmp/file", &request).is_err());
    assert!(service.validate_path("/real/secret/key", &request).is_err());

    let empty = FileSystemService::try_new(&[], &[], &environment).unwrap();
    assert!(empty.allowed_directories().is_empty());
    assert!(empty.blocked_directories().is_empty());
}

#[test]
fn handler_keeps_the_service_it_is_given() {
    let service = made_of(&strings(&["~/data"]), &[], Some("/home/user"));
    let handler = MyServerHandler::with_service(service);
    assert!(handler.gate.current.is_none());
    assert_eq!(handler.fs_service.allowed_directories()[0], "/home/user/data");
    assert_eq!(
        handler.startup_message(),
        "Secure MCP Filesystem Server running in \"read/write\" mode.\nSecurity model: Allow all except blocked directories.\nAllowed directories: /home/user/data\nBlocked directories: NONE"
    );
}
