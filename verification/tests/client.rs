use remotefs_smb::{
    CopyAction, FileType, Metadata, RemoteError, RemoteErrorType, SmbDirent, SmbDirentType, SmbFs,
    copy_plan, effective_mode, keep_ok_files, list_dir_targets, open_options_for_append,
    open_options_for_create, open_options_for_read, smbstat_to_file, SmbStat,
};

fn stat_of(path: &str, mode: u32) -> remotefs_smb::File {
    smbstat_to_file(
        path,
        &SmbStat {
            accessed: 0,
            created: 0,
            modified: 0,
            gid: 0,
            uid: 0,
            mode,
            size: 0,
        },
    )
}

#[test]
fn should_start_at_the_root() {
    let client = SmbFs::new();
    assert_eq!(client.pwd().as_str(), "/");
}

#[test]
fn should_resolve_request_paths_against_the_working_directory() {
    let client = SmbFs::new();
    assert_eq!(client.get_uri("a.txt").as_str(), "/a.txt");
    assert_eq!(client.get_uri("/cargo-test/a.txt").as_str(), "/cargo-test/a.txt");
}

#[test]
fn should_change_directory() {
    let mut client = SmbFs::new();
    let stat = Ok(stat_of("/cargo-test", 0o040755));
    let pwd = client.change_dir("/cargo-test", stat).unwrap();
    assert_eq!(pwd.as_str(), "/cargo-test");
    assert_eq!(client.pwd().as_str(), "/cargo-test");
    // A relative move resolves under the new working directory.
    let stat = Ok(stat_of("/cargo-test/mydir", 0o040755));
    let pwd = client.change_dir("mydir", stat).unwrap();
    assert_eq!(pwd.as_str(), "/cargo-test/mydir");
}

#[test]
fn should_not_change_directory_into_a_file() {
    let mut client = SmbFs::new();
    let stat = Ok(stat_of("/cargo-test/a.txt", 0o100644));
    let error = client.change_dir("/cargo-test/a.txt", stat).unwrap_err();
    assert_eq!(error.kind, RemoteErrorType::BadFile);
    assert_eq!(error.message.as_deref(), Some("not a directory"));
    assert_eq!(client.pwd().as_str(), "/");
}

#[test]
fn should_not_change_directory() {
    let mut client = SmbFs::new();
    let stat = Err(RemoteError::with_message(
        RemoteErrorType::StatFailed,
        String::from("no such entry"),
    ));
    let error = client
        .change_dir("/tmp/sdfghjuireghiuergh/useghiyuwegh", stat)
        .unwrap_err();
    assert_eq!(error.kind, RemoteErrorType::StatFailed);
    assert_eq!(client.pwd().as_str(), "/");
}

#[test]
fn should_tell_whether_file_exists() {
    assert_eq!(
        SmbFs::entry_exists(Ok(stat_of("/cargo-test/a.txt", 0o100644))).unwrap(),
        true
    );
    assert_eq!(
        SmbFs::entry_exists(Err(RemoteError::new(RemoteErrorType::StatFailed))).unwrap(),
        false
    );
    let error = SmbFs::entry_exists(Err(RemoteError::new(RemoteErrorType::ConnectionError)))
        .unwrap_err();
    assert_eq!(error.kind, RemoteErrorType::ConnectionError);
}

#[test]
fn should_refuse_to_create_an_existing_directory() {
    let error = SmbFs::create_dir_guard(Ok(true)).unwrap_err();
    assert_eq!(error.kind, RemoteErrorType::AlreadyExists);
    assert!(SmbFs::create_dir_guard(Ok(false)).is_ok());
    let error =
        SmbFs::create_dir_guard(Err(RemoteError::new(RemoteErrorType::ConnectionError)))
            .unwrap_err();
    assert_eq!(error.kind, RemoteErrorType::ConnectionError);
}

#[test]
fn should_guard_operations_on_a_disconnected_session() {
    assert!(SmbFs::connection_guard(true).is_ok());
    let error = SmbFs::connection_guard(false).unwrap_err();
    assert_eq!(error.kind, RemoteErrorType::NotConnected);
    assert!(error.message.is_none());
}

#[test]
fn should_classify_a_failed_connection_probe() {
    assert!(SmbFs::check_connection(Ok(String::from("test"))).is_ok());
    let error = SmbFs::check_connection(Err(String::from("transport down"))).unwrap_err();
    assert_eq!(error.kind, RemoteErrorType::ConnectionError);
    assert_eq!(error.message.as_deref(), Some("transport down"));
}

#[test]
fn should_keep_only_files_and_directories_of_a_listing() {
    let dirents = vec![
        SmbDirent::new(String::from("a.txt"), SmbDirentType::File),
        SmbDirent::new(String::from("printer"), SmbDirentType::PrinterShare),
        SmbDirent::new(String::from("mydir"), SmbDirentType::Dir),
        SmbDirent::new(String::from("link"), SmbDirentType::Link),
        SmbDirent::new(String::from("wg"), SmbDirentType::Workgroup),
    ];
    let targets = list_dir_targets("/cargo-test", &dirents);
    let targets: Vec<&str> = targets.iter().map(|t| t.as_str()).collect();
    assert_eq!(targets, vec!["/cargo-test/a.txt", "/cargo-test/mydir"]);
}

#[test]
fn should_join_listing_targets_with_a_plain_slash() {
    let dirents = vec![SmbDirent::new(String::from("a.txt"), SmbDirentType::File)];
    let targets = list_dir_targets("/cargo-test/", &dirents);
    assert_eq!(targets[0].as_str(), "/cargo-test//a.txt");
}

#[test]
fn should_keep_the_stats_that_succeeded() {
    let results = vec![
        Ok(stat_of("/cargo-test/a.txt", 0o100644)),
        Err(RemoteError::new(RemoteErrorType::StatFailed)),
        Ok(stat_of("/cargo-test/mydir", 0o040755)),
    ];
    let files = keep_ok_files(results);
    assert_eq!(files.len(), 2);
    assert_eq!(files[0].path.as_str(), "/cargo-test/a.txt");
    assert_eq!(files[1].path.as_str(), "/cargo-test/mydir");
}

#[test]
fn should_default_and_mask_the_creation_mode() {
    assert_eq!(effective_mode(None), 0o644);
    assert_eq!(effective_mode(Some(0o755)), 0o755);
    assert_eq!(effective_mode(Some(0o100644)), 0o644);
}

#[test]
fn should_open_for_create_write_and_append() {
    let create = open_options_for_create(Some(0o600));
    assert!(create.create && create.write && !create.append && !create.read);
    assert_eq!(create.mode, 0o600);
    let append = open_options_for_append(None);
    assert!(append.create && append.write && append.append && !append.read);
    assert_eq!(append.mode, 0o644);
    let read = open_options_for_read();
    assert!(read.read && !read.write && !read.append && !read.create);
}

#[test]
fn should_plan_a_copy_step() {
    let step = copy_plan(true, false, false, "\\dest", "a.txt");
    assert_eq!(step, CopyAction::RecurseInto { create_dest: true });
    let step = copy_plan(true, true, true, "\\dest", "a.txt");
    assert_eq!(step, CopyAction::RecurseInto { create_dest: false });
    let step = copy_plan(false, true, true, "\\dest", "a.txt");
    assert_eq!(
        step,
        CopyAction::CopyFileTo { dest: String::from("\\dest\\a.txt") }
    );
    let step = copy_plan(false, false, false, "\\dest\\b.txt", "a.txt");
    assert_eq!(
        step,
        CopyAction::CopyFileTo { dest: String::from("\\dest\\b.txt") }
    );
}

#[test]
fn should_expose_metadata_on_listed_files() {
    let file = stat_of("/cargo-test/a.txt", 0o100644);
    assert_eq!(file.metadata.file_type, FileType::File);
    let fallback = Metadata::default();
    assert_eq!(fallback.file_type, FileType::File);
}
