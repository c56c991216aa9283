use remotefs_smb::SmbCredentials;

#[test]
fn should_init_credentials() {
    let credentials = SmbCredentials::new("localhost", "temp");
    assert_eq!(credentials.server.as_str(), "localhost");
    assert_eq!(credentials.share.as_str(), "temp");
    assert!(credentials.username.is_none());
    assert!(credentials.password.is_none());
}

#[test]
fn should_construct_credentials() {
    let credentials = SmbCredentials::new("localhost", "temp")
        .username("test")
        .password("foobar");
    assert_eq!(credentials.server.as_str(), "localhost");
    assert_eq!(credentials.share.as_str(), "temp");
    assert_eq!(credentials.username.as_deref().unwrap(), "test");
    assert_eq!(credentials.password.as_deref().unwrap(), "foobar");
}

#[test]
fn should_build_unc_remote_name() {
    let credentials = SmbCredentials::new("localhost", "temp");
    assert_eq!(credentials.remote_name().as_str(), "\\\\localhost\\temp");
}
