use sideko::create::join_path;
use sideko::create::output_destination;
use sideko::create::str_ends_with;
use sideko::create::strip_targz_suffix;
use sideko::requests::CliCheckUpdatesRequest;
use sideko::requests::LoginUrlRequest;

#[test]
fn suffix_checks() {
    assert!(str_ends_with("sdk-python.tar.gz", ".tar.gz"));
    assert!(!str_ends_with("sdk-python.zip", ".tar.gz"));
    assert!(!str_ends_with("gz", ".tar.gz"));
    assert!(str_ends_with("anything", ""));
}

#[test]
fn targz_suffix_stripped() {
    assert_eq!(strip_targz_suffix("sdk-python.tar.gz"), "sdk-python");
    assert_eq!(strip_targz_suffix("sdk-python.zip"), "sdk-python.zip");
    assert_eq!(strip_targz_suffix(".tar.gz"), "");
}

#[test]
fn paths_join_with_single_separator() {
    assert_eq!(join_path("out", "sdk"), "out/sdk");
    assert_eq!(join_path("out/", "sdk"), "out/sdk");
    assert_eq!(join_path("", "sdk"), "sdk");
    assert_eq!(join_path("out", "/abs"), "/abs");
}

#[test]
fn destination_strips_archive_suffix() {
    assert_eq!(
        output_destination("./", Some("sdk-python.tar.gz")),
        "./sdk-python"
    );
    assert_eq!(
        output_destination("target", Some("sdk.tar.gz")),
        "target/sdk"
    );
    assert_eq!(output_destination("target", None), "target");
}

#[test]
fn request_defaults_are_empty() {
    let login = LoginUrlRequest::default();
    assert!(login.cli_output.is_none());
    assert!(login.cli_port.is_none());
    let check = CliCheckUpdatesRequest::default();
    assert_eq!(check.cli_version, "");
}
