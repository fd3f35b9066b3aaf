use dotnet_install::error::InstallError;
use dotnet_install::index::{find_product_version, latest_version_url, product_version_url, IndexReply};
use dotnet_install::layout::Runtime;
use dotnet_install::request::DotnetVersion;
use dotnet_install::selector::{find_newest_minor, SelectStep, Stage, VersionSelector};
use dotnet_install::semantic::SemVer;

fn ok(body: &str) -> IndexReply {
    IndexReply::Response { status: 200, body: body.to_string() }
}

fn not_found() -> IndexReply {
    IndexReply::Response { status: 404, body: String::new() }
}

fn request(text: &str) -> DotnetVersion {
    DotnetVersion::parse(text).unwrap()
}

fn expect_fetch(step: SelectStep) -> (String, VersionSelector) {
    match step {
        SelectStep::Fetch { url, next } => (url, next),
        SelectStep::Resolved(v) => panic!("resolved early to {}", v.to_text()),
        SelectStep::Failed(e) => panic!("failed with {:?}", e),
    }
}

fn expect_resolved(step: SelectStep) -> SemVer {
    match step {
        SelectStep::Resolved(v) => v,
        SelectStep::Fetch { url, .. } => panic!("still fetching {}", url),
        SelectStep::Failed(e) => panic!("failed with {:?}", e),
    }
}

fn expect_failed(step: SelectStep) -> InstallError {
    match step {
        SelectStep::Failed(e) => e,
        SelectStep::Fetch { url, .. } => panic!("still fetching {}", url),
        SelectStep::Resolved(v) => panic!("resolved to {}", v.to_text()),
    }
}

#[test]
fn parse_request_forms() {
    let v = request("5");
    assert_eq!((v.major, v.minor, v.patch), (5, None, None));
    let v = request("5.1");
    assert_eq!((v.major, v.minor, v.patch), (5, Some(1), None));
    let v = request("5.1.3");
    assert_eq!((v.major, v.minor, v.patch), (5, Some(1), Some(3)));
    let v = request("18446744073709551615");
    assert_eq!(v.major, u64::MAX);
}

#[test]
fn parse_request_rejects_malformed() {
    for text in ["", "5.", ".5", "5.1.3.4", "five", "5.x", "-1", "18446744073709551616", "5..1"] {
        assert!(matches!(DotnetVersion::parse(text), Err(InstallError::Parse)), "{}", text);
    }
}

#[test]
fn request_text_round_trip() {
    assert_eq!(request("5").to_text(), "5");
    assert_eq!(request("5.1").to_text(), "5.1");
    assert_eq!(request("05.1.30").to_text(), "5.1.30");
}

#[test]
fn full_request_needs_no_index() {
    let step = VersionSelector::find_best_version(Runtime::Dotnet, request("5.1.3"));
    let v = expect_resolved(step);
    assert_eq!((v.major(), v.minor(), v.patch()), (5, 1, 3));
    assert_eq!(v.to_text(), "5.1.3");
}

#[test]
fn dotnet_5_1_3_resolves_without_index() {
    let v = expect_resolved(VersionSelector::find_best_version(Runtime::Dotnet, request("5.1.3")));
    assert_eq!(v.to_text(), "5.1.3");
}

#[test]
fn given_minor_fetches_its_marker() {
    let (url, next) = expect_fetch(VersionSelector::find_best_version(Runtime::AspCore, request("6.0")));
    assert_eq!(url, "https://dotnetcli.blob.core.windows.net/dotnet/aspnetcore/Runtime/6.0/latest.version");
    assert!(matches!(next.stage, Stage::Latest { minor: 0 }));
    let v = expect_resolved(next.on_reply(&ok("abc123\n6.0.36\n")));
    assert_eq!((v.major(), v.minor(), v.patch()), (6, 0, 36));
}

#[test]
fn newest_minor_probe_stops_at_first_missing() {
    let (url, mut sel) = expect_fetch(VersionSelector::find_best_version(Runtime::Dotnet, request("3")));
    assert_eq!(url, "https://dotnetcli.blob.core.windows.net/dotnet/Runtime/3.0/latest.version");
    for minor in 1..=3 {
        let (url, next) = expect_fetch(sel.on_reply(&ok("3.x")));
        assert_eq!(url, format!("https://dotnetcli.blob.core.windows.net/dotnet/Runtime/3.{}/latest.version", minor));
        sel = next;
    }
    let (url, next) = expect_fetch(sel.on_reply(&not_found()));
    assert_eq!(url, "https://dotnetcli.blob.core.windows.net/dotnet/Runtime/3.2/latest.version");
    assert!(matches!(next.stage, Stage::Latest { minor: 2 }));
}

#[test]
fn newest_minor_probe_nothing_published() {
    let (_, sel) = expect_fetch(VersionSelector::find_best_version(Runtime::Dotnet, request("9")));
    assert!(matches!(expect_failed(sel.on_reply(&not_found())), InstallError::NoVersionsAvailable));
}

#[test]
fn newest_minor_policy() {
    assert_eq!(find_newest_minor(3).unwrap(), 2);
    assert_eq!(find_newest_minor(1).unwrap(), 0);
    assert!(matches!(find_newest_minor(0), Err(InstallError::NoVersionsAvailable)));
}

#[test]
fn probe_other_failure_status_moves_on() {
    let (_, sel) = expect_fetch(VersionSelector::find_best_version(Runtime::Dotnet, request("5")));
    let reply = IndexReply::Response { status: 500, body: String::new() };
    let (url, next) = expect_fetch(sel.on_reply(&reply));
    assert_eq!(url, "https://dotnetcli.blob.core.windows.net/dotnet/Runtime/5.1/latest.version");
    assert!(matches!(next.stage, Stage::Probing { candidate: 1 }));
}

#[test]
fn probe_unreachable_fails() {
    let (_, sel) = expect_fetch(VersionSelector::find_best_version(Runtime::Dotnet, request("5")));
    assert!(matches!(expect_failed(sel.on_reply(&IndexReply::Unreachable)), InstallError::Transport));
}

#[test]
fn major_only_request_probes_then_reads_marker() {
    let (url, sel) = expect_fetch(VersionSelector::find_best_version(Runtime::Dotnet, request("5")));
    assert_eq!(url, "https://dotnetcli.blob.core.windows.net/dotnet/Runtime/5.0/latest.version");
    let (url, sel) = expect_fetch(sel.on_reply(&ok("x\n5.0.17\n")));
    assert_eq!(url, "https://dotnetcli.blob.core.windows.net/dotnet/Runtime/5.1/latest.version");
    let (url, sel) = expect_fetch(sel.on_reply(&ok("x\n5.1.4\n")));
    assert_eq!(url, "https://dotnetcli.blob.core.windows.net/dotnet/Runtime/5.2/latest.version");
    let (url, sel) = expect_fetch(sel.on_reply(&not_found()));
    assert_eq!(url, "https://dotnetcli.blob.core.windows.net/dotnet/Runtime/5.1/latest.version");
    let v = expect_resolved(sel.on_reply(&ok("d3adb33f\r\n5.1.4\r\n\r\n")));
    assert_eq!((v.major(), v.minor(), v.patch()), (5, 1, 4));
    assert_eq!(v.to_text(), "5.1.4");
}

#[test]
fn marker_keeps_prerelease() {
    let (_, sel) = expect_fetch(VersionSelector::find_best_version(Runtime::WindowsDesktop, request("5.0")));
    let v = expect_resolved(sel.on_reply(&ok("5.0.0-rc.2.20475.5+abc\n")));
    assert_eq!(v.to_text(), "5.0.0-rc.2.20475.5+abc");
}

#[test]
fn marker_failures_are_resolution_errors() {
    let cases = [
        not_found(),
        IndexReply::Response { status: 503, body: "5.1.2".to_string() },
        IndexReply::Unreachable,
        ok(""),
        ok("\n\n"),
        ok("5.1\n"),
        ok("not a version"),
    ];
    for reply in cases.iter() {
        let (_, sel) = expect_fetch(VersionSelector::find_best_version(Runtime::Dotnet, request("5.1")));
        assert!(matches!(expect_failed(sel.on_reply(reply)), InstallError::Resolution));
    }
}

#[test]
fn latest_url_per_channel() {
    assert_eq!(
        latest_version_url(Runtime::WindowsDesktop, 8, 12),
        "https://dotnetcli.blob.core.windows.net/dotnet/Runtime/8.12/latest.version"
    );
}

#[test]
fn product_version_falls_back_to_release_text() {
    let v = SemVer::new(5, 1, 3);
    let reply = IndexReply::Response { status: 404, body: "ignored".to_string() };
    assert_eq!(find_product_version(&v, &reply).unwrap(), "5.1.3");
    let reply = IndexReply::Response { status: 500, body: "ignored".to_string() };
    assert_eq!(find_product_version(&v, &reply).unwrap(), "5.1.3");
}

#[test]
fn product_version_trims_body() {
    let v = SemVer::new(3, 1, 0);
    assert_eq!(find_product_version(&v, &ok("  3.1.0-servicing \r\n")).unwrap(), "3.1.0-servicing");
    assert!(matches!(find_product_version(&v, &IndexReply::Unreachable), Err(InstallError::Transport)));
}

#[test]
fn product_version_addresses() {
    let v = SemVer::new(5, 0, 9);
    assert_eq!(
        product_version_url(Runtime::Dotnet, &v),
        "https://dotnetcli.azureedge.net/dotnet/Runtime/5.0.9/productVersion.txt"
    );
    assert_eq!(
        product_version_url(Runtime::AspCore, &v),
        "https://dotnetcli.blob.core.windows.net/dotnet/aspnetcore/Runtime/5.0.9/productVersion.txt"
    );
}

#[test]
fn marker_outside_requested_major_or_minor_is_rejected() {
    let (_, sel) = expect_fetch(VersionSelector::find_best_version(Runtime::Dotnet, request("5.1")));
    assert!(matches!(expect_failed(sel.on_reply(&ok("6.0.0\n"))), InstallError::Resolution));
    let (_, sel) = expect_fetch(VersionSelector::find_best_version(Runtime::Dotnet, request("5.1")));
    assert!(matches!(expect_failed(sel.on_reply(&ok("5.2.0\n"))), InstallError::Resolution));
    let (_, sel) = expect_fetch(VersionSelector::find_best_version(Runtime::Dotnet, request("5")));
    let (_, sel) = expect_fetch(sel.on_reply(&ok("5.0.17\n")));
    let (url, sel) = expect_fetch(sel.on_reply(&not_found()));
    assert_eq!(url, "https://dotnetcli.blob.core.windows.net/dotnet/Runtime/5.0/latest.version");
    assert!(matches!(expect_failed(sel.on_reply(&ok("4.0.1\n"))), InstallError::Resolution));
}
