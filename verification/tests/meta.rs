use rustc_version::banner::{banner_fields, BannerFields};
use rustc_version::{
    version_meta_for, Channel, Error, Identifier, LLVMVersion, Version, VersionMeta,
};

fn unexpected(text: &str) -> bool {
    matches!(version_meta_for(text), Err(Error::UnexpectedVersionFormat))
}

const SIX: &str = "rustc 1.3.0 (9a92aaf19 2015-09-15)
binary: rustc
commit-hash: 9a92aaf19a64603b02b4130fe52958cc12488900
commit-date: 2015-09-15
host: x86_64-unknown-linux-gnu
release: 1.3.0";

#[test]
fn six_lines_have_neither_build_date_nor_llvm_version() {
    let meta = version_meta_for(SIX).unwrap();
    assert_eq!(meta.build_date, None);
    assert_eq!(meta.llvm_version, None);
    assert_eq!(meta.semver, Version::parse("1.3.0").unwrap());
}

#[test]
fn five_lines_are_refused() {
    assert!(unexpected(
        "rustc 1.3.0
binary: rustc
commit-hash: unknown
commit-date: unknown
host: x86_64-unknown-linux-gnu"
    ));
}

#[test]
fn nine_lines_are_refused() {
    assert!(unexpected(
        "rustc 1.0.0 (a59de37e9 2015-05-13) (built 2015-05-14)
binary: rustc
commit-hash: a59de37e99060162a2674e3ff45409ac73595c0e
commit-date: 2015-05-13
build-date: 2015-05-14
host: x86_64-unknown-linux-gnu
release: 1.0.0
LLVM version: 3.9
one more"
    ));
}

#[test]
fn no_lines_are_refused() {
    assert!(unexpected(""));
    assert!(unexpected("\n"));
    assert!(unexpected("rustc 1.3.0"));
}

#[test]
fn eight_lines_with_both_optional_lines() {
    let meta = version_meta_for(
        "rustc 1.0.0 (a59de37e9 2015-05-13) (built 2015-05-14)
binary: rustc
commit-hash: a59de37e99060162a2674e3ff45409ac73595c0e
commit-date: 2015-05-13
build-date: 2015-05-14
host: x86_64-unknown-linux-gnu
release: 1.0.0
LLVM version: 3.9",
    )
    .unwrap();
    assert_eq!(meta.build_date, Some("2015-05-14".to_string()));
    assert_eq!(meta.llvm_version, Some(LLVMVersion { major: 3, minor: 9 }));
    assert_eq!(meta.host, "x86_64-unknown-linux-gnu");
}

#[test]
fn lines_after_the_llvm_version_are_not_read() {
    let meta = version_meta_for(
        "rustc 1.46.0
binary: rustc
commit-hash: unknown
commit-date: unknown
host: aarch64-linux-android
release: 1.46.0
LLVM version: 10.0
anything",
    )
    .unwrap();
    assert_eq!(meta.llvm_version, Some(LLVMVersion { major: 10, minor: 0 }));
}

#[test]
fn short_version_string_is_the_first_line() {
    let meta = version_meta_for(
        "  any first line: \u{e9} \t
binary: rustc
commit-hash: unknown
commit-date: unknown
host: h
release: 1.0.0",
    )
    .unwrap();
    assert_eq!(meta.short_version_string, "  any first line: \u{e9} \t");
}

#[test]
fn unknown_is_absent_and_other_values_stay() {
    let meta = version_meta_for(
        "rustc
binary: rustc
commit-hash: unknown
commit-date: Unknown
build-date: unknown
host: unknown
release: 1.0.0",
    )
    .unwrap();
    assert_eq!(meta.commit_hash, None);
    assert_eq!(meta.commit_date, Some("Unknown".to_string()));
    assert_eq!(meta.build_date, None);
    assert_eq!(meta.host, "unknown");

    let meta = version_meta_for(
        "rustc
binary: rustc
commit-hash: unknown 
commit-date: 
build-date:  unknown
host: 
release: 1.0.0",
    )
    .unwrap();
    assert_eq!(meta.commit_hash, Some("unknown ".to_string()));
    assert_eq!(meta.commit_date, Some("".to_string()));
    assert_eq!(meta.build_date, Some(" unknown".to_string()));
    assert_eq!(meta.host, "");
}

fn with_release(release: &str) -> String {
    format!(
        "rustc\nbinary: rustc\ncommit-hash: unknown\ncommit-date: unknown\nhost: h\nrelease: {}",
        release
    )
}

#[test]
fn channel_by_first_identifier() {
    let channel = |release: &str| version_meta_for(&with_release(release)).unwrap().channel;
    assert_eq!(channel("1.2.3"), Channel::Stable);
    assert_eq!(channel("1.2.3+build"), Channel::Stable);
    assert_eq!(channel("1.2.3-dev"), Channel::Dev);
    assert_eq!(channel("1.2.3-beta"), Channel::Beta);
    assert_eq!(channel("1.2.3-nightly"), Channel::Nightly);
    assert_eq!(channel("1.2.3-beta.3"), Channel::Beta);
    assert_eq!(channel("1.2.3-nightly.rc1.7"), Channel::Nightly);
    assert_eq!(channel("1.2.3-dev+nightly"), Channel::Dev);
}

#[test]
fn unknown_tag_is_refused_with_the_tag() {
    match version_meta_for(&with_release("1.2.3-rc1")) {
        Err(Error::UnknownPreReleaseTag(tag)) => {
            assert_eq!(tag, Identifier::AlphaNumeric("rc1".to_string()))
        }
        other => panic!("{:?}", other),
    }
    match version_meta_for(&with_release("1.2.3-7.beta")) {
        Err(Error::UnknownPreReleaseTag(tag)) => assert_eq!(tag, Identifier::Numeric(7)),
        other => panic!("{:?}", other),
    }
    match version_meta_for(&with_release("1.2.3-Beta")) {
        Err(Error::UnknownPreReleaseTag(tag)) => {
            assert_eq!(tag, Identifier::AlphaNumeric("Beta".to_string()))
        }
        other => panic!("{:?}", other),
    }
    match version_meta_for(&with_release("1.2.3-betamax")) {
        Err(Error::UnknownPreReleaseTag(tag)) => {
            assert_eq!(tag, Identifier::AlphaNumeric("betamax".to_string()))
        }
        other => panic!("{:?}", other),
    }
}

#[test]
fn release_that_is_no_version_is_refused() {
    assert!(matches!(version_meta_for(&with_release("1.0")), Err(Error::SemVerError(_))));
    assert!(matches!(version_meta_for(&with_release("")), Err(Error::SemVerError(_))));
    assert!(matches!(version_meta_for(&with_release("1.0.01")), Err(Error::SemVerError(_))));
    assert!(matches!(version_meta_for(&with_release("a.b.c")), Err(Error::SemVerError(_))));
}

#[test]
fn release_refused_with_the_error_of_its_own_text() {
    for release in ["1.0", "", "a.b.c", "1.0.01", "1.2.3-"] {
        match version_meta_for(&with_release(release)) {
            Err(Error::SemVerError(e)) => {
                assert_eq!(e, semver::Version::parse(release).unwrap_err())
            }
            other => panic!("{:?}", other),
        }
    }
}

#[test]
fn release_with_many_hyphens() {
    let spread = format!("1.0.0-dev{}", ".a-a".repeat(256));
    let meta = version_meta_for(&with_release(&spread)).unwrap();
    assert_eq!(meta.channel, Channel::Dev);
    assert_eq!(meta.build_date, None);
    assert_eq!(meta.llvm_version, None);
    assert_eq!(meta.semver.pre.len(), 257);

    let deepest = format!("1.0.0-{}", vec!["a"; 256].join("-"));
    match version_meta_for(&with_release(&deepest)) {
        Err(Error::UnknownPreReleaseTag(tag)) => {
            assert_eq!(tag, Identifier::AlphaNumeric(vec!["a"; 256].join("-")))
        }
        other => panic!("{:?}", other),
    }

    let text = format!("{}\nLLVM version: 11.0", with_release(&format!("1.0.0+{}", "a-".repeat(255))));
    assert!(matches!(version_meta_for(&text), Err(Error::SemVerError(_))));
    let text = format!("{}\nLLVM version: 11.0", with_release(&format!("1.0.0+{}a", "a-".repeat(255))));
    assert_eq!(
        version_meta_for(&text).unwrap().llvm_version,
        Some(LLVMVersion { major: 11, minor: 0 })
    );
}

#[test]
fn release_too_deep_is_refused() {
    let release = |hyphens: usize| format!("1.0.0-nightly.{}", vec!["a"; hyphens + 1].join("-"));
    let meta = version_meta_for(&with_release(&release(255))).unwrap();
    assert_eq!(meta.channel, Channel::Nightly);
    assert!(unexpected(&with_release(&release(256))));
    assert!(unexpected(&with_release(&release(1000))));
    let text = format!("{}\nLLVM version: 11.0", with_release(&release(256)));
    assert!(unexpected(&text));
}

#[test]
fn release_is_read_before_the_llvm_version() {
    let text = format!("{}\nno llvm here", with_release("1.0"));
    assert!(matches!(version_meta_for(&text), Err(Error::SemVerError(_))));
    let text = format!("{}\nno llvm here", with_release("1.0.0-rc"));
    assert!(matches!(version_meta_for(&text), Err(Error::UnknownPreReleaseTag(_))));
    let text = format!("{}\nno llvm here", with_release("1.0.0"));
    assert!(unexpected(&text));
    let text = format!("{}\nLLVM version:10.0", with_release("1.0.0"));
    assert!(unexpected(&text));
    let text = format!("{}\n", with_release("1.0.0"));
    assert_eq!(version_meta_for(&text).unwrap().llvm_version, None);
    let text = format!("{}\n\n", with_release("1.0.0"));
    assert!(unexpected(&text));
}

#[test]
fn labels_are_exact() {
    let banner = |lines: [&str; 6]| lines.join("\n");
    let good = ["rustc", "binary: rustc", "commit-hash: a", "commit-date: b", "host: h", "release: 1.0.0"];
    assert!(version_meta_for(&banner(good)).is_ok());
    for (index, line) in [
        (2, "commit-hash:a"),
        (2, "Commit-hash: a"),
        (2, " commit-hash: a"),
        (2, "commit-hash"),
        (3, "commit-date:\tb"),
        (3, "commit-hash: a"),
        (4, "host:h"),
        (4, "release: 1.0.0"),
        (4, "build-date 2015"),
        (4, "build-date"),
        (4, "build-date:2015"),
        (5, "release:1.0.0"),
        (5, "host: h"),
    ] {
        let mut lines = good;
        lines[index] = line;
        assert!(unexpected(&banner(lines)), "{:?}", line);
    }
    let mut lines = good;
    lines[1] = "anything";
    assert!(version_meta_for(&banner(lines)).is_ok());
}

#[test]
fn build_date_without_a_release_line_is_refused() {
    assert!(unexpected(
        "rustc 1.0.0
binary: rustc
commit-hash: unknown
commit-date: unknown
build-date: 2015-05-14
host: x86_64-unknown-linux-gnu"
    ));
}

#[test]
fn line_endings() {
    let unix = version_meta_for(&format!("{}\n", SIX)).unwrap();
    assert_eq!(unix, version_meta_for(SIX).unwrap());
    let windows = version_meta_for(&format!("{}\r\n", SIX.replace('\n', "\r\n"))).unwrap();
    assert_eq!(windows, unix);
    assert_eq!(windows.host, "x86_64-unknown-linux-gnu");
    let ended = format!("{}\nLLVM version: 10.0\r\n", SIX);
    assert_eq!(
        version_meta_for(&ended).unwrap().llvm_version,
        Some(LLVMVersion { major: 10, minor: 0 })
    );
    let bare = format!("{}\nLLVM version: 10.0\r", SIX);
    assert!(unexpected(&bare));
}

#[test]
fn end_to_end() {
    let meta = version_meta_for(
        "rustc 1.47.0 (18bf6b4f0 2020-10-07)
binary: rustc
commit-hash: 18bf6b4f01a6feaf7259ba7cdae58031af1b7b39
commit-date: 2020-10-07
host: powerpc64le-unknown-linux-gnu
release: 1.47.0
LLVM version: 11.0
",
    )
    .unwrap();
    assert_eq!(
        meta,
        VersionMeta {
            semver: Version { major: 1, minor: 47, patch: 0, pre: vec![], build: vec![] },
            commit_hash: Some("18bf6b4f01a6feaf7259ba7cdae58031af1b7b39".to_string()),
            commit_date: Some("2020-10-07".to_string()),
            build_date: None,
            channel: Channel::Stable,
            host: "powerpc64le-unknown-linux-gnu".to_string(),
            short_version_string: "rustc 1.47.0 (18bf6b4f0 2020-10-07)".to_string(),
            llvm_version: Some(LLVMVersion { major: 11, minor: 0 }),
        }
    );
}

#[test]
fn fields_of_a_banner() {
    let fields = banner_fields(
        "first
second
commit-hash: abc
commit-date: unknown
build-date: 2015
host: triple
release: not read here
what follows",
    )
    .unwrap();
    assert_eq!(fields.short_version_string, "first");
    assert_eq!(fields.commit_hash, Some("abc"));
    assert_eq!(fields.commit_date, None);
    assert_eq!(fields.build_date, Some("2015"));
    assert_eq!(fields.host, "triple");
    assert_eq!(fields.release, "not read here");
    assert_eq!(fields.llvm_line, Some("what follows"));
    assert!(matches!(banner_fields("first\nsecond"), Err(Error::UnexpectedVersionFormat)));
}

fn fields<'a>(llvm_line: Option<&'a str>) -> BannerFields<'a> {
    BannerFields {
        short_version_string: "short",
        commit_hash: Some("hash"),
        commit_date: None,
        build_date: Some("built"),
        host: "host",
        release: "never read",
        llvm_line,
    }
}

fn version(pre: Vec<Identifier>) -> Version {
    Version { major: 1, minor: 2, patch: 3, pre, build: vec![Identifier::Numeric(5)] }
}

#[test]
fn metadata_from_parts() {
    let meta = VersionMeta::from_parts(
        &fields(Some("LLVM version: 3.9")),
        version(vec![Identifier::AlphaNumeric("nightly".to_string()), Identifier::Numeric(2)]),
    )
    .unwrap();
    assert_eq!(
        meta,
        VersionMeta {
            semver: version(vec![
                Identifier::AlphaNumeric("nightly".to_string()),
                Identifier::Numeric(2)
            ]),
            commit_hash: Some("hash".to_string()),
            commit_date: None,
            build_date: Some("built".to_string()),
            channel: Channel::Nightly,
            host: "host".to_string(),
            short_version_string: "short".to_string(),
            llvm_version: Some(LLVMVersion { major: 3, minor: 9 }),
        }
    );
    let meta = VersionMeta::from_parts(&fields(None), version(vec![])).unwrap();
    assert_eq!(meta.channel, Channel::Stable);
    assert_eq!(meta.llvm_version, None);
}

#[test]
fn metadata_from_parts_refused() {
    assert!(matches!(
        VersionMeta::from_parts(&fields(Some("LLVM version: 3")), version(vec![])),
        Err(Error::UnexpectedVersionFormat)
    ));
    assert!(matches!(
        VersionMeta::from_parts(&fields(Some("LLVM: 3.9")), version(vec![])),
        Err(Error::UnexpectedVersionFormat)
    ));
    match VersionMeta::from_parts(
        &fields(Some("LLVM: 3.9")),
        version(vec![Identifier::Numeric(0), Identifier::AlphaNumeric("dev".to_string())]),
    ) {
        Err(Error::UnknownPreReleaseTag(tag)) => assert_eq!(tag, Identifier::Numeric(0)),
        other => panic!("{:?}", other),
    }
}
