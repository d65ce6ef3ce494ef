use vyomad::api::image_build::{build_failure_reply, build_is_measured, build_layout, measured_requested, BuildFailure};

#[test]
fn measured_builds() {
    assert!(measured_requested(Some("true")));
    assert!(!measured_requested(Some("True")));
    assert!(!measured_requested(Some("1")));
    assert!(!measured_requested(None));
    assert!(build_is_measured(false, true));
    assert!(build_is_measured(true, false));
    assert!(!build_is_measured(false, false));
}

#[test]
fn build_files_are_laid_out() {
    let l = build_layout("/tmp/.tmpAb12", "/home/u");
    assert_eq!(l.archive, "/tmp/.tmpAb12/context.tar.gz");
    assert_eq!(l.context_dir, "/tmp/.tmpAb12/context");
    assert_eq!(l.vyomafile, "/tmp/.tmpAb12/context/Vyomafile");
    assert_eq!(l.work_dir, "/home/u/.vyoma/builds");
}

#[test]
fn build_failures_are_answered() {
    assert_eq!(build_failure_reply(BuildFailure::MissingVyomafile), (400, "Vyomafile not found in build context".to_string()));
    assert_eq!(
        build_failure_reply(BuildFailure::Parse { error: "line 3".to_string() }),
        (400, "Failed to parse Vyomafile: line 3".to_string())
    );
    assert_eq!(
        build_failure_reply(BuildFailure::Unpack { error: "bad gzip".to_string() }),
        (500, "Unpack failed: bad gzip".to_string())
    );
    assert_eq!(
        build_failure_reply(BuildFailure::Build { detail: "Timeout".to_string() }),
        (500, "Build failed: Timeout".to_string())
    );
    assert_eq!(build_failure_reply(BuildFailure::Io { error: "disk full".to_string() }), (500, "disk full".to_string()));
    assert_eq!(build_failure_reply(BuildFailure::NoHome), (500, "No home dir".to_string()));
}
