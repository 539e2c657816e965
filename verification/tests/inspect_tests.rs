use mockstruct_launcher::inspect::last_token;
use mockstruct_launcher::inspect::local_version;
use mockstruct_launcher::inspect::sidecar_version;
use mockstruct_launcher::inspect::trimmed;
use mockstruct_launcher::inspect::LocalVersion;
use mockstruct_launcher::version::SemanticVersion;

fn v(major: u64, minor: u64, patch: u64) -> SemanticVersion {
    SemanticVersion { major, minor, patch }
}

#[test]
fn query_output_wins_over_sidecar() {
    let r = local_version(Some("mockstruct version 1.2.0\n"), Some("9.9.9"));
    assert_eq!(r, LocalVersion::Known(v(1, 2, 0)));
}

#[test]
fn failed_query_falls_back_to_sidecar() {
    let r = local_version(None, Some(" 1.0.0\n"));
    assert_eq!(r, LocalVersion::Known(v(1, 0, 0)));
}

#[test]
fn unparsable_output_falls_back_to_sidecar() {
    let r = local_version(Some("no version printed here"), Some("2.0.0"));
    assert_eq!(r, LocalVersion::Known(v(2, 0, 0)));
}

#[test]
fn empty_output_falls_back_to_sidecar() {
    let r = local_version(Some("   \n"), Some("2.1.0"));
    assert_eq!(r, LocalVersion::Known(v(2, 1, 0)));
}

#[test]
fn nothing_readable_is_unknown() {
    assert_eq!(local_version(None, None), LocalVersion::Unknown);
    assert_eq!(
        local_version(Some("garbage"), Some("junk")),
        LocalVersion::Unknown
    );
}

#[test]
fn sidecar_is_trimmed_before_parsing() {
    assert_eq!(
        sidecar_version("\n  3.1.4\t "),
        LocalVersion::Known(v(3, 1, 4))
    );
}

#[test]
fn sidecar_with_extra_words_is_unknown() {
    assert_eq!(sidecar_version("version 3.1.4"), LocalVersion::Unknown);
}

#[test]
fn last_token_takes_the_final_word() {
    assert_eq!(last_token("a b  c "), Some("c"));
    assert_eq!(last_token("one"), Some("one"));
    assert_eq!(last_token("\tmockstruct 0.5.1\n"), Some("0.5.1"));
}

#[test]
fn last_token_of_blank_input_is_none() {
    assert_eq!(last_token(""), None);
    assert_eq!(last_token(" \t\r\n"), None);
}

#[test]
fn trimming_strips_both_ends_only() {
    assert_eq!(trimmed("  a b\t"), "a b");
    assert_eq!(trimmed(""), "");
    assert_eq!(trimmed(" \n "), "");
    assert_eq!(trimmed("x"), "x");
}
