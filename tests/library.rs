use boxpop::auth::Authentication;
use boxpop::fetch::{
    plan_downloads, DownloadTask, FetchAction, FetchJoin, FetchStage, LayerDescriptor,
    LayerFailure,
};
use boxpop::output::{OutputDir, OutputDirError};
use boxpop::reference::{ImageRef, ImageRefError, ImageRefVersion};
use boxpop::text::{decimal, layer_file_name, pluralize, progress_prefix};
use oci_client::secrets::RegistryAuth;
use std::path::PathBuf;

fn tag(registry: &str, repository: &str, tag: &str) -> ImageRef {
    ImageRef {
        registry: registry.to_string(),
        repository: repository.to_string(),
        version: ImageRefVersion::Tag(tag.to_string()),
    }
}

fn digest(registry: &str, repository: &str, digest: &str) -> ImageRef {
    ImageRef {
        registry: registry.to_string(),
        repository: repository.to_string(),
        version: ImageRefVersion::Digest(digest.to_string()),
    }
}

#[test]
fn parse_repository_only() {
    assert_eq!(ImageRef::parse("alpine"), Ok(tag("docker.io", "alpine", "latest")));
}

#[test]
fn parse_registry_and_repository() {
    assert_eq!(ImageRef::parse("ghcr.io/org/app"), Ok(tag("ghcr.io", "org/app", "latest")));
}

#[test]
fn parse_repository_and_tag() {
    assert_eq!(ImageRef::parse("alpine:3.19"), Ok(tag("docker.io", "alpine", "3.19")));
}

#[test]
fn parse_registry_repository_and_tag() {
    assert_eq!(ImageRef::parse("quay.io/a/b:v1"), Ok(tag("quay.io", "a/b", "v1")));
}

#[test]
fn parse_repository_and_digest() {
    assert_eq!(ImageRef::parse("alpine@abcd"), Ok(digest("docker.io", "alpine", "abcd")));
}

#[test]
fn parse_registry_repository_and_digest() {
    assert_eq!(ImageRef::parse("quay.io/a@abcd"), Ok(digest("quay.io", "a", "abcd")));
}

#[test]
fn parse_colon_wins_over_at() {
    assert_eq!(
        ImageRef::parse("alpine@sha256:abcd"),
        Ok(tag("docker.io", "alpine@sha256", "abcd"))
    );
}

#[test]
fn parse_errors_are_distinct() {
    assert_eq!(ImageRef::parse(""), Err(ImageRefError::EmptyRepository));
    assert_eq!(ImageRef::parse("/"), Err(ImageRefError::EmptyRegistry));
    assert_eq!(ImageRef::parse("repo:"), Err(ImageRefError::EmptyTag));
    assert_eq!(ImageRef::parse("repo@"), Err(ImageRefError::EmptyDigest));
    assert_eq!(ImageRef::parse(":tag"), Err(ImageRefError::EmptyRepository));
    assert_eq!(ImageRef::parse("reg/"), Err(ImageRefError::EmptyRepository));
}

#[test]
fn from_str_agrees_with_parse() {
    let r: Result<ImageRef, ImageRefError> = "alpine:edge".parse();
    assert_eq!(r, Ok(tag("docker.io", "alpine", "edge")));
}

#[test]
fn canonical_round_trip() {
    let cases = [
        ("repo", "docker.io/repo:latest"),
        ("registry/repo", "registry/repo:latest"),
        ("repo:tag", "docker.io/repo:tag"),
        ("registry/repo:tag", "registry/repo:tag"),
        ("repo@digest", "docker.io/repo@digest"),
        ("registry/repo@digest", "registry/repo@digest"),
        ("registry/a/b:c/d", "registry/a/b:c/d"),
    ];
    for (input, canonical) in cases {
        let parsed = ImageRef::parse(input).unwrap();
        assert_eq!(parsed.canonical(), canonical);
        assert_eq!(ImageRef::parse(&parsed.canonical()), Ok(parsed));
    }
}

#[test]
fn short_form_omits_registry() {
    assert_eq!(ImageRef::parse("quay.io/a/b:v1").unwrap().to_string(), "a/b:v1");
    assert_eq!(ImageRef::parse("a@d").unwrap().to_string(), "a@d");
}

#[test]
fn select_authentication() {
    let s = |v: &str| Some(v.to_string());
    assert_eq!(Authentication::new(None, None), Authentication::Anonymous);
    assert_eq!(
        Authentication::new(s("u"), s("p")),
        Authentication::Basic("u".to_string(), "p".to_string())
    );
    assert_eq!(
        Authentication::new(s("u"), None),
        Authentication::Basic("u".to_string(), String::new())
    );
    assert_eq!(
        Authentication::new(None, s("p")),
        Authentication::Basic(String::new(), "p".to_string())
    );
    assert_eq!(Authentication::default(), Authentication::Anonymous);
}

#[test]
fn output_refuses_a_file() {
    let p = PathBuf::from("/tmp/some-file");
    assert_eq!(OutputDir::from_canonical(p.clone(), true), Err(OutputDirError::IsFile(p)));
}

#[test]
fn output_accepts_a_directory() {
    let p = PathBuf::from("/tmp/out");
    assert_eq!(
        OutputDir::from_canonical(p.clone(), false),
        Ok(OutputDir { is_temporary: false, path: p.clone() })
    );
    assert!(OutputDir::temporary(p).is_temporary);
}

#[test]
fn file_name_replaces_colons() {
    assert_eq!(layer_file_name("sha256:abcd"), "sha256_abcd");
    assert_eq!(layer_file_name("a:b:c"), "a_b_c");
    assert_eq!(layer_file_name(""), "");
}

#[test]
fn pluralize_by_count() {
    assert_eq!(pluralize("layer", "", "s", 0), "layers");
    assert_eq!(pluralize("layer", "", "s", 1), "layer");
    assert_eq!(pluralize("layer", "", "s", 2), "layers");
}

#[test]
fn decimal_and_prefix() {
    assert_eq!(decimal(0), "0");
    assert_eq!(decimal(10), "10");
    assert_eq!(decimal(usize::MAX), usize::MAX.to_string());
    assert_eq!(progress_prefix(3, 12), "[3/12]");
}

fn layer(d: &str, size: Option<u64>) -> LayerDescriptor {
    LayerDescriptor { digest: d.to_string(), size }
}

#[test]
fn plan_names_each_layer() {
    let layers = vec![layer("sha256:aa", Some(3)), layer("sha256:bb", None), layer("sha256:cc", Some(1))];
    let tasks = plan_downloads(&layers);
    assert_eq!(tasks.len(), 3);
    assert_eq!(
        tasks[1],
        DownloadTask {
            index: 2,
            task_count: 6,
            file_name: "sha256_bb".to_string(),
            prefix: "[2/6]".to_string(),
        }
    );
    let names: Vec<&str> = tasks.iter().map(|t| t.file_name.as_str()).collect();
    assert_eq!(names, vec!["sha256_aa", "sha256_bb", "sha256_cc"]);
}

#[test]
fn plan_of_no_layers_is_empty() {
    assert!(plan_downloads(&Vec::new()).is_empty());
}

#[test]
fn identical_digests_share_a_file() {
    let layers = vec![layer("sha256:aa", None), layer("sha256:aa", None)];
    let tasks = plan_downloads(&layers);
    assert_eq!(tasks[0].file_name, tasks[1].file_name);
    assert_ne!(tasks[0].index, tasks[1].index);
}

#[test]
fn fetch_all_layers_succeed() {
    let mut f = FetchJoin::new(2);
    assert_eq!(f.next_action(), FetchAction::OpenStream(0));
    f.stream_opened();
    assert_eq!(f.next_action(), FetchAction::OpenStream(1));
    f.stream_opened();
    assert_eq!(f.next_action(), FetchAction::JoinNext);
    f.task_finished(1, None);
    f.task_finished(0, None);
    assert_eq!(f.next_action(), FetchAction::Finish(None));
}

#[test]
fn fetch_of_no_layers_finishes() {
    assert_eq!(FetchJoin::new(0).next_action(), FetchAction::Finish(None));
}

#[test]
fn fetch_waits_for_siblings_and_reports_lowest_failure() {
    let mut f = FetchJoin::new(3);
    for _ in 0..3 {
        f.stream_opened();
    }
    f.task_finished(2, Some(FetchStage::Copy));
    assert_eq!(f.next_action(), FetchAction::JoinNext);
    f.task_finished(0, None);
    f.task_finished(1, Some(FetchStage::Flush));
    assert_eq!(
        f.next_action(),
        FetchAction::Finish(Some(LayerFailure { layer: 1, stage: FetchStage::Flush }))
    );
}

#[test]
fn fetch_stops_opening_after_stream_failure() {
    let mut f = FetchJoin::new(3);
    f.stream_opened();
    assert_eq!(f.next_action(), FetchAction::OpenStream(1));
    f.stream_failed();
    assert_eq!(f.next_action(), FetchAction::JoinNext);
    f.task_finished(0, Some(FetchStage::CreateFile));
    assert_eq!(
        f.next_action(),
        FetchAction::Finish(Some(LayerFailure { layer: 0, stage: FetchStage::CreateFile }))
    );
}

#[test]
fn registry_auth_keeps_credentials() {
    assert!(Authentication::Anonymous.to_registry_auth() == RegistryAuth::Anonymous);
    let basic = Authentication::new(Some("u".to_string()), None).to_registry_auth();
    assert!(basic == RegistryAuth::Basic("u".to_string(), String::new()));
    assert!(basic != RegistryAuth::Basic(String::new(), "u".to_string()));
}
