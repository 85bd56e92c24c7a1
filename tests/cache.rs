use std::str::FromStr;
use whisper_stream::archive::{entry_action, EntryAction};
use whisper_stream::model::Model;
use whisper_stream::store::{
    aux_archive_name, aux_base_name, aux_dir_name, aux_url, cache_namespace, Acquisition, Step,
};

#[test]
fn model_accessors() {
    assert_eq!(Model::BaseEn.name(), "base.en");
    assert_eq!(Model::TinyEn.name(), "tiny.en");
    assert_eq!(Model::SmallEn.name(), "small.en");
    assert_eq!(Model::BaseEn.file_name(), "ggml-base.en.bin");
    assert_eq!(Model::TinyEn.file_name(), "ggml-tiny.en.bin");
    assert_eq!(Model::SmallEn.file_name(), "ggml-small.en.bin");
    assert_eq!(
        Model::SmallEn.url(),
        "https://huggingface.co/ggerganov/whisper.cpp/resolve/main/ggml-small.en.bin"
    );
    assert_eq!(
        Model::BaseEn.url(),
        "https://huggingface.co/ggerganov/whisper.cpp/resolve/main/ggml-base.en.bin"
    );
}

#[test]
fn model_list_in_order() {
    assert_eq!(Model::list(), vec![Model::BaseEn, Model::TinyEn, Model::SmallEn]);
}

#[test]
fn model_parse_known_and_unknown() {
    for m in Model::list() {
        assert_eq!(Model::parse(m.name()), Some(m));
        assert_eq!(Model::from_str(m.name()), Ok(m));
    }
    assert_eq!(Model::parse("large"), None);
    assert_eq!(Model::parse(""), None);
    assert_eq!(Model::parse("base.en "), None);
    assert_eq!(Model::from_str("Base.en"), Err(()));
}

#[test]
fn cache_layout_names() {
    assert_eq!(cache_namespace(), "whisper-stream-rs");
    assert_eq!(aux_base_name(), "ggml-base.en");
    assert_eq!(aux_dir_name("ggml-base.en"), "ggml-base.en-encoder.mlmodelc");
    assert_eq!(aux_archive_name("ggml-base.en"), "ggml-base.en-encoder.mlmodelc.zip");
    assert_eq!(
        aux_url("ggml-base.en"),
        "https://models.milan.place/whisper-cpp/metal//ggml-base.en-encoder.mlmodelc.zip"
    );
}

fn drive(aux: bool, reports: &[bool]) -> Vec<Step> {
    let mut a = Acquisition::start(aux);
    let mut seen = vec![a.pending()];
    for &ok in reports {
        a.advance(ok);
        seen.push(a.pending());
    }
    seen
}

#[test]
fn second_ensure_makes_no_network_call() {
    let first = drive(false, &[false, true]);
    assert_eq!(first, vec![Step::CheckPrimary, Step::DownloadPrimary, Step::Succeed]);
    let second = drive(false, &[true]);
    assert_eq!(second, vec![Step::CheckPrimary, Step::Succeed]);
    let with_aux = drive(true, &[true, false, false]);
    assert_eq!(with_aux, vec![Step::CheckPrimary, Step::Succeed, Step::Succeed, Step::Succeed]);
    assert!(!with_aux.contains(&Step::DownloadPrimary) && !with_aux.contains(&Step::DownloadAux));
}

#[test]
fn aux_already_present_after_download() {
    let steps = drive(true, &[false, true, true]);
    assert_eq!(steps, vec![Step::CheckPrimary, Step::DownloadPrimary, Step::CheckAux, Step::Succeed]);
}

#[test]
fn full_acquisition_with_aux() {
    let steps = drive(true, &[false, true, false, true, true, true]);
    assert_eq!(
        steps,
        vec![
            Step::CheckPrimary,
            Step::DownloadPrimary,
            Step::CheckAux,
            Step::DownloadAux,
            Step::ExpandAux,
            Step::RemoveArchive,
            Step::Succeed
        ]
    );
}

#[test]
fn corrupt_archive_is_rolled_back_then_fails() {
    let steps = drive(true, &[false, true, false, true, false, false]);
    assert_eq!(
        steps,
        vec![
            Step::CheckPrimary,
            Step::DownloadPrimary,
            Step::CheckAux,
            Step::DownloadAux,
            Step::ExpandAux,
            Step::CleanupAux,
            Step::Fail
        ]
    );
    let steps = drive(true, &[false, true, false, true, false, true]);
    assert_eq!(steps.last(), Some(&Step::Fail));
}

#[test]
fn failed_download_fails() {
    assert_eq!(drive(false, &[false, false]).last(), Some(&Step::Fail));
    assert_eq!(drive(true, &[false, true, false, false]).last(), Some(&Step::Fail));
}

#[test]
fn archive_entries() {
    assert_eq!(entry_action("../evil.txt", false), EntryAction::Skip);
    assert_eq!(entry_action("dir/", false), EntryAction::Skip);
    assert_eq!(entry_action("dir/", true), EntryAction::CreateDir);
    assert_eq!(entry_action("dir/file.bin", true), EntryAction::WriteFile);
    assert_eq!(entry_action("", true), EntryAction::WriteFile);
}
