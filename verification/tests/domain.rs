use upload_core::components::{ContributionListItem, Contributions, PlaceholderOrContent};
use upload_core::service::material::{MaterialCategory, UpdateMaterial};
use upload_core::service::submission::{Section, SubmissionKind, UpdateSubmission};

#[test]
fn material_category_parsing() {
    assert_eq!(MaterialCategory::try_from("Audio"), Ok(MaterialCategory::Audio));
    assert_eq!(MaterialCategory::try_from("audio"), Ok(MaterialCategory::Audio));
    assert_eq!(MaterialCategory::try_from("Video"), Ok(MaterialCategory::Video));
    assert_eq!(MaterialCategory::try_from("video"), Ok(MaterialCategory::Video));
    assert_eq!(MaterialCategory::try_from("Sheet"), Ok(MaterialCategory::SheetMusic));
    assert_eq!(MaterialCategory::try_from("sheet"), Ok(MaterialCategory::SheetMusic));
    assert_eq!(MaterialCategory::try_from("sheetMusic"), Ok(MaterialCategory::SheetMusic));
    assert_eq!(MaterialCategory::try_from("sheetmusic"), Ok(MaterialCategory::SheetMusic));
    assert_eq!(MaterialCategory::try_from("Other"), Ok(MaterialCategory::Other));
    assert_eq!(MaterialCategory::try_from("other"), Ok(MaterialCategory::Other));
    assert_eq!(MaterialCategory::try_from("AUDIO"), Err(()));
    assert_eq!(MaterialCategory::try_from(""), Err(()));
    assert_eq!(MaterialCategory::try_from("Noten"), Err(()));
}

#[test]
fn material_category_names() {
    assert_eq!(MaterialCategory::Audio.name(), "Audio");
    assert_eq!(MaterialCategory::Video.name(), "Video");
    assert_eq!(MaterialCategory::SheetMusic.name(), "Noten");
    assert_eq!(MaterialCategory::Other.name(), "Sonstiges");
}

#[test]
fn section_parsing() {
    assert_eq!(Section::try_from("Soprano1"), Ok(Section::Soprano1));
    assert_eq!(Section::try_from("Soprano2"), Ok(Section::Soprano2));
    assert_eq!(Section::try_from("Alto1"), Ok(Section::Alto1));
    assert_eq!(Section::try_from("Alto2"), Ok(Section::Alto2));
    assert_eq!(Section::try_from("Tenor1"), Ok(Section::Tenor1));
    assert_eq!(Section::try_from("Tenor2"), Ok(Section::Tenor2));
    assert_eq!(Section::try_from("Bass1"), Ok(Section::Bass1));
    assert_eq!(Section::try_from("Bass2"), Ok(Section::Bass2));
    assert_eq!(Section::try_from("Conductor"), Ok(Section::Conductor));
    assert_eq!(Section::try_from("Instrument"), Ok(Section::Instrument));
    assert_eq!(Section::try_from("soprano1"), Err(()));
    assert_eq!(Section::try_from("Sopran 1"), Err(()));
    assert_eq!(Section::try_from(""), Err(()));
}

#[test]
fn section_names() {
    assert_eq!(Section::Soprano1.name(), "Sopran 1");
    assert_eq!(Section::Soprano2.name(), "Sopran 2");
    assert_eq!(Section::Alto1.name(), "Alt 1");
    assert_eq!(Section::Alto2.name(), "Alt 2");
    assert_eq!(Section::Tenor1.name(), "Tenor 1");
    assert_eq!(Section::Tenor2.name(), "Tenor 2");
    assert_eq!(Section::Bass1.name(), "Bass 1");
    assert_eq!(Section::Bass2.name(), "Bass 2");
    assert_eq!(Section::Conductor.name(), "Dirigent");
    assert_eq!(Section::Instrument.name(), "Instrument");
}

#[test]
fn submission_kind_from_extension() {
    assert_eq!(SubmissionKind::from("wav"), SubmissionKind::Audio);
    assert_eq!(SubmissionKind::from("mp3"), SubmissionKind::Audio);
    assert_eq!(SubmissionKind::from("flac"), SubmissionKind::Audio);
    assert_eq!(SubmissionKind::from("mp4"), SubmissionKind::Video);
    assert_eq!(SubmissionKind::from("avchd"), SubmissionKind::Video);
    assert_eq!(SubmissionKind::from("webm"), SubmissionKind::Video);
    assert_eq!(SubmissionKind::from("pdf"), SubmissionKind::Document);
    assert_eq!(SubmissionKind::from("document"), SubmissionKind::Document);
    assert_eq!(SubmissionKind::from("txt"), SubmissionKind::Other);
    assert_eq!(SubmissionKind::from(""), SubmissionKind::Other);
}

#[test]
fn submission_kind_ignores_case() {
    assert_eq!(SubmissionKind::from("WAV"), SubmissionKind::Audio);
    assert_eq!(SubmissionKind::from("Mp3"), SubmissionKind::Audio);
    assert_eq!(SubmissionKind::from("OGG"), SubmissionKind::Audio);
    assert_eq!(SubmissionKind::from("MKV"), SubmissionKind::Video);
    assert_eq!(SubmissionKind::from("PDF"), SubmissionKind::Document);
    assert_eq!(SubmissionKind::from("AUDIO"), SubmissionKind::Audio);
}

#[test]
fn submission_kind_names() {
    assert_eq!(SubmissionKind::Audio.name(), "Audio");
    assert_eq!(SubmissionKind::Video.name(), "Video");
    assert_eq!(SubmissionKind::Document.name(), "Dokument");
    assert_eq!(SubmissionKind::Other.name(), "Sonstiges");
}

#[test]
fn update_payloads_hold_their_fields() {
    let update = UpdateMaterial { title: "Score".to_string(), category: MaterialCategory::SheetMusic };
    assert_eq!(update.title, "Score");
    assert_eq!(update.category, MaterialCategory::SheetMusic);

    let update = UpdateSubmission {
        note: "second take".to_string(),
        section: Section::Tenor2,
        kind: SubmissionKind::Audio,
        creator_name: "A. Singer".to_string(),
    };
    assert_eq!(update.section, Section::Tenor2);
    assert_eq!(update.kind, SubmissionKind::Audio);
}

#[test]
fn component_data_holds_its_fields() {
    let placeholder = PlaceholderOrContent::Placeholder("loading".to_string());
    assert_ne!(placeholder, PlaceholderOrContent::Content("loading".to_string()));

    let item = ContributionListItem { id: 4, title: "Spring concert".to_string(), due: "2026-05-01".to_string() };
    let list = Contributions { contributions: vec![item.clone()] };
    assert_eq!(list.contributions.len(), 1);
    assert_eq!(list.contributions[0], item);
}
