//! Submission resources: their URLs, the singer sections, and the kind a
//! submitted file is classified as.
use vstd::prelude::*;

use crate::digits::{dec_rep_signed, i64_to_string};
use crate::service::{backend, Config};
use crate::text::{lower_of, lowercase, str_eq};

verus! {

/// The URL one submission is downloaded from.
pub fn submission_download_url(config: &Config, submission_id: i64) -> (r: String)
    ensures
        r@ == config.backend_url@ + "/submissions/"@ + dec_rep_signed(submission_id as int),
{
    let mut url = backend(config);
    url.append("/submissions/");
    url.append(i64_to_string(submission_id).as_str());
    proof {
        assert(url@ =~= config.backend_url@ + "/submissions/"@ + dec_rep_signed(
            submission_id as int,
        ));
    }
    url
}

/// The URL one submission's media is streamed from.
pub fn submission_stream_url(config: &Config, project_id: i64, file_technical_name: &str) -> (r:
    String)
    ensures
        r@ == config.backend_url@ + "/submissions/stream/"@ + dec_rep_signed(project_id as int)
            + "/"@ + file_technical_name@,
{
    let mut url = backend(config);
    url.append("/submissions/stream/");
    url.append(i64_to_string(project_id).as_str());
    url.append("/");
    url.append(file_technical_name);
    proof {
        assert(url@ =~= config.backend_url@ + "/submissions/stream/"@ + dec_rep_signed(
            project_id as int,
        ) + "/"@ + file_technical_name@);
    }
    url
}

/// The section of the ensemble a submitter performs in.
#[derive(Copy, Clone, Debug, PartialEq, Eq, Structural)]
pub enum Section {
    Soprano1,
    Soprano2,
    Alto1,
    Alto2,
    Tenor1,
    Tenor2,
    Bass1,
    Bass2,
    Conductor,
    Instrument,
}

/// The section a wire-format string names, if any.
pub open spec fn spec_section_from(s: Seq<char>) -> Option<Section> {
    if s == "Soprano1"@ {
        Some(Section::Soprano1)
    } else if s == "Alto1"@ {
        Some(Section::Alto1)
    } else if s == "Tenor1"@ {
        Some(Section::Tenor1)
    } else if s == "Bass1"@ {
        Some(Section::Bass1)
    } else if s == "Soprano2"@ {
        Some(Section::Soprano2)
    } else if s == "Alto2"@ {
        Some(Section::Alto2)
    } else if s == "Tenor2"@ {
        Some(Section::Tenor2)
    } else if s == "Bass2"@ {
        Some(Section::Bass2)
    } else if s == "Conductor"@ {
        Some(Section::Conductor)
    } else if s == "Instrument"@ {
        Some(Section::Instrument)
    } else {
        None
    }
}

/// The name a section is displayed under.
pub open spec fn spec_section_name(s: Section) -> Seq<char> {
    match s {
        Section::Soprano1 => "Sopran 1"@,
        Section::Soprano2 => "Sopran 2"@,
        Section::Alto1 => "Alt 1"@,
        Section::Alto2 => "Alt 2"@,
        Section::Tenor1 => "Tenor 1"@,
        Section::Tenor2 => "Tenor 2"@,
        Section::Bass1 => "Bass 1"@,
        Section::Bass2 => "Bass 2"@,
        Section::Conductor => "Dirigent"@,
        Section::Instrument => "Instrument"@,
    }
}

impl Section {
    /// Parses a wire-format section string; any unknown string is rejected.
    pub fn try_from(value: &str) -> (r: Result<Section, ()>)
        ensures
            spec_section_from(value@) matches Some(s) ==> r == Ok::<Section, ()>(s),
            spec_section_from(value@) is None ==> r == Err::<Section, ()>(()),
    {
        if str_eq(value, "Soprano1") {
            Ok(Section::Soprano1)
        } else if str_eq(value, "Alto1") {
            Ok(Section::Alto1)
        } else if str_eq(value, "Tenor1") {
            Ok(Section::Tenor1)
        } else if str_eq(value, "Bass1") {
            Ok(Section::Bass1)
        } else if str_eq(value, "Soprano2") {
            Ok(Section::Soprano2)
        } else if str_eq(value, "Alto2") {
            Ok(Section::Alto2)
        } else if str_eq(value, "Tenor2") {
            Ok(Section::Tenor2)
        } else if str_eq(value, "Bass2") {
            Ok(Section::Bass2)
        } else if str_eq(value, "Conductor") {
            Ok(Section::Conductor)
        } else if str_eq(value, "Instrument") {
            Ok(Section::Instrument)
        } else {
            Err(())
        }
    }

    /// The name this section is displayed under.
    pub fn name(&self) -> (r: &'static str)
        ensures
            r@ == spec_section_name(*self),
    {
        match self {
            Section::Soprano1 => "Sopran 1",
            Section::Soprano2 => "Sopran 2",
            Section::Alto1 => "Alt 1",
            Section::Alto2 => "Alt 2",
            Section::Tenor1 => "Tenor 1",
            Section::Tenor2 => "Tenor 2",
            Section::Bass1 => "Bass 1",
            Section::Bass2 => "Bass 2",
            Section::Conductor => "Dirigent",
            Section::Instrument => "Instrument",
        }
    }
}

/// What kind of file a submission is presented as.
#[derive(Copy, Clone, Debug, PartialEq, Eq, Hash, Structural)]
pub enum SubmissionKind {
    Audio,
    Video,
    Document,
    Other,
}

/// The kind a lowercased file extension (or kind string) falls under.
pub open spec fn spec_kind_for(t: Seq<char>) -> SubmissionKind {
    if t == "wav"@ || t == "mp3"@ || t == "flac"@ || t == "wma"@ || t == "aac"@ || t == "ogg"@ || t
        == "audio"@ {
        SubmissionKind::Audio
    } else if t == "mp4"@ || t == "avi"@ || t == "mov"@ || t == "flv"@ || t == "f4v"@ || t == "swf"@
        || t == "wmv"@ || t == "avchd"@ || t == "mkv"@ || t == "webm"@ || t == "video"@ {
        SubmissionKind::Video
    } else if t == "pdf"@ || t == "document"@ {
        SubmissionKind::Document
    } else {
        SubmissionKind::Other
    }
}

/// The name a kind is displayed under.
pub open spec fn spec_kind_name(k: SubmissionKind) -> Seq<char> {
    match k {
        SubmissionKind::Audio => "Audio"@,
        SubmissionKind::Video => "Video"@,
        SubmissionKind::Document => "Dokument"@,
        SubmissionKind::Other => "Sonstiges"@,
    }
}

impl SubmissionKind {
    /// Classifies a file extension (or kind string), ignoring case; anything
    /// unrecognized counts as `Other`.
    pub fn from(s: &str) -> (r: SubmissionKind)
        ensures
            r == spec_kind_for(lower_of(s@)),
    {
        let lowered = lowercase(s);
        let t = lowered.as_str();
        if str_eq(t, "wav") || str_eq(t, "mp3") || str_eq(t, "flac") || str_eq(t, "wma") || str_eq(
            t,
            "aac",
        ) || str_eq(t, "ogg") || str_eq(t, "audio") {
            SubmissionKind::Audio
        } else if str_eq(t, "mp4") || str_eq(t, "avi") || str_eq(t, "mov") || str_eq(t, "flv")
            || str_eq(t, "f4v") || str_eq(t, "swf") || str_eq(t, "wmv") || str_eq(t, "avchd")
            || str_eq(t, "mkv") || str_eq(t, "webm") || str_eq(t, "video") {
            SubmissionKind::Video
        } else if str_eq(t, "pdf") || str_eq(t, "document") {
            SubmissionKind::Document
        } else {
            SubmissionKind::Other
        }
    }

    /// The name this kind is displayed under.
    pub fn name(&self) -> (r: &'static str)
        ensures
            r@ == spec_kind_name(*self),
    {
        match self {
            SubmissionKind::Audio => "Audio",
            SubmissionKind::Video => "Video",
            SubmissionKind::Document => "Dokument",
            SubmissionKind::Other => "Sonstiges",
        }
    }
}

/// The fields of a submission a user may change.
#[derive(Clone, Debug, PartialEq, Eq)]
pub struct UpdateSubmission {
    pub note: String,
    pub section: Section,
    pub kind: SubmissionKind,
    pub creator_name: String,
}

} // verus!
