//! Material resources: their URLs, their categories, and the shape of an
//! update.
use vstd::prelude::*;

use crate::digits::{dec_rep_signed, i64_to_string};
use crate::service::{backend, Config};
use crate::text::str_eq;

verus! {

/// The URL one uploaded material file is fetched from.
pub fn material_url(config: &Config, project_id: i64, file_technical_name: &str) -> (r: String)
    ensures
        r@ == config.backend_url@ + "/materials/"@ + dec_rep_signed(project_id as int) + "/"@
            + file_technical_name@,
{
    let mut url = backend(config);
    url.append("/materials/");
    url.append(i64_to_string(project_id).as_str());
    url.append("/");
    url.append(file_technical_name);
    proof {
        assert(url@ =~= config.backend_url@ + "/materials/"@ + dec_rep_signed(project_id as int)
            + "/"@ + file_technical_name@);
    }
    url
}

/// The URL new material of a project is uploaded to.
pub fn material_upload_url(config: &Config, project_id: i64) -> (r: String)
    ensures
        r@ == config.backend_url@ + "/projects/"@ + dec_rep_signed(project_id as int)
            + "/material"@,
{
    let mut url = backend(config);
    url.append("/projects/");
    url.append(i64_to_string(project_id).as_str());
    url.append("/material");
    proof {
        assert(url@ =~= config.backend_url@ + "/projects/"@ + dec_rep_signed(project_id as int)
            + "/material"@);
    }
    url
}

/// What kind of material a file is presented as.
#[derive(Copy, Clone, Debug, PartialEq, Eq, Structural)]
pub enum MaterialCategory {
    Audio,
    Video,
    SheetMusic,
    Other,
}

/// The category a user-facing selector string names, if any.
pub open spec fn spec_category_from(s: Seq<char>) -> Option<MaterialCategory> {
    if s == "Audio"@ || s == "audio"@ {
        Some(MaterialCategory::Audio)
    } else if s == "Video"@ || s == "video"@ {
        Some(MaterialCategory::Video)
    } else if s == "Sheet"@ || s == "sheet"@ || s == "sheetMusic"@ || s == "sheetmusic"@ {
        Some(MaterialCategory::SheetMusic)
    } else if s == "Other"@ || s == "other"@ {
        Some(MaterialCategory::Other)
    } else {
        None
    }
}

/// The name a category is displayed under.
pub open spec fn spec_category_name(c: MaterialCategory) -> Seq<char> {
    match c {
        MaterialCategory::Audio => "Audio"@,
        MaterialCategory::Video => "Video"@,
        MaterialCategory::SheetMusic => "Noten"@,
        MaterialCategory::Other => "Sonstiges"@,
    }
}

impl MaterialCategory {
    /// Parses a selector string; any unknown string is rejected.
    pub fn try_from(string: &str) -> (r: Result<MaterialCategory, ()>)
        ensures
            spec_category_from(string@) matches Some(c) ==> r == Ok::<MaterialCategory, ()>(c),
            spec_category_from(string@) is None ==> r == Err::<MaterialCategory, ()>(()),
    {
        if str_eq(string, "Audio") || str_eq(string, "audio") {
            Ok(MaterialCategory::Audio)
        } else if str_eq(string, "Video") || str_eq(string, "video") {
            Ok(MaterialCategory::Video)
        } else if str_eq(string, "Sheet") || str_eq(string, "sheet") || str_eq(string, "sheetMusic")
            || str_eq(string, "sheetmusic") {
            Ok(MaterialCategory::SheetMusic)
        } else if str_eq(string, "Other") || str_eq(string, "other") {
            Ok(MaterialCategory::Other)
        } else {
            Err(())
        }
    }

    /// The name this category is displayed under.
    pub fn name(&self) -> (r: &'static str)
        ensures
            r@ == spec_category_name(*self),
    {
        match self {
            MaterialCategory::Audio => "Audio",
            MaterialCategory::Video => "Video",
            MaterialCategory::SheetMusic => "Noten",
            MaterialCategory::Other => "Sonstiges",
        }
    }
}

/// The fields of a material a user may change.
#[derive(Clone, Debug, PartialEq, Eq)]
pub struct UpdateMaterial {
    pub title: String,
    pub category: MaterialCategory,
}

} // verus!
