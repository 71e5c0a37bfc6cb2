//! Project resources: the URLs their submissions are reached under.
use vstd::prelude::*;

use crate::digits::{dec_rep_signed, i64_to_string};
use crate::service::{backend, Config};

verus! {

/// The URL the archive of all submissions of a project is fetched from.
pub fn all_submissions_link(config: &Config, project_id: i64) -> (r: String)
    ensures
        r@ == config.backend_url@ + "/projects/"@ + dec_rep_signed(project_id as int)
            + "/allSubmissions"@,
{
    let mut url = backend(config);
    url.append("/projects/");
    url.append(i64_to_string(project_id).as_str());
    url.append("/allSubmissions");
    proof {
        assert(url@ =~= config.backend_url@ + "/projects/"@ + dec_rep_signed(project_id as int)
            + "/allSubmissions"@);
    }
    url
}

/// The URL a new submission of a project is uploaded to.
pub fn submission_upload_url(config: &Config, project_id: i64) -> (r: String)
    ensures
        r@ == config.backend_url@ + "/projects/"@ + dec_rep_signed(project_id as int),
{
    let mut url = backend(config);
    url.append("/projects/");
    url.append(i64_to_string(project_id).as_str());
    proof {
        assert(url@ =~= config.backend_url@ + "/projects/"@ + dec_rep_signed(project_id as int));
    }
    url
}

} // verus!
