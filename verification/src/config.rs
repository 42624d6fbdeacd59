//! Workspace configuration and the emoji-registration endpoint URL.

use vstd::prelude::*;

verus! {

/// Workspace credentials, loaded once at process start by the host program
/// and shared read-only across requests.  The token is never echoed to the
/// caller: no message built by this crate mentions it.
#[derive(Clone, Debug)]
pub struct Config {
    pub workspace_name: String,
    pub api_token: String,
}

/// The emoji-registration endpoint of a workspace.
pub open spec fn upload_url_spec(workspace: Seq<char>) -> Seq<char> {
    "https://"@ + workspace + ".slack.com/api/emoji.add"@
}

/// Builds the emoji-registration endpoint URL for the configured workspace.
pub fn upload_url(config: &Config) -> (r: String)
    ensures
        r@ == upload_url_spec(config.workspace_name@),
{
    let s = String::from_str("https://");
    let s = s.concat(config.workspace_name.as_str());
    let s = s.concat(".slack.com/api/emoji.add");
    proof {
        assert(s@ =~= upload_url_spec(config.workspace_name@));
    }
    s
}

} // verus!
