//! Twitch authentication for the IGDB API.

use vstd::prelude::*;
use vstd::string::StringExecFns;

verus! {

/// The token granted by Twitch.
#[derive(Debug, Clone)]
pub struct TwitchTokenResponse {
    pub access_token: String,
    pub expires_in: u64,
    pub token_type: String,
}

/// The address that grants an application access token for a client.
pub open spec fn token_url_text(client_id: Seq<char>, client_secret: Seq<char>) -> Seq<char> {
    "https://id.twitch.tv/oauth2/token?client_id="@ + client_id + "&client_secret="@
        + client_secret + "&grant_type=client_credentials"@
}

/// Builds the address that grants an application access token.
pub fn token_url(client_id: &str, client_secret: &str) -> (u: String)
    ensures
        u@ == token_url_text(client_id@, client_secret@),
{
    let mut u = String::new();
    u.append("https://id.twitch.tv/oauth2/token?client_id=");
    u.append(client_id);
    u.append("&client_secret=");
    u.append(client_secret);
    u.append("&grant_type=client_credentials");
    u
}

} // verus!
