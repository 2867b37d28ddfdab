use vstd::prelude::*;
use vstd::string::*;

verus! {

/// The callback address for a host: `https://{host}/callback?`.
pub open spec fn callback_url(host: Seq<char>) -> Seq<char> {
    "https://"@ + host + "/callback?"@
}

/// The address that the OAuth provider sends the user back to:
/// `https://{host}/callback?`.
pub fn get_callback_url(callback_base_url: String) -> (url: String)
    ensures
        url@ == callback_url(callback_base_url@),
{
    let mut url = String::from_str("https://");
    url.append(callback_base_url.as_str());
    url.append("/callback?");
    url
}

} // verus!
