use vstd::prelude::*;

verus! {

/// The backend server's host name
pub const DOMAIN: &'static str = "www.miubackend.net";

/// The application id sent as the `X-Parse-Application-Id` header
pub const APP_ID: &'static str = "ReVector";

/// A backend response: the result records, or an error code and message.
///
/// Nothing here checks which of the two halves is present; callers decide.
#[derive(Debug)]
pub struct Results<T> {
    /// The result records; `None` if the response holds an error
    pub results: Option<Vec<T>>,
    /// The error code; `None` if the response was successful
    pub code: Option<u32>,
    /// The error message; `None` if the response was successful
    pub error: Option<String>,
}

} // verus!

pub mod classic;
pub mod ultra;

verus! {

/// The address of the backend class `class`:
/// `https://www.miubackend.net/parse/classes/<class>`.
pub open spec fn class_url(class: Seq<char>) -> Seq<char> {
    "https://www.miubackend.net/parse/classes/"@ + class
}

/// Returns the backend url of a class name.
pub fn format_url(class: &str) -> (r: String)
    ensures
        r@ == class_url(class@),
{
    let mut url = String::from_str("https://");
    url.append(DOMAIN);
    url.append("/parse/classes/");
    url.append(class);
    proof {
        reveal_strlit("https://");
        reveal_strlit("www.miubackend.net");
        reveal_strlit("/parse/classes/");
        reveal_strlit("https://www.miubackend.net/parse/classes/");
        assert(url@ =~= class_url(class@));
    }
    url
}

} // verus!
