use vstd::prelude::*;
use crate::request::{Header, header_view};
use crate::text::{base64_of, encode_base64, text_eq};

verus! {

/// An authentication scheme; at most one is active on a client.
#[derive(Debug)]
pub enum Auth {
    /// A bearer token.
    Bearer(String),
    /// HTTP basic credentials: user name and password.
    Basic(String, String),
    /// An arbitrary header: name and value, passed through unchecked.
    Custom(String, String),
}

/// The header that a scheme attaches to a request.
pub open spec fn auth_header(a: Auth) -> (Seq<char>, Seq<char>) {
    match a {
        Auth::Bearer(token) => ("authorization"@, "Bearer "@ + token@),
        Auth::Basic(user, password) => (
            "authorization"@,
            "Basic "@ + base64_of(user@ + ":"@ + password@),
        ),
        Auth::Custom(name, value) => (name@, value@),
    }
}

impl Auth {
    /// The credential header of this scheme.
    pub fn header(&self) -> (r: Header)
        ensures
            header_view(r) == auth_header(*self),
    {
        match self {
            Auth::Bearer(token) => {
                let mut value = String::from_str("Bearer ");
                value.append(token.as_str());
                Header { name: String::from_str("authorization"), value }
            },
            Auth::Basic(user, password) => {
                let mut credentials = user.clone();
                credentials.append(":");
                credentials.append(password.as_str());
                let encoded = encode_base64(credentials.as_str());
                let mut value = String::from_str("Basic ");
                value.append(encoded.as_str());
                Header { name: String::from_str("authorization"), value }
            },
            Auth::Custom(name, value) => Header { name: name.clone(), value: value.clone() },
        }
    }

    /// Builds a scheme from a tag (`Bearer`, `Basic` or `Custom`), a key and a
    /// value; `None` for any other tag.
    pub fn from_tag(tag: &str, key: &str, value: &str) -> (r: Option<Auth>)
        ensures
            tag@ == "Bearer"@ ==> (r matches Some(Auth::Bearer(t)) && t@ == value@),
            tag@ == "Basic"@ ==> (r matches Some(Auth::Basic(k, v)) && k@ == key@ && v@ == value@),
            tag@ == "Custom"@ ==> (r matches Some(Auth::Custom(k, v)) && k@ == key@ && v@ == value@),
            r is None <==> (tag@ != "Bearer"@ && tag@ != "Basic"@ && tag@ != "Custom"@),
    {
        proof {
            reveal_strlit("Bearer");
            reveal_strlit("Basic");
            reveal_strlit("Custom");
            assert("Bearer"@.len() != "Basic"@.len());
            assert("Bearer"@[0] != "Custom"@[0]);
            assert("Basic"@.len() != "Custom"@.len());
        }
        if text_eq(tag, "Bearer") {
            Some(Auth::Bearer(String::from_str(value)))
        } else if text_eq(tag, "Basic") {
            Some(Auth::Basic(String::from_str(key), String::from_str(value)))
        } else if text_eq(tag, "Custom") {
            Some(Auth::Custom(String::from_str(key), String::from_str(value)))
        } else {
            None
        }
    }
}

} // verus!
