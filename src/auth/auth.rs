use vstd::prelude::*;
use crate::auth::error::Error;
use crate::text::{ascii_lower, ascii_lower_equals};

verus! {

/// An authentication method with its parameters.
#[derive(Debug)]
pub enum AuthMethod {
    /// A fixed token: the parameters are the token.
    Token { params: String },
    /// OAuth2 client credentials: the parameters are a JSON document naming
    /// the credentials file, the issuer and the audience.
    OAuth2 { params: String },
}

/// The message of an unknown method.
pub open spec fn invalid_auth_message(name: Seq<char>, params: Seq<char>) -> Seq<char> {
    "invalid auth ["@ + name + "], ["@ + params + "]"@
}

/// Chooses the method named `auth_name`, in any ASCII case: `token` or `oauth2`.
pub fn create(auth_name: String, auth_params: String) -> (r: Result<AuthMethod, Error>)
    ensures
        ascii_lower(auth_name@) == "token"@ ==> (r matches Ok(AuthMethod::Token { params }) && params@ == auth_params@),
        ascii_lower(auth_name@) == "oauth2"@ ==> (r matches Ok(AuthMethod::OAuth2 { params }) && params@
            == auth_params@),
        ascii_lower(auth_name@) != "token"@ && ascii_lower(auth_name@) != "oauth2"@ ==> (r matches Err(Error::Custom(m))
            && m@ == invalid_auth_message(auth_name@, auth_params@)),
{
    proof {
        reveal_strlit("token");
        reveal_strlit("oauth2");
        assert("token"@.len() != "oauth2"@.len());
    }
    if ascii_lower_equals(auth_name.as_str(), "token") {
        Ok(AuthMethod::Token { params: auth_params })
    } else if ascii_lower_equals(auth_name.as_str(), "oauth2") {
        Ok(AuthMethod::OAuth2 { params: auth_params })
    } else {
        let mut m = String::from_str("invalid auth [");
        m.append(auth_name.as_str());
        m.append("], [");
        m.append(auth_params.as_str());
        m.append("]");
        Err(Error::Custom(m))
    }
}

impl AuthMethod {
    /// The name the method reports itself under.
    pub fn auth_method_name(&self) -> (r: String)
        ensures
            self is Token ==> r@ == "auth"@,
            self is OAuth2 ==> r@ == "token"@,
    {
        match self {
            AuthMethod::Token { .. } => String::from_str("auth"),
            AuthMethod::OAuth2 { .. } => String::from_str("token"),
        }
    }

    /// The token itself, where the method holds it without asking anyone.
    pub fn fixed_token(&self) -> (r: Option<String>)
        ensures
            self matches AuthMethod::Token { params } ==> (r matches Some(t) && t@ == params@),
            self is OAuth2 ==> r is None,
    {
        match self {
            AuthMethod::Token { params } => Some(params.clone()),
            AuthMethod::OAuth2 { .. } => None,
        }
    }
}

} // verus!
