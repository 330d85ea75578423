//! OpenStack tokens: given ones, and ones obtained with a password.
use crate::common::{pairs_view, push_pair, Method};
use crate::text::{dec, trim, trim_str, u32_to_string};
use vstd::prelude::*;

verus! {

/// A lower-case hexadecimal digit for a value below sixteen.
pub open spec fn hex_lower(v: nat) -> char {
    if v < 10 {
        ((v + 48) as u8) as char
    } else {
        ((v + 87) as u8) as char
    }
}

/// How a JSON string writes one character: quote, backslash and control characters
/// escaped, everything else as it is.
pub open spec fn json_escape(c: char) -> Seq<char> {
    if c == '"' {
        seq!['\\', '"']
    } else if c == '\\' {
        seq!['\\', '\\']
    } else if c == '\u{8}' {
        seq!['\\', 'b']
    } else if c == '\t' {
        seq!['\\', 't']
    } else if c == '\n' {
        seq!['\\', 'n']
    } else if c == '\u{c}' {
        seq!['\\', 'f']
    } else if c == '\r' {
        seq!['\\', 'r']
    } else if (c as u32) < 32 {
        seq!['\\', 'u', '0', '0', hex_lower((c as u32 / 16) as nat), hex_lower((c as u32 % 16) as nat)]
    } else {
        seq![c]
    }
}

/// The escaped characters of a text.
pub open spec fn json_escape_all(s: Seq<char>) -> Seq<char>
    decreases s.len(),
{
    if s.len() == 0 {
        Seq::empty()
    } else {
        json_escape_all(s.drop_last()) + json_escape(s.last())
    }
}

/// A text as a JSON string literal.
pub open spec fn json_quote(s: Seq<char>) -> Seq<char> {
    seq!['"'] + json_escape_all(s) + seq!['"']
}

/// Calls `jzon::stringify` on a text, which writes it as a JSON string: in quotes, with
/// `"`, `\` and the control characters below 32 escaped (`\b`, `\t`, `\n`, `\f`, `\r`,
/// else `\u00xx` in lower-case hex).
#[verifier::external_body]
fn json_string(s: &str) -> (r: String)
    ensures
        r@ == json_quote(s@),
{
    jzon::stringify(s)
}

/// The password authentication body that Keystone expects, written compactly.
pub open spec fn auth_body(
    username: Seq<char>,
    password: Seq<char>,
    project_name: Seq<char>,
    user_domain_name: Seq<char>,
    project_domain_id: Seq<char>,
) -> Seq<char> {
    "{\"auth\":{\"identity\":{\"methods\":[\"password\"],\"password\":{\"user\":{\"name\":"@
        + json_quote(username) + ",\"domain\":{\"name\":"@ + json_quote(user_domain_name)
        + "},\"password\":"@ + json_quote(password) + "}}},\"scope\":{\"project\":{\"name\":"@
        + json_quote(project_name) + ",\"domain\":{\"id\":"@ + json_quote(project_domain_id)
        + "}}}}}"@
}

/// A password authentication to send: method, token URL, headers and JSON body.
#[derive(Debug)]
pub struct AuthRequest {
    pub method: Method,
    pub url: String,
    pub headers: Vec<(String, String)>,
    pub body: String,
}

/// The revocation of a token obtained with a password: method, token URL and headers.
#[derive(Debug)]
pub struct RevokeRequest {
    pub method: Method,
    pub url: String,
    pub headers: Vec<(String, String)>,
}

/// The headers of a revocation: JSON content, and the token as both the token that
/// authorizes the request and the token to revoke.
pub open spec fn revoke_headers(token: Seq<char>) -> Seq<(Seq<char>, Seq<char>)> {
    seq![
        ("content-type"@, "application/json"@),
        ("X-Auth-Token"@, token),
        ("X-Subject-Token"@, token),
    ]
}

/// `Could not complete authentication request: <cause>`.
pub open spec fn auth_unsent_text(cause: Seq<char>) -> Seq<char> {
    "Could not complete authentication request: "@ + cause
}

/// An API token, and where it was obtained when it was obtained with a password.
#[derive(Debug)]
pub struct Token {
    pub token: String,
    pub auth_url: Option<String>,
}

/// Whether a status is a success, `200` to `299`.
pub open spec fn is_success(status: u16) -> bool {
    200 <= status <= 299
}

impl Token {
    /// The token given as text, without surrounding whitespace.
    pub fn from_text(s: &str) -> (r: Token)
        ensures
            r.token@ == trim(s@),
            r.auth_url is None,
    {
        Token { token: trim_str(s), auth_url: None }
    }

    /// The token text.
    pub fn as_ref(&self) -> (r: &str)
        ensures
            r@ == self.token@,
    {
        self.token.as_str()
    }

    /// The authentication that obtains a token for the user in the project.
    pub fn auth_request(
        auth_url: &str,
        username: &str,
        password: &str,
        project_name: &str,
        user_domain_name: &str,
        project_domain_id: &str,
    ) -> (r: AuthRequest)
        ensures
            r.method == Method::Post,
            r.url@ == auth_url@ + "/auth/tokens/"@,
            pairs_view(r.headers@) == seq![("content-type"@, "application/json"@)],
            r.body@ == auth_body(
                username@,
                password@,
                project_name@,
                user_domain_name@,
                project_domain_id@,
            ),
    {
        let mut url = auth_url.to_owned();
        url.append("/auth/tokens/");
        let mut b = "{\"auth\":{\"identity\":{\"methods\":[\"password\"],\"password\":{\"user\":{\"name\":".to_owned();
        b.append(json_string(username).as_str());
        b.append(",\"domain\":{\"name\":");
        b.append(json_string(user_domain_name).as_str());
        b.append("},\"password\":");
        b.append(json_string(password).as_str());
        b.append("}}},\"scope\":{\"project\":{\"name\":");
        b.append(json_string(project_name).as_str());
        b.append(",\"domain\":{\"id\":");
        b.append(json_string(project_domain_id).as_str());
        b.append("}}}}}");
        let mut headers: Vec<(String, String)> = Vec::new();
        assert(pairs_view(headers@) =~= Seq::empty());
        push_pair(&mut headers, "content-type", "application/json".to_owned());
        assert(pairs_view(headers@) =~= seq![("content-type"@, "application/json"@)]);
        AuthRequest { method: Method::Post, url, headers, body: b }
    }

    /// The token from the answer to an authentication at `url`: an error for a status
    /// other than a success, or for an answer without `X-Subject-Token`; else that header
    /// without surrounding whitespace.
    pub fn from_auth_response(url: String, status: u16, subject_token: Option<&str>) -> (r: Result<
        Token,
        String,
    >)
        ensures
            !is_success(status) ==> (r matches Err(m) && m@ == "Failed to authenticate, returned code "@
                + dec(status as nat)),
            is_success(status) && subject_token is None ==> (r matches Err(m) && m@
                == "No token in authentication response header"@),
            is_success(status) && subject_token is Some ==> (r matches Ok(t) && t.token@ == trim(
                subject_token->0@,
            ) && t.auth_url == Some(url)),
    {
        if status < 200 || status > 299 {
            let mut m = "Failed to authenticate, returned code ".to_owned();
            m.append(u32_to_string(status as u32).as_str());
            return Err(m);
        }
        match subject_token {
            Some(t) => Ok(Token { token: trim_str(t), auth_url: Some(url) }),
            None => Err("No token in authentication response header".to_owned()),
        }
    }

    /// The error when an authentication could not be sent or answered, from its cause.
    pub fn auth_unsent(cause: &str) -> (r: String)
        ensures
            r@ == auth_unsent_text(cause@),
    {
        let mut m = "Could not complete authentication request: ".to_owned();
        m.append(cause);
        m
    }

    /// The revocation of the token: a `DELETE` of the URL it was obtained at, carrying the
    /// token as `X-Auth-Token` and `X-Subject-Token`, when it was obtained with a
    /// password; a given token is not revoked.
    pub fn delete(self) -> (r: Option<RevokeRequest>)
        ensures
            self.auth_url is None ==> r is None,
            self.auth_url matches Some(u) ==> (r matches Some(q) && q.method == Method::Delete
                && q.url == u && pairs_view(q.headers@) == revoke_headers(self.token@)),
    {
        match self.auth_url {
            None => None,
            Some(url) => {
                let mut headers: Vec<(String, String)> = Vec::new();
                assert(pairs_view(headers@) =~= Seq::empty());
                push_pair(&mut headers, "content-type", "application/json".to_owned());
                push_pair(&mut headers, "X-Auth-Token", self.token.clone());
                push_pair(&mut headers, "X-Subject-Token", self.token.clone());
                assert(pairs_view(headers@) =~= revoke_headers(self.token@));
                Some(RevokeRequest { method: Method::Delete, url, headers })
            },
        }
    }
}

impl std::str::FromStr for Token {
    type Err = String;

    /// Always the token given as text, without surrounding whitespace.
    fn from_str(s: &str) -> (r: Result<Token, String>)
        ensures
            r matches Ok(t) && t.token@ == trim(s@) && t.auth_url is None,
    {
        Ok(Token::from_text(s))
    }
}

} // verus!
