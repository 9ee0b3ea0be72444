use vstd::prelude::*;

verus! {

/// Characters allowed in an HTTP token (RFC 9110 `tchar`), the grammar of
/// method names and header field names.
pub open spec fn is_token_char(c: char) -> bool {
    ||| ('a' <= c && c <= 'z')
    ||| ('A' <= c && c <= 'Z')
    ||| ('0' <= c && c <= '9')
    ||| c == '!' || c == '#' || c == '$' || c == '%' || c == '&' || c == '\''
    ||| c == '*' || c == '+' || c == '-' || c == '.' || c == '^' || c == '_'
    ||| c == '`' || c == '|' || c == '~'
}

/// A non-empty sequence of token characters.
pub open spec fn is_token(s: Seq<char>) -> bool {
    &&& s.len() > 0
    &&& forall|i: int| 0 <= i < s.len() ==> is_token_char(#[trigger] s[i])
}

/// The request method as reqwest represents it, for a name that is a token.
pub uninterp spec fn reqwest_method_of(name: Seq<char>) -> reqwest::Method;

#[verifier::external_type_specification]
#[verifier::external_body]
pub struct ExMethod(reqwest::Method);

/// Relies on `http::Method::from_bytes` (re-exported by reqwest): it accepts
/// exactly the non-empty strings of token characters, and the method it
/// builds depends on the name alone.
#[verifier::external_body]
fn method_from_name(name: &str) -> (r: Option<reqwest::Method>)
    ensures
        r.is_some() <==> is_token(name@),
        r matches Some(m) ==> m == reqwest_method_of(name@),
{
    reqwest::Method::from_bytes(name.as_bytes()).ok()
}

/// The five request methods the tester offers. The default is `Get`.
#[derive(Debug, Clone, Copy, PartialEq, Eq, Structural)]
pub enum HttpMethod {
    Get,
    Post,
    Put,
    Patch,
    Delete,
}

/// The wire name of a method.
pub open spec fn method_name(m: HttpMethod) -> Seq<char> {
    match m {
        HttpMethod::Get => "GET"@,
        HttpMethod::Post => "POST"@,
        HttpMethod::Put => "PUT"@,
        HttpMethod::Patch => "PATCH"@,
        HttpMethod::Delete => "DELETE"@,
    }
}

/// The method whose wire name is `s`, if any.
pub open spec fn method_named(s: Seq<char>) -> Option<HttpMethod> {
    if s == "GET"@ {
        Some(HttpMethod::Get)
    } else if s == "POST"@ {
        Some(HttpMethod::Post)
    } else if s == "PUT"@ {
        Some(HttpMethod::Put)
    } else if s == "PATCH"@ {
        Some(HttpMethod::Patch)
    } else if s == "DELETE"@ {
        Some(HttpMethod::Delete)
    } else {
        None
    }
}

impl Default for HttpMethod {
    fn default() -> (r: HttpMethod)
        ensures
            r == HttpMethod::Get,
    {
        HttpMethod::Get
    }
}

/// Decides equality of two strings character by character.
pub(crate) fn str_eq(a: &str, b: &str) -> (r: bool)
    ensures
        r == (a@ == b@),
{
    let n = a.unicode_len();
    if n != b.unicode_len() {
        return false;
    }
    let mut i: usize = 0;
    while i < n
        invariant
            n == a@.len(),
            n == b@.len(),
            i <= n,
            forall|j: int| 0 <= j < i ==> a@[j] == b@[j],
        decreases n - i,
    {
        if a.get_char(i) != b.get_char(i) {
            return false;
        }
        i = i + 1;
    }
    assert(a@ =~= b@);
    true
}

impl HttpMethod {
    /// The wire name: `GET`, `POST`, `PUT`, `PATCH` or `DELETE`.
    pub fn as_str(&self) -> (r: &'static str)
        ensures
            r@ == method_name(*self),
    {
        match self {
            HttpMethod::Get => "GET",
            HttpMethod::Post => "POST",
            HttpMethod::Put => "PUT",
            HttpMethod::Patch => "PATCH",
            HttpMethod::Delete => "DELETE",
        }
    }

    /// The wire name as an owned string.
    pub fn to_string(&self) -> (r: String)
        ensures
            r@ == method_name(*self),
    {
        self.as_str().to_string()
    }

    /// Reads a method back from its wire name; names are case-sensitive.
    pub fn from_name(s: &str) -> (r: Option<HttpMethod>)
        ensures
            r == method_named(s@),
    {
        if str_eq(s, "GET") {
            Some(HttpMethod::Get)
        } else if str_eq(s, "POST") {
            Some(HttpMethod::Post)
        } else if str_eq(s, "PUT") {
            Some(HttpMethod::Put)
        } else if str_eq(s, "PATCH") {
            Some(HttpMethod::Patch)
        } else if str_eq(s, "DELETE") {
            Some(HttpMethod::Delete)
        } else {
            None
        }
    }

    /// The reqwest method with the same wire name.
    pub fn to_reqwest(&self) -> (r: reqwest::Method)
        ensures
            r == reqwest_method_of(method_name(*self)),
    {
        let name = self.as_str();
        proof {
            reveal_strlit("GET");
            reveal_strlit("POST");
            reveal_strlit("PUT");
            reveal_strlit("PATCH");
            reveal_strlit("DELETE");
            assert(is_token(name@));
        }
        match method_from_name(name) {
            Some(m) => m,
            None => method_from_name("GET").unwrap(),
        }
    }
}

/// Every method is read back from its own wire name.
pub proof fn lemma_name_round_trip(m: HttpMethod)
    ensures
        method_named(method_name(m)) == Some(m),
{
    reveal_strlit("GET");
    reveal_strlit("POST");
    reveal_strlit("PUT");
    reveal_strlit("PATCH");
    reveal_strlit("DELETE");
    assert("GET"@[0] != "POST"@[0] && "GET"@[0] != "PUT"@[0]);
    assert("GET"@[0] != "PATCH"@[0] && "GET"@[0] != "DELETE"@[0]);
    assert("POST"@[1] != "PUT"@[1] && "POST"@[1] != "PATCH"@[1]);
    assert("POST"@[0] != "DELETE"@[0] && "PUT"@[1] != "PATCH"@[1]);
    assert("PUT"@[0] != "DELETE"@[0] && "PATCH"@[0] != "DELETE"@[0]);
}

} // verus!
