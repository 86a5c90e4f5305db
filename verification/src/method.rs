use vstd::prelude::*;

use crate::error::FetchError;
use crate::text::str_equals;

verus! {

/// The request methods that the `method` option may name.
#[derive(Clone, Copy, Debug, PartialEq, Eq, Structural)]
pub enum HttpMethod {
    Get,
    Post,
    Put,
    Connect,
    Head,
    Patch,
    Delete,
}

/// The name of a method on the wire.
pub open spec fn spec_method_name(m: HttpMethod) -> Seq<char> {
    match m {
        HttpMethod::Get => "GET"@,
        HttpMethod::Post => "POST"@,
        HttpMethod::Put => "PUT"@,
        HttpMethod::Connect => "CONNECT"@,
        HttpMethod::Head => "HEAD"@,
        HttpMethod::Patch => "PATCH"@,
        HttpMethod::Delete => "DELETE"@,
    }
}

/// The method that a `method` option names, if any; the names are
/// case-sensitive.
pub open spec fn spec_method_named(name: Seq<char>) -> Option<HttpMethod> {
    if name == "GET"@ {
        Some(HttpMethod::Get)
    } else if name == "POST"@ {
        Some(HttpMethod::Post)
    } else if name == "PUT"@ {
        Some(HttpMethod::Put)
    } else if name == "CONNECT"@ {
        Some(HttpMethod::Connect)
    } else if name == "HEAD"@ {
        Some(HttpMethod::Head)
    } else if name == "PATCH"@ {
        Some(HttpMethod::Patch)
    } else if name == "DELETE"@ {
        Some(HttpMethod::Delete)
    } else {
        None
    }
}

impl HttpMethod {
    /// The name of this method on the wire.
    pub fn name(&self) -> (r: &'static str)
        ensures
            r@ == spec_method_name(*self),
    {
        match self {
            HttpMethod::Get => "GET",
            HttpMethod::Post => "POST",
            HttpMethod::Put => "PUT",
            HttpMethod::Connect => "CONNECT",
            HttpMethod::Head => "HEAD",
            HttpMethod::Patch => "PATCH",
            HttpMethod::Delete => "DELETE",
        }
    }
}

/// Reads the `method` option: one of the seven method names, or an
/// `InvalidMethod` error that carries the name given.
pub fn parse_method(name: &str) -> (r: Result<HttpMethod, FetchError>)
    ensures
        match spec_method_named(name@) {
            Some(m) => r == Ok::<HttpMethod, FetchError>(m),
            None => r matches Err(FetchError::InvalidMethod(given)) && given@ == name@,
        },
{
    if str_equals(name, "GET") {
        Ok(HttpMethod::Get)
    } else if str_equals(name, "POST") {
        Ok(HttpMethod::Post)
    } else if str_equals(name, "PUT") {
        Ok(HttpMethod::Put)
    } else if str_equals(name, "CONNECT") {
        Ok(HttpMethod::Connect)
    } else if str_equals(name, "HEAD") {
        Ok(HttpMethod::Head)
    } else if str_equals(name, "PATCH") {
        Ok(HttpMethod::Patch)
    } else if str_equals(name, "DELETE") {
        Ok(HttpMethod::Delete)
    } else {
        Err(FetchError::InvalidMethod(String::from_str(name)))
    }
}

/// Every method is read back from its own name.
pub proof fn lemma_method_name_round_trip(m: HttpMethod)
    ensures
        spec_method_named(spec_method_name(m)) == Some(m),
{
    reveal_strlit("GET");
    reveal_strlit("POST");
    reveal_strlit("PUT");
    reveal_strlit("CONNECT");
    reveal_strlit("HEAD");
    reveal_strlit("PATCH");
    reveal_strlit("DELETE");
    assert("GET"@.len() == 3 && "PUT"@.len() == 3 && "POST"@.len() == 4 && "HEAD"@.len() == 4);
    assert("CONNECT"@.len() == 7 && "PATCH"@.len() == 5 && "DELETE"@.len() == 6);
    assert("GET"@[0] != "PUT"@[0]);
    assert("POST"@[0] != "HEAD"@[0]);
}

/// Whether the request that follows a response with status `prev_status`
/// turns into a body-less `GET`: `POST` after a 301 or 302, and every
/// method but `GET` and `HEAD` after a 303.
pub open spec fn spec_should_change_method(prev_status: u16, method: HttpMethod) -> bool {
    if prev_status == 301 || prev_status == 302 {
        method == HttpMethod::Post
    } else if prev_status == 303 {
        !(method == HttpMethod::Get || method == HttpMethod::Head)
    } else {
        false
    }
}

/// Whether the request that follows a response with status `prev_status`
/// is sent as a body-less `GET` in place of `method`.
pub fn should_change_method(prev_status: u16, method: &HttpMethod) -> (r: bool)
    ensures
        r == spec_should_change_method(prev_status, *method),
{
    if prev_status == 301 || prev_status == 302 {
        return *method == HttpMethod::Post;
    }
    if prev_status == 303 {
        return !(*method == HttpMethod::Get || *method == HttpMethod::Head);
    }
    false
}

/// A `GET` or `HEAD` request is never turned into another method, and only
/// a 301, 302 or 303 response turns any request into a `GET`.
pub proof fn lemma_method_change_only_after_redirect(prev_status: u16, method: HttpMethod)
    ensures
        (method == HttpMethod::Get || method == HttpMethod::Head) ==> !spec_should_change_method(
            prev_status,
            method,
        ),
        spec_should_change_method(prev_status, method) ==> (prev_status == 301 || prev_status
            == 302 || prev_status == 303),
{
}

/// After a 301 or a 302 only a `POST` turns into a `GET`; after a 303
/// every method but `GET` and `HEAD` does; after any other status no method
/// changes.
pub proof fn lemma_method_change_by_status(prev_status: u16, method: HttpMethod)
    ensures
        prev_status == 301 || prev_status == 302 ==> (spec_should_change_method(
            prev_status,
            method,
        ) <==> method == HttpMethod::Post),
        prev_status == 303 ==> (spec_should_change_method(prev_status, method) <==> method
            != HttpMethod::Get && method != HttpMethod::Head),
        prev_status != 301 && prev_status != 302 && prev_status != 303
            ==> !spec_should_change_method(prev_status, method),
{
}

} // verus!
