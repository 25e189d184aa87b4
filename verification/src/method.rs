use vstd::prelude::*;

verus! {

/// An HTTP request method: the nine standard ones, or an extension method
/// given by its name.
#[derive(Debug, Clone)]
pub enum HttpMethod {
    Options,
    Get,
    Post,
    Put,
    Delete,
    Head,
    Trace,
    Connect,
    Patch,
    Extension(String),
}

/// Two methods are the same when they are the same standard method, or
/// extension methods with the same name.
pub open spec fn same_method(a: HttpMethod, b: HttpMethod) -> bool {
    match (a, b) {
        (HttpMethod::Extension(x), HttpMethod::Extension(y)) => x@ == y@,
        (HttpMethod::Extension(_), _) => false,
        (_, HttpMethod::Extension(_)) => false,
        _ => a == b,
    }
}

/// `s` and `t` hold the same characters.
pub fn str_is(s: &str, t: &str) -> (r: bool)
    ensures
        r == (s@ == t@),
{
    let a = s.to_owned();
    let b = t.to_owned();
    a == b
}

impl HttpMethod {
    /// Compares two methods as HTTP does.
    pub fn is(&self, other: &HttpMethod) -> (r: bool)
        ensures
            r == same_method(*self, *other),
    {
        match (self, other) {
            (HttpMethod::Extension(x), HttpMethod::Extension(y)) => str_is(x.as_str(), y.as_str()),
            (HttpMethod::Extension(_), _) => false,
            (_, HttpMethod::Extension(_)) => false,
            (HttpMethod::Options, HttpMethod::Options) => true,
            (HttpMethod::Get, HttpMethod::Get) => true,
            (HttpMethod::Post, HttpMethod::Post) => true,
            (HttpMethod::Put, HttpMethod::Put) => true,
            (HttpMethod::Delete, HttpMethod::Delete) => true,
            (HttpMethod::Head, HttpMethod::Head) => true,
            (HttpMethod::Trace, HttpMethod::Trace) => true,
            (HttpMethod::Connect, HttpMethod::Connect) => true,
            (HttpMethod::Patch, HttpMethod::Patch) => true,
            _ => false,
        }
    }

    /// A copy of this method.
    pub fn duplicate(&self) -> (r: HttpMethod)
        ensures
            r == *self,
    {
        match self {
            HttpMethod::Options => HttpMethod::Options,
            HttpMethod::Get => HttpMethod::Get,
            HttpMethod::Post => HttpMethod::Post,
            HttpMethod::Put => HttpMethod::Put,
            HttpMethod::Delete => HttpMethod::Delete,
            HttpMethod::Head => HttpMethod::Head,
            HttpMethod::Trace => HttpMethod::Trace,
            HttpMethod::Connect => HttpMethod::Connect,
            HttpMethod::Patch => HttpMethod::Patch,
            HttpMethod::Extension(name) => HttpMethod::Extension(name.clone()),
        }
    }
}

/// The method a route attribute asks for, as the route macros know them.
/// `Any` stands for a route that answers every method.
#[derive(Clone, Copy, Debug, PartialEq, Eq, Structural)]
pub enum Method {
    Get,
    Post,
    Put,
    Patch,
    Delete,
    Head,
    Any,
}

/// The method that the attribute name `s` selects when a route is read back
/// from its name: `head` is not among them.
pub open spec fn method_named(s: Seq<char>) -> Option<Method> {
    if s == "get"@ {
        Some(Method::Get)
    } else if s == "post"@ {
        Some(Method::Post)
    } else if s == "patch"@ {
        Some(Method::Patch)
    } else if s == "put"@ {
        Some(Method::Put)
    } else if s == "delete"@ {
        Some(Method::Delete)
    } else if s == "any"@ {
        Some(Method::Any)
    } else {
        None
    }
}

/// The lower-case name of a method, as it is written in a route attribute.
pub open spec fn method_name(m: Method) -> Seq<char> {
    match m {
        Method::Get => "get"@,
        Method::Post => "post"@,
        Method::Put => "put"@,
        Method::Patch => "patch"@,
        Method::Delete => "delete"@,
        Method::Head => "head"@,
        Method::Any => "any"@,
    }
}

/// The HTTP method a route of method `m` is registered for; `None` for `Any`.
pub open spec fn http_method_of(m: Method) -> Option<HttpMethod> {
    match m {
        Method::Get => Some(HttpMethod::Get),
        Method::Post => Some(HttpMethod::Post),
        Method::Put => Some(HttpMethod::Put),
        Method::Patch => Some(HttpMethod::Patch),
        Method::Delete => Some(HttpMethod::Delete),
        Method::Head => Some(HttpMethod::Head),
        Method::Any => None,
    }
}

impl Method {
    /// Reads a method back from its attribute name. The error names the
    /// input: `method not found: <s>`.
    pub fn parse(s: &str) -> (r: Result<Method, String>)
        ensures
            match method_named(s@) {
                Some(m) => r == Ok::<Method, String>(m),
                None => r matches Err(e) && e@ == "method not found: "@ + s@,
            },
    {
        if str_is(s, "get") {
            Ok(Method::Get)
        } else if str_is(s, "post") {
            Ok(Method::Post)
        } else if str_is(s, "patch") {
            Ok(Method::Patch)
        } else if str_is(s, "put") {
            Ok(Method::Put)
        } else if str_is(s, "delete") {
            Ok(Method::Delete)
        } else if str_is(s, "any") {
            Ok(Method::Any)
        } else {
            let mut e = "method not found: ".to_owned();
            e.append(s);
            Err(e)
        }
    }

    /// The HTTP method this route method is registered for; `None` for `Any`.
    pub fn http_method(self) -> (r: Option<HttpMethod>)
        ensures
            r == http_method_of(self),
    {
        match self {
            Method::Get => Some(HttpMethod::Get),
            Method::Post => Some(HttpMethod::Post),
            Method::Put => Some(HttpMethod::Put),
            Method::Patch => Some(HttpMethod::Patch),
            Method::Delete => Some(HttpMethod::Delete),
            Method::Head => Some(HttpMethod::Head),
            Method::Any => None,
        }
    }
}

impl std::str::FromStr for Method {
    type Err = String;

    fn from_str(s: &str) -> (r: Result<Method, String>)
        ensures
            match method_named(s@) {
                Some(m) => r == Ok::<Method, String>(m),
                None => r matches Err(e) && e@ == "method not found: "@ + s@,
            },
    {
        Method::parse(s)
    }
}

/// Two standard methods are the same method exactly when they are the same
/// method; an extension method is the same only as an extension method of
/// the same name; and being the same method is reflexive, symmetric and
/// transitive.
pub proof fn law_same_method_is_method_identity(a: HttpMethod, b: HttpMethod, c: HttpMethod)
    ensures
        !(a is Extension) && !(b is Extension) ==> (same_method(a, b) <==> a == b),
        same_method(a, b) ==> (a is Extension <==> b is Extension),
        a is Extension && b is Extension ==> (same_method(a, b) <==> a->0@ == b->0@),
        same_method(a, a),
        same_method(a, b) == same_method(b, a),
        same_method(a, b) && same_method(b, c) ==> same_method(a, c),
{
}

/// Each route method but `Any` is registered for the HTTP method of the same
/// name, and `Any` for no single method; so two route methods are never
/// registered for the same HTTP method.
pub proof fn law_route_method_registers_its_own_method(m: Method, n: Method)
    ensures
        m == Method::Get ==> http_method_of(m) == Some(HttpMethod::Get),
        m == Method::Post ==> http_method_of(m) == Some(HttpMethod::Post),
        m == Method::Put ==> http_method_of(m) == Some(HttpMethod::Put),
        m == Method::Patch ==> http_method_of(m) == Some(HttpMethod::Patch),
        m == Method::Delete ==> http_method_of(m) == Some(HttpMethod::Delete),
        m == Method::Head ==> http_method_of(m) == Some(HttpMethod::Head),
        http_method_of(m) is None <==> m == Method::Any,
        m != n ==> http_method_of(m) != http_method_of(n),
        http_method_of(m) matches Some(h) ==> !(h is Extension),
{
}

/// The names of the route methods are pairwise distinct.
pub proof fn lemma_method_names_distinct()
    ensures
        "get"@ != "post"@, "get"@ != "patch"@, "get"@ != "put"@, "get"@ != "delete"@,
        "get"@ != "any"@, "post"@ != "patch"@, "post"@ != "put"@, "post"@ != "delete"@,
        "post"@ != "any"@, "patch"@ != "put"@, "patch"@ != "delete"@, "patch"@ != "any"@,
        "put"@ != "delete"@, "put"@ != "any"@, "delete"@ != "any"@,
        "head"@ != "get"@, "head"@ != "post"@, "head"@ != "patch"@, "head"@ != "put"@,
        "head"@ != "delete"@, "head"@ != "any"@,
{
    reveal_strlit("get");
    reveal_strlit("post");
    reveal_strlit("put");
    reveal_strlit("patch");
    reveal_strlit("delete");
    reveal_strlit("any");
    reveal_strlit("head");
    assert("get"@.len() != "post"@.len());
    assert("get"@.len() != "patch"@.len());
    assert("get"@[0] != "put"@[0]);
    assert("get"@.len() != "delete"@.len());
    assert("get"@[0] != "any"@[0]);
    assert("post"@.len() != "patch"@.len());
    assert("post"@.len() != "put"@.len());
    assert("post"@.len() != "delete"@.len());
    assert("post"@.len() != "any"@.len());
    assert("patch"@.len() != "put"@.len());
    assert("patch"@.len() != "delete"@.len());
    assert("patch"@.len() != "any"@.len());
    assert("put"@.len() != "delete"@.len());
    assert("put"@[0] != "any"@[0]);
    assert("delete"@.len() != "any"@.len());
    assert("head"@.len() != "get"@.len());
    assert("head"@[0] != "post"@[0]);
    assert("head"@.len() != "patch"@.len());
    assert("head"@.len() != "put"@.len());
    assert("head"@.len() != "delete"@.len());
    assert("head"@.len() != "any"@.len());
}

/// Every method but `Head` is read back from its own name.
pub proof fn law_method_name_round_trip(m: Method)
    requires
        m != Method::Head,
    ensures
        method_named(method_name(m)) == Some(m),
{
    lemma_method_names_distinct();
}

/// The name `head` is not read back as a method.
pub proof fn law_head_is_not_parsed()
    ensures
        method_named(method_name(Method::Head)) == None::<Method>,
{
    lemma_method_names_distinct();
}

} // verus!
