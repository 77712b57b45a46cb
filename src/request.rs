//! The generic HTTP request executor: what is checked and decided before the
//! call goes out, and how its reply becomes a result.
use crate::headers::{collect_headers, header_map, names_unique, pairs_map, RawHeader};
use vstd::prelude::*;
use vstd::string::StringExecFns;

verus! {

/// The result of upper-casing a text, character by character.
pub uninterp spec fn upper_of(s: Seq<char>) -> Seq<char>;

/// A character with ASCII lower case letters taken to upper case.
pub open spec fn upper_ascii_char(c: char) -> char {
    if 97 <= c as u32 <= 122 {
        ((c as u32) - 32) as char
    } else {
        c
    }
}

/// Relies on str::to_uppercase: the upper-case form of the text, which
/// depends on its characters alone; on ASCII text it takes each ASCII
/// lower case letter to upper case and keeps every other character.
#[verifier::external_body]
fn uppercase(s: &str) -> (r: String)
    ensures
        r@ == upper_of(s@),
        is_ascii_text(s@) ==> r@ == upper_ascii(s@),
{
    s.to_uppercase()
}

/// The characters with the Unicode White_Space property.
pub open spec fn is_white_space(c: char) -> bool {
    let u = c as u32;
    ||| 9 <= u <= 13
    ||| u == 32
    ||| u == 0x85
    ||| u == 0xA0
    ||| u == 0x1680
    ||| 0x2000 <= u <= 0x200A
    ||| u == 0x2028
    ||| u == 0x2029
    ||| u == 0x202F
    ||| u == 0x205F
    ||| u == 0x3000
}

pub open spec fn trim_start(s: Seq<char>) -> Seq<char>
    decreases s.len(),
{
    if s.len() > 0 && is_white_space(s[0]) {
        trim_start(s.drop_first())
    } else {
        s
    }
}

pub open spec fn trim_end(s: Seq<char>) -> Seq<char>
    decreases s.len(),
{
    if s.len() > 0 && is_white_space(s.last()) {
        trim_end(s.drop_last())
    } else {
        s
    }
}

/// The text without its leading and trailing whitespace.
pub open spec fn trim_of(s: Seq<char>) -> Seq<char> {
    trim_end(trim_start(s))
}

/// Relies on str::trim: the text with leading and trailing characters of the
/// Unicode White_Space property removed.
#[verifier::external_body]
fn trimmed<'a>(s: &'a str) -> (r: &'a str)
    ensures
        r@ == trim_of(s@),
{
    s.trim()
}

/// The verbs a request may use.
#[derive(Clone, Copy, Debug, PartialEq, Eq, Structural)]
pub enum Method {
    Get,
    Post,
    Put,
    Delete,
    Patch,
    Head,
}

#[derive(Clone, Debug, PartialEq, Eq)]
pub enum RequestError {
    /// The method, as given, is none of the supported verbs.
    UnsupportedMethod(String),
    /// The call failed on its way: name resolution, connection, TLS or a timeout.
    TransportError(String),
    /// The body of the reply could not be read as text.
    BodyDecodeError(String),
}

/// A request that has passed its checks and is ready to be sent.
#[derive(Clone, Debug)]
pub struct RequestPlan {
    pub url: String,
    pub method: Method,
    /// Replaces the default user-agent for this call, where present.
    pub user_agent: Option<String>,
    /// Extra headers to set, in the order given.
    pub headers: Vec<(String, String)>,
}

/// What a completed call hands back.
#[derive(Clone, Debug)]
pub struct HttpResult {
    pub status: u16,
    /// Each text header of the reply once, by its name as received.
    pub headers: Vec<(String, String)>,
    pub body: String,
}

/// The verb that an upper-cased method name stands for.
pub open spec fn method_named(u: Seq<char>) -> Option<Method> {
    if u == "GET"@ {
        Some(Method::Get)
    } else if u == "POST"@ {
        Some(Method::Post)
    } else if u == "PUT"@ {
        Some(Method::Put)
    } else if u == "DELETE"@ {
        Some(Method::Delete)
    } else if u == "PATCH"@ {
        Some(Method::Patch)
    } else if u == "HEAD"@ {
        Some(Method::Head)
    } else {
        None
    }
}

pub open spec fn is_ascii_text(s: Seq<char>) -> bool {
    forall|i: int| 0 <= i < s.len() ==> (s[i] as u32) < 128
}

pub open spec fn upper_ascii(s: Seq<char>) -> Seq<char> {
    s.map_values(|c: char| upper_ascii_char(c))
}

pub open spec fn blank(s: Seq<char>) -> bool {
    trim_of(s).len() == 0
}

/// The extra headers that are applied: those whose name and value are both
/// non-blank, in the order given.
pub open spec fn kept_headers(hs: Seq<(String, String)>) -> Seq<(String, String)>
    decreases hs.len(),
{
    if hs.len() == 0 {
        Seq::empty()
    } else {
        let rest = kept_headers(hs.drop_last());
        if !blank(hs.last().0@) && !blank(hs.last().1@) {
            rest.push(hs.last())
        } else {
            rest
        }
    }
}

/// The user-agent override in force: the one given, unless it is blank.
pub open spec fn agent_override(ua: Option<String>) -> Option<String> {
    match ua {
        Some(a) => if blank(a@) {
            None
        } else {
            Some(a)
        },
        None => None,
    }
}

fn is_blank(s: &str) -> (r: bool)
    ensures
        r == blank(s@),
{
    trimmed(s).is_empty()
}

/// The verb that an upper-case method name stands for, if any.
pub fn method_of_upper(u: &str) -> (r: Option<Method>)
    ensures
        r == method_named(u@),
{
    let u = u.to_owned();
    if u == String::from_str("GET") {
        Some(Method::Get)
    } else if u == String::from_str("POST") {
        Some(Method::Post)
    } else if u == String::from_str("PUT") {
        Some(Method::Put)
    } else if u == String::from_str("DELETE") {
        Some(Method::Delete)
    } else if u == String::from_str("PATCH") {
        Some(Method::Patch)
    } else if u == String::from_str("HEAD") {
        Some(Method::Head)
    } else {
        None
    }
}

/// Reads a method name, in any case, as one of the supported verbs.
pub fn parse_method(m: &str) -> (r: Result<Method, RequestError>)
    ensures
        is_ascii_text(m@) ==> upper_of(m@) == upper_ascii(m@),
        match method_named(upper_of(m@)) {
            Some(k) => r == Ok::<Method, RequestError>(k),
            None => match r {
                Err(RequestError::UnsupportedMethod(s)) => s@ == m@,
                _ => false,
            },
        },
{
    let u = uppercase(m);
    match method_of_upper(u.as_str()) {
        Some(k) => Ok(k),
        None => Err(RequestError::UnsupportedMethod(m.to_owned())),
    }
}

/// Keeps the extra headers whose name and value are both non-blank.
pub fn filter_headers(hs: &Vec<(String, String)>) -> (r: Vec<(String, String)>)
    ensures
        r@ == kept_headers(hs@),
{
    let mut out: Vec<(String, String)> = Vec::new();
    let mut i: usize = 0;
    while i < hs.len()
        invariant
            0 <= i <= hs.len(),
            out@ == kept_headers(hs@.take(i as int)),
        decreases hs.len() - i,
    {
        assert(hs@.take(i + 1).drop_last() =~= hs@.take(i as int));
        assert(hs@.take(i + 1).last() == hs@[i as int]);
        if !is_blank(hs[i].0.as_str()) && !is_blank(hs[i].1.as_str()) {
            out.push((hs[i].0.clone(), hs[i].1.clone()));
        }
        i = i + 1;
    }
    assert(hs@.take(hs.len() as int) =~= hs@);
    out
}

/// Checks a request and settles what is sent: the verb, the user-agent
/// override and the extra headers. A request that fails here is never sent.
pub fn plan_request(
    url: String,
    method: &str,
    user_agent: Option<String>,
    extra_headers: Option<Vec<(String, String)>>,
) -> (r: Result<RequestPlan, RequestError>)
    ensures
        is_ascii_text(method@) ==> upper_of(method@) == upper_ascii(method@),
        match method_named(upper_of(method@)) {
            None => match r {
                Err(RequestError::UnsupportedMethod(s)) => s@ == method@,
                _ => false,
            },
            Some(k) => match r {
                Ok(p) => p.method == k && p.url == url && p.user_agent == agent_override(
                    user_agent,
                ) && p.headers@ == match extra_headers {
                    Some(hs) => kept_headers(hs@),
                    None => Seq::empty(),
                },
                Err(_) => false,
            },
        },
{
    let m = match parse_method(method) {
        Ok(m) => m,
        Err(e) => {
            return Err(e);
        },
    };
    let agent = match user_agent {
        Some(a) => if is_blank(a.as_str()) {
            None
        } else {
            Some(a)
        },
        None => None,
    };
    let headers = match &extra_headers {
        Some(hs) => filter_headers(hs),
        None => Vec::new(),
    };
    Ok(RequestPlan { url, method: m, user_agent: agent, headers })
}

/// Turns a reply into the call's result: every text header is kept (the last
/// value of a name wins), and a body that could not be read as text is an error.
pub fn http_result(status: u16, headers: &Vec<RawHeader>, body: Result<String, String>) -> (r:
    Result<HttpResult, RequestError>)
    ensures
        match body {
            Ok(b) => match r {
                Ok(h) => h.status == status && h.body == b && names_unique(h.headers@) && pairs_map(
                    h.headers@,
                ) == header_map(headers@),
                Err(_) => false,
            },
            Err(e) => r == Err::<HttpResult, RequestError>(RequestError::BodyDecodeError(e)),
        },
{
    match body {
        Ok(b) => Ok(HttpResult { status, headers: collect_headers(headers), body: b }),
        Err(e) => Err(RequestError::BodyDecodeError(e)),
    }
}

/// A method name is accepted exactly when its upper-case form is one of the
/// six verbs, and distinct verbs come from distinct names: a request goes out
/// with the verb it named, and no other name yields a request.
pub proof fn supported_methods(m: Seq<char>, n: Seq<char>)
    ensures
        method_named(upper_of(m)) is Some <==> (upper_of(m) == "GET"@ || upper_of(m) == "POST"@
            || upper_of(m) == "PUT"@ || upper_of(m) == "DELETE"@ || upper_of(m) == "PATCH"@
            || upper_of(m) == "HEAD"@),
        method_named(upper_of(m)) is Some && method_named(upper_of(m)) == method_named(
            upper_of(n),
        ) ==> upper_of(m) == upper_of(n),
{
}

proof fn lemma_trim_end_keeps_first(s: Seq<char>)
    requires
        s.len() > 0,
        !is_white_space(s[0]),
    ensures
        trim_end(s).len() > 0,
    decreases s.len(),
{
    if is_white_space(s.last()) {
        assert(s.len() > 1);
        assert(s.drop_last()[0] == s[0]);
        lemma_trim_end_keeps_first(s.drop_last());
    }
}

/// Text that starts with a character other than whitespace is not blank.
pub proof fn lemma_not_blank(s: Seq<char>)
    requires
        s.len() > 0,
        !is_white_space(s[0]),
    ensures
        !blank(s),
{
    lemma_trim_end_keeps_first(s);
}

/// Extra headers with an empty name or an empty value are skipped, and an
/// entry whose name and value both start with a non-whitespace character is
/// applied: of `{"": "x", "A": "", "B": "v"}` only `B` is applied. The
/// request itself goes out whatever the extra headers hold (see `plan_request`).
pub proof fn blank_entries_skipped(e: Seq<(String, String)>)
    requires
        e.len() == 3,
        e[0].0@.len() == 0,
        e[1].1@.len() == 0,
        e[2].0@.len() > 0 && !is_white_space(e[2].0@[0]),
        e[2].1@.len() > 0 && !is_white_space(e[2].1@[0]),
    ensures
        kept_headers(e) == seq![e[2]],
{
    assert(trim_of(e[0].0@).len() == 0);
    assert(trim_of(e[1].1@).len() == 0);
    lemma_not_blank(e[2].0@);
    lemma_not_blank(e[2].1@);
    assert(e.drop_last().drop_last().drop_last() =~= Seq::<(String, String)>::empty());
    assert(e.drop_last().drop_last().last() == e[0]);
    assert(e.drop_last().last() == e[1]);
    let e1 = e.drop_last().drop_last();
    assert(e1.len() == 1);
    assert(kept_headers(e1.drop_last()) == Seq::<(String, String)>::empty());
    assert(blank(e1.last().0@));
    assert(kept_headers(e1) =~= Seq::<(String, String)>::empty());
    assert(kept_headers(e.drop_last()) =~= Seq::<(String, String)>::empty());
    assert(kept_headers(e) =~= seq![e[2]]);
}

} // verus!
