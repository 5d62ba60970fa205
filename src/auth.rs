//! Authentication strategies: what credentials a request carries.

use vstd::prelude::*;
use reqwest::header::{HeaderMap, HeaderValue, InvalidHeaderValue};
use crate::error::OpenRouterError;
use crate::text::joined;

verus! {

/// The headers of an outgoing request.
#[verifier::external_type_specification]
#[verifier::external_body]
#[verifier::reject_recursive_types(T)]
pub struct ExHeaderMap<T>(HeaderMap<T>);

/// The value type that a `HeaderMap` holds by default.
#[verifier::external_type_specification]
#[verifier::external_body]
pub struct ExHeaderValue(HeaderValue);

/// The refusal of a header value.
#[verifier::external_type_specification]
#[verifier::external_body]
pub struct ExInvalidHeaderValue(InvalidHeaderValue);

/// The headers that `h` holds: by lower-case name, the text of every value
/// under that name, in order.
pub uninterp spec fn header_entries(h: HeaderMap) -> Map<Seq<char>, Seq<Seq<char>>>;

/// The number of header values that `h` holds.
pub uninterp spec fn header_count(h: HeaderMap) -> nat;

/// The values that `entries` holds under `name`; none where it lacks the name.
pub open spec fn values_under(entries: Map<Seq<char>, Seq<Seq<char>>>, name: Seq<char>) -> Seq<Seq<char>> {
    if entries.contains_key(name) {
        entries[name]
    } else {
        Seq::empty()
    }
}

/// The headers, and how many values they hold, after each `(name, value)` of
/// `pairs` is set in turn, each replacing every value held under its name.
pub open spec fn after_setting(
    entries: Map<Seq<char>, Seq<Seq<char>>>,
    count: int,
    pairs: Seq<(Seq<char>, Seq<char>)>,
) -> (Map<Seq<char>, Seq<Seq<char>>>, int)
    decreases pairs.len(),
{
    if pairs.len() == 0 {
        (entries, count)
    } else {
        let (e, c) = after_setting(entries, count, pairs.drop_last());
        let (name, value) = pairs.last();
        (e.insert(name, seq![value]), c - values_under(e, name).len() + 1)
    }
}

/// Setting one more pair after `pairs` is one more replacing insert.
pub proof fn lemma_after_setting_push(
    entries: Map<Seq<char>, Seq<Seq<char>>>,
    count: int,
    pairs: Seq<(Seq<char>, Seq<char>)>,
    name: Seq<char>,
    value: Seq<char>,
)
    ensures
        ({
            let (e, c) = after_setting(entries, count, pairs);
            after_setting(entries, count, pairs.push((name, value))) == (
                e.insert(name, seq![value]),
                c - values_under(e, name).len() + 1,
            )
        }),
{
    assert(pairs.push((name, value)).drop_last() =~= pairs);
}

/// Setting `first` and then `then` is setting the pairs of both in order.
pub proof fn lemma_after_setting_concat(
    entries: Map<Seq<char>, Seq<Seq<char>>>,
    count: int,
    first: Seq<(Seq<char>, Seq<char>)>,
    then: Seq<(Seq<char>, Seq<char>)>,
)
    ensures
        ({
            let (e, c) = after_setting(entries, count, first);
            after_setting(entries, count, first + then) == after_setting(e, c, then)
        }),
    decreases then.len(),
{
    if then.len() == 0 {
        assert(first + then =~= first);
    } else {
        lemma_after_setting_concat(entries, count, first, then.drop_last());
        assert((first + then).drop_last() =~= first + then.drop_last());
    }
}

/// The most header values that a map may hold before one more is inserted.
pub const HEADER_ROOM: usize = 4096;

/// Whether `c` may stand in a header value: no control character but tab.
pub open spec fn header_char_ok(c: char) -> bool {
    (c as u32 >= 32 && c as u32 != 127) || c == '\t'
}

/// Whether `s` is accepted as the text of a header value.
pub open spec fn header_value_ok(s: Seq<char>) -> bool {
    forall|i: int| 0 <= i < s.len() ==> #[trigger] header_char_ok(s[i])
}

/// Whether `s` is a lower-case header name made of letters, digits and `-`.
pub open spec fn header_name_ok(s: Seq<char>) -> bool {
    &&& s.len() > 0
    &&& forall|i: int|
        0 <= i < s.len() ==> ('a' <= #[trigger] s[i] <= 'z' || '0' <= s[i] <= '9' || s[i] == '-')
}

/// Text joined from two pieces is a valid header value exactly when both
/// pieces are.
pub proof fn lemma_header_value_concat(a: Seq<char>, b: Seq<char>)
    ensures
        header_value_ok(a + b) <==> (header_value_ok(a) && header_value_ok(b)),
{
    if header_value_ok(a + b) {
        assert forall|i: int| 0 <= i < a.len() implies #[trigger] header_char_ok(a[i]) by {
            assert((a + b)[i] == a[i]);
        }
        assert forall|i: int| 0 <= i < b.len() implies #[trigger] header_char_ok(b[i]) by {
            assert((a + b)[i + a.len()] == b[i]);
        }
    }
    if header_value_ok(a) && header_value_ok(b) {
        assert forall|i: int| 0 <= i < (a + b).len() implies #[trigger] header_char_ok((a + b)[i]) by {
            if i >= a.len() {
                assert((a + b)[i] == b[i - a.len()]);
            }
        }
    }
}

/// Relies on `HeaderMap::new`: a map that holds no header.
#[verifier::external_body]
pub(crate) fn new_headers() -> (r: HeaderMap)
    ensures
        header_entries(r).dom() == Set::<Seq<char>>::empty(),
        header_count(r) == 0,
{
    HeaderMap::new()
}

/// Relies on `HeaderValue::from_str`, which refuses text with a control
/// character other than tab, and on `HeaderMap::insert`, which replaces every
/// value held under the name (a lower-case name is kept as it is).
#[verifier::external_body]
pub(crate) fn insert_header(h: &mut HeaderMap, name: &'static str, value: &str) -> (r: Result<(), InvalidHeaderValue>)
    requires
        header_name_ok(name@),
        header_count(*old(h)) < HEADER_ROOM,
    ensures
        r is Ok <==> header_value_ok(value@),
        r is Ok ==> header_entries(*final(h)) == header_entries(*old(h)).insert(name@, seq![value@]),
        r is Ok ==> header_count(*final(h)) == header_count(*old(h)) - values_under(
            header_entries(*old(h)),
            name@,
        ).len() + 1,
        r is Err ==> *final(h) == *old(h),
{
    match HeaderValue::from_str(value) {
        Ok(v) => {
            h.insert(name, v);
            Ok(())
        },
        Err(e) => Err(e),
    }
}

/// A way of putting credentials into the headers of a request.
pub trait AuthStrategy {
    /// The headers that `apply` sets, as `(lower-case name, value)` pairs in
    /// the order in which they are set.
    spec fn credential_headers(&self) -> Seq<(Seq<char>, Seq<char>)>;

    /// Whether every credential can be written as a header value.
    spec fn credentials_valid(&self) -> bool;

    /// Whether `e` is the error that `apply` reports when a credential
    /// cannot be written.
    spec fn refusal(&self, e: OpenRouterError) -> bool;

    /// A strategy sets fewer headers than a map has room for.
    proof fn lemma_credentials_fit(&self)
        ensures
            self.credential_headers().len() < HEADER_ROOM,
    ;

    /// Sets the credential headers in `headers`, each replacing every value
    /// held under its name, and keeps the rest.
    fn apply(&self, headers: &mut HeaderMap) -> (r: Result<(), OpenRouterError>)
        requires
            header_count(*old(headers)) + self.credential_headers().len() <= HEADER_ROOM,
        ensures
            r is Ok <==> self.credentials_valid(),
            r is Ok ==> header_entries(*final(headers)) == after_setting(
                header_entries(*old(headers)),
                header_count(*old(headers)) as int,
                self.credential_headers(),
            ).0,
            r is Ok ==> header_count(*final(headers)) == after_setting(
                header_entries(*old(headers)),
                header_count(*old(headers)) as int,
                self.credential_headers(),
            ).1,
            r matches Err(e) ==> self.refusal(e),
    ;
}

/// Authentication by API key, sent as a bearer token, with an optional site
/// address and site name that identify the calling application.
#[derive(Debug, Clone)]
pub struct ApiKeyAuth {
    api_key: String,
    site_url: Option<String>,
    site_name: Option<String>,
}

/// The value of the authorization header for `key`.
pub open spec fn bearer(key: Seq<char>) -> Seq<char> {
    "Bearer "@ + key
}

impl ApiKeyAuth {
    pub closed spec fn key(&self) -> Seq<char> {
        self.api_key@
    }

    pub closed spec fn site_url(&self) -> Option<Seq<char>> {
        match self.site_url {
            Some(u) => Some(u@),
            None => None,
        }
    }

    pub closed spec fn site_name(&self) -> Option<Seq<char>> {
        match self.site_name {
            Some(n) => Some(n@),
            None => None,
        }
    }

    /// Authentication by `api_key` alone.
    pub fn new(api_key: &str) -> (r: ApiKeyAuth)
        ensures
            r.key() == api_key@,
            r.site_url() is None,
            r.site_name() is None,
    {
        ApiKeyAuth { api_key: api_key.to_owned(), site_url: None, site_name: None }
    }

    /// The same, sending `url` as the referring site.
    pub fn with_site_url(self, url: &str) -> (r: ApiKeyAuth)
        ensures
            r.key() == self.key(),
            r.site_url() == Some(url@),
            r.site_name() == self.site_name(),
    {
        ApiKeyAuth { site_url: Some(url.to_owned()), ..self }
    }

    /// The same, sending `name` as the title of the calling application.
    pub fn with_site_name(self, name: &str) -> (r: ApiKeyAuth)
        ensures
            r.key() == self.key(),
            r.site_url() == self.site_url(),
            r.site_name() == Some(name@),
    {
        ApiKeyAuth { site_name: Some(name.to_owned()), ..self }
    }
}

/// An API key strategy sets the authorization header always, replacing
/// what it held; it sets the referring site exactly when a site address was
/// given and the title exactly when a site name was given, each as the one
/// value under its name; it leaves every other header, and a site header
/// it has nothing for, as it was. On a map that holds none of the three
/// names it adds one value per header it sets.
pub proof fn lemma_api_key_headers(
    auth: ApiKeyAuth,
    entries: Map<Seq<char>, Seq<Seq<char>>>,
    count: int,
)
    ensures
        ({
            let (e, c) = after_setting(entries, count, auth.credential_headers());
            let a = "authorization"@;
            let r = "http-referer"@;
            let t = "x-title"@;
            &&& e.contains_key(a) && e[a] == seq![bearer(auth.key())]
            &&& auth.site_url() matches Some(u) ==> e.contains_key(r) && e[r] == seq![u]
            &&& auth.site_url() is None ==> e.contains_key(r) == entries.contains_key(r) && values_under(e, r) == values_under(entries, r)
            &&& auth.site_name() matches Some(n) ==> e.contains_key(t) && e[t] == seq![n]
            &&& auth.site_name() is None ==> e.contains_key(t) == entries.contains_key(t) && values_under(e, t) == values_under(entries, t)
            &&& forall|k: Seq<char>|
                k != a && k != r && k != t ==> (#[trigger] e.contains_key(k) == entries.contains_key(k)
                    && values_under(e, k) == values_under(entries, k))
            &&& c == count - values_under(entries, a).len() + 1 + (if auth.site_url() is Some {
                1 - values_under(entries, r).len()
            } else {
                0
            }) + (if auth.site_name() is Some {
                1 - values_under(entries, t).len()
            } else {
                0
            })
            &&& auth.credential_headers().len() == 1 + (if auth.site_url() is Some { 1int } else { 0 }) + (if auth.site_name() is Some { 1int } else { 0 })
            &&& !entries.contains_key(a) && !entries.contains_key(r) && !entries.contains_key(t) ==> c
                == count + auth.credential_headers().len()
        }),
{
    reveal_strlit("authorization");
    reveal_strlit("http-referer");
    reveal_strlit("x-title");
    assert("authorization"@.len() == 13);
    assert("http-referer"@.len() == 12);
    assert("x-title"@.len() == 7);
    let a = "authorization"@;
    let r = "http-referer"@;
    let t = "x-title"@;
    let p0: Seq<(Seq<char>, Seq<char>)> = Seq::empty();
    let p1 = p0.push((a, bearer(auth.key())));
    lemma_after_setting_push(entries, count, p0, a, bearer(auth.key()));
    let p2 = match auth.site_url() {
        Some(u) => {
            lemma_after_setting_push(entries, count, p1, r, u);
            p1.push((r, u))
        },
        None => p1,
    };
    let p3 = match auth.site_name() {
        Some(n) => {
            lemma_after_setting_push(entries, count, p2, t, n);
            p2.push((t, n))
        },
        None => p2,
    };
    assert(p3 =~= auth.credential_headers());
}

impl AuthStrategy for ApiKeyAuth {
    open spec fn credential_headers(&self) -> Seq<(Seq<char>, Seq<char>)> {
        let with_key = seq![("authorization"@, bearer(self.key()))];
        let with_url = match self.site_url() {
            Some(u) => with_key.push(("http-referer"@, u)),
            None => with_key,
        };
        match self.site_name() {
            Some(n) => with_url.push(("x-title"@, n)),
            None => with_url,
        }
    }

    open spec fn credentials_valid(&self) -> bool {
        &&& header_value_ok(self.key())
        &&& (self.site_url() matches Some(u) ==> header_value_ok(u))
        &&& (self.site_name() matches Some(n) ==> header_value_ok(n))
    }

    /// The refused header is named as the first one that cannot be written.
    open spec fn refusal(&self, e: OpenRouterError) -> bool {
        e matches OpenRouterError::InvalidHeader(name) && name@ == if !header_value_ok(self.key()) {
            "Authorization"@
        } else if self.site_url() matches Some(u) && !header_value_ok(u) {
            "HTTP-Referer"@
        } else {
            "X-Title"@
        }
    }

    proof fn lemma_credentials_fit(&self) {
    }

    fn apply(&self, headers: &mut HeaderMap) -> (r: Result<(), OpenRouterError>) {
        proof {
            reveal_strlit("Bearer ");
            reveal_strlit("authorization");
            reveal_strlit("http-referer");
            reveal_strlit("x-title");
            lemma_header_value_concat("Bearer "@, self.key());
        }
        let ghost e0 = header_entries(*headers);
        let ghost c0 = header_count(*headers) as int;
        let ghost mut done: Seq<(Seq<char>, Seq<char>)> = Seq::empty();
        let value = joined("Bearer ", self.api_key.as_str());
        if insert_header(headers, "authorization", value.as_str()).is_err() {
            return Err(OpenRouterError::InvalidHeader("Authorization".to_owned()));
        }
        proof {
            lemma_after_setting_push(e0, c0, done, "authorization"@, value@);
            done = done.push(("authorization"@, value@));
        }
        if let Some(url) = &self.site_url {
            if insert_header(headers, "http-referer", url.as_str()).is_err() {
                return Err(OpenRouterError::InvalidHeader("HTTP-Referer".to_owned()));
            }
            proof {
                lemma_after_setting_push(e0, c0, done, "http-referer"@, url@);
                done = done.push(("http-referer"@, url@));
            }
        }
        if let Some(name) = &self.site_name {
            if insert_header(headers, "x-title", name.as_str()).is_err() {
                return Err(OpenRouterError::InvalidHeader("X-Title".to_owned()));
            }
            proof {
                lemma_after_setting_push(e0, c0, done, "x-title"@, name@);
                done = done.push(("x-title"@, name@));
            }
        }
        assert(done =~= self.credential_headers());
        Ok(())
    }
}

} // verus!
