//! The client: its configuration, how it is built, and what each endpoint
//! call sends and makes of the answer.

use vstd::prelude::*;
use reqwest::header::HeaderMap;
use crate::auth::{
    after_setting, header_count, lemma_after_setting_concat, lemma_after_setting_push, header_entries, header_value_ok, insert_header, new_headers, AuthStrategy};
use crate::error::OpenRouterError;
use crate::text::joined;
use crate::types::{Model, ModelList};

verus! {

/// The production root of the API.
pub open spec fn default_base_url() -> Seq<char> {
    "https://openrouter.ai/api/v1"@
}

/// The headers that a request carries before its credentials: the content
/// type where it has a JSON body.
pub open spec fn body_headers(json_body: bool) -> Seq<(Seq<char>, Seq<char>)> {
    if json_body {
        seq![("content-type"@, "application/json"@)]
    } else {
        Seq::empty()
    }
}

/// The message of the error for a model that the catalog lacks.
pub open spec fn missing_model_message(model_id: Seq<char>) -> Seq<char> {
    "Model not found: "@ + model_id
}

/// Whether no model before index `end` of `models` has the identifier `id`.
pub open spec fn none_before(models: Seq<Model>, id: Seq<char>, end: int) -> bool {
    forall|j: int| 0 <= j < end ==> (#[trigger] models[j]).id@ != id
}

/// A client of the API: an authentication strategy and the root address of
/// the endpoints, both fixed for the client's lifetime.
pub struct Client<A> {
    auth: A,
    base_url: String,
}

impl Client<()> {
    /// A builder that has no authentication strategy yet.
    pub fn builder() -> (r: ClientBuilder<()>)
        ensures
            r.base() == default_base_url(),
    {
        ClientBuilder::new()
    }
}

impl<A: AuthStrategy> Client<A> {
    pub closed spec fn base(&self) -> Seq<char> {
        self.base_url@
    }

    pub closed spec fn strategy(&self) -> A {
        self.auth
    }

    /// The root address of the endpoints.
    pub fn base_url(&self) -> (r: &str)
        ensures
            r@ == self.base(),
    {
        self.base_url.as_str()
    }

    /// The authentication strategy.
    pub fn auth(&self) -> (r: &A)
        ensures
            *r == self.strategy(),
    {
        &self.auth
    }

    /// Where chat completions are created (POST).
    pub fn chat_completions_url(&self) -> (r: String)
        ensures
            r@ == self.base() + "/chat/completions"@,
    {
        joined(self.base_url.as_str(), "/chat/completions")
    }

    /// Where the model catalog is listed (GET).
    pub fn models_url(&self) -> (r: String)
        ensures
            r@ == self.base() + "/models"@,
    {
        joined(self.base_url.as_str(), "/models")
    }

    /// Where the statistics of generation `generation_id` are read (GET).
    pub fn generation_url(&self, generation_id: &str) -> (r: String)
        ensures
            r@ == self.base() + "/generation?id="@ + generation_id@,
    {
        let head = joined(self.base_url.as_str(), "/generation?id=");
        joined(head.as_str(), generation_id)
    }

    /// Where the credit balance is read (GET).
    pub fn credits_url(&self) -> (r: String)
        ensures
            r@ == self.base() + "/auth/key"@,
    {
        joined(self.base_url.as_str(), "/auth/key")
    }

    /// The headers of a request: the JSON content type where it has a body,
    /// then the strategy's credentials. A strategy that refuses its
    /// credentials has its error passed on.
    pub fn request_headers(&self, json_body: bool) -> (r: Result<HeaderMap, OpenRouterError>)
        ensures
            r is Ok <==> self.strategy().credentials_valid(),
            r matches Ok(h) ==> header_entries(h) == after_setting(
                Map::empty(),
                0,
                body_headers(json_body) + self.strategy().credential_headers(),
            ).0,
            r matches Ok(h) ==> header_count(h) == after_setting(
                Map::empty(),
                0,
                body_headers(json_body) + self.strategy().credential_headers(),
            ).1,
            r matches Err(e) ==> self.strategy().refusal(e),
    {
        let mut headers = new_headers();
        let ghost base: Seq<(Seq<char>, Seq<char>)> = Seq::empty();
        proof {
            self.auth.lemma_credentials_fit();
            assert(header_entries(headers) =~= Map::<Seq<char>, Seq<Seq<char>>>::empty());
        }
        if json_body {
            proof {
                reveal_strlit("content-type");
                reveal_strlit("application/json");
                assert(header_value_ok("application/json"@));
                lemma_after_setting_push(Map::empty(), 0, base, "content-type"@, "application/json"@);
                assert(base.push(("content-type"@, "application/json"@)) =~= body_headers(json_body));
            }
            let inserted = insert_header(&mut headers, "content-type", "application/json");
            assert(inserted is Ok);
        }
        let ghost before = header_entries(headers);
        let ghost count = header_count(headers) as int;
        assert(after_setting(Map::empty(), 0, body_headers(json_body)) == (before, count));
        match self.auth.apply(&mut headers) {
            Ok(()) => {
                proof {
                    lemma_after_setting_concat(
                        Map::empty(),
                        0,
                        body_headers(json_body),
                        self.strategy().credential_headers(),
                    );
                }
                Ok(headers)
            },
            Err(e) => Err(e),
        }
    }
}

/// The first model of `models` whose identifier is `model_id`, or
/// `NotFound` when there is none. The catalog is searched in order.
pub fn find_model(models: ModelList, model_id: &str) -> (r: Result<Model, OpenRouterError>)
    ensures
        r matches Ok(m) ==> exists|i: int|
            0 <= i < models.data@.len() && models.data@[i] == m && m.id@ == model_id@
                && none_before(models.data@, model_id@, i),
        r is Err ==> none_before(models.data@, model_id@, models.data@.len() as int),
        r matches Err(e) ==> e matches OpenRouterError::NotFound(msg) && msg@
            == missing_model_message(model_id@),
{
    let id = model_id.to_owned();
    let mut data = models.data;
    let n = data.len();
    let mut i: usize = 0;
    while i < n
        invariant
            n == data@.len(),
            data@ == models.data@,
            id@ == model_id@,
            i <= n,
            none_before(data@, id@, i as int),
        decreases n - i,
    {
        if data[i].id == id {
            let m = data.remove(i);
            return Ok(m);
        }
        i += 1;
    }
    Err(OpenRouterError::NotFound(joined("Model not found: ", model_id)))
}

/// Staged construction of a client. `A` is `()` until a strategy is
/// attached; only a builder that holds an `AuthStrategy` can build.
pub struct ClientBuilder<A> {
    auth: A,
    base_url: String,
}

impl<A> ClientBuilder<A> {
    pub closed spec fn base(&self) -> Seq<char> {
        self.base_url@
    }

    pub closed spec fn strategy(&self) -> A {
        self.auth
    }
}

impl ClientBuilder<()> {
    /// A builder without strategy, aimed at the production root.
    pub fn new() -> (r: ClientBuilder<()>)
        ensures
            r.base() == default_base_url(),
    {
        ClientBuilder { auth: (), base_url: "https://openrouter.ai/api/v1".to_owned() }
    }

    /// Attaches the strategy that the client will authenticate with.
    pub fn auth<S: AuthStrategy>(self, strategy: S) -> (r: ClientBuilder<S>)
        ensures
            r.strategy() == strategy,
            r.base() == self.base(),
    {
        ClientBuilder { auth: strategy, base_url: self.base_url }
    }
}

impl Default for ClientBuilder<()> {
    fn default() -> (r: ClientBuilder<()>)
        ensures
            r.base() == default_base_url(),
    {
        ClientBuilder::new()
    }
}

impl<A: AuthStrategy> ClientBuilder<A> {
    /// Aims the client at another root address.
    pub fn base_url(self, url: &str) -> (r: ClientBuilder<A>)
        ensures
            r.strategy() == self.strategy(),
            r.base() == url@,
    {
        ClientBuilder { auth: self.auth, base_url: url.to_owned() }
    }

    /// The client, with the attached strategy and root address.
    pub fn build(self) -> (r: Client<A>)
        ensures
            r.strategy() == self.strategy(),
            r.base() == self.base(),
    {
        Client { auth: self.auth, base_url: self.base_url }
    }
}

} // verus!
