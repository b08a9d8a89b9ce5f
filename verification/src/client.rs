//! The validated client configuration and the composition of each request:
//! which headers are attached, how the configured language is merged into
//! the caller's query parameters, and what URL a path resolves to.
use vstd::prelude::*;
use vstd::string::StringExecFns;

use crate::error::Error;
use crate::request::Method;
use crate::request::RequestSpec;
use crate::request::SearchTypesParams;
use crate::request::query_view;

verus! {

/// isolang's language type, carried opaquely through the builder.
#[verifier::external_type_specification]
#[verifier::external_body]
pub struct ExLanguage(isolang::Language);

/// Relies on `isolang::Language::from_639_1`: it returns the language that
/// a two-letter ISO 639-1 code names, and `None` for any other string.
#[verifier::external_body]
fn language_from_639_1(code: &str) -> (r: Option<isolang::Language>) {
    isolang::Language::from_639_1(code)
}

/// Relies on `isolang::Language::to_639_1`: it returns the two-letter
/// ISO 639-1 code of the language when one exists, and `None` otherwise.
#[verifier::external_body]
fn language_to_639_1(lang: &isolang::Language) -> (r: Option<String>)
    ensures
        r matches Some(s) ==> s@.len() == 2,
{
    lang.to_639_1().map(|s| s.to_string())
}

/// Relies on `str::to_lowercase`.
#[verifier::external_body]
fn to_lowercase(s: &str) -> (r: String) {
    s.to_lowercase()
}

/// The main client for interacting with the Numista API: the immutable,
/// validated connection settings that back every request.
#[derive(Debug)]
pub struct Client {
    api_key: String,
    base_url: String,
    bearer_token: Option<String>,
    lang: Option<String>,
}

/// Clones an optional string, keeping its value.
fn clone_opt_string(v: &Option<String>) -> (r: Option<String>)
    ensures
        r == *v,
{
    match v {
        Some(s) => Some(s.clone()),
        None => None,
    }
}

impl Clone for Client {
    /// Clones the configuration, keeping every setting's value.
    fn clone(&self) -> (r: Self)
        ensures
            r == *self,
    {
        Client {
            api_key: self.api_key.clone(),
            base_url: self.base_url.clone(),
            bearer_token: clone_opt_string(&self.bearer_token),
            lang: clone_opt_string(&self.lang),
        }
    }
}

impl Client {
    /// The configured API key.
    pub closed spec fn api_key_view(&self) -> Seq<char> {
        self.api_key@
    }

    /// The configured base address.
    pub closed spec fn base_url_view(&self) -> Seq<char> {
        self.base_url@
    }

    /// The configured bearer token, if any.
    pub closed spec fn bearer_view(&self) -> Option<Seq<char>> {
        match self.bearer_token {
            Some(t) => Some(t@),
            None => None,
        }
    }

    /// The configured response-language code, if any.
    pub closed spec fn lang_view(&self) -> Option<Seq<char>> {
        match self.lang {
            Some(l) => Some(l@),
            None => None,
        }
    }

    /// A well-formed client always carries a non-empty API key.
    pub open spec fn wf(&self) -> bool {
        self.api_key_view().len() > 0
    }

    /// The headers attached to every request: the credential header
    /// always, the authorization header exactly when a bearer token is
    /// configured.
    pub open spec fn spec_headers(&self) -> Seq<(Seq<char>, Seq<char>)> {
        seq![("Numista-API-Key"@, self.api_key_view())] + match self.bearer_view() {
            Some(t) => seq![("Authorization"@, "Bearer "@ + t)],
            None => Seq::<(Seq<char>, Seq<char>)>::empty(),
        }
    }

    /// The language query parameter, when a language is configured.
    pub open spec fn spec_lang_param(&self) -> Seq<(Seq<char>, Seq<char>)> {
        match self.lang_view() {
            Some(l) => seq![("lang"@, l)],
            None => Seq::<(Seq<char>, Seq<char>)>::empty(),
        }
    }

    /// Builds the header list for one request.
    pub fn request_headers(&self) -> (h: Vec<(String, String)>)
        ensures
            query_view(h@) == self.spec_headers(),
    {
        let mut h: Vec<(String, String)> = Vec::new();
        h.push((String::from_str("Numista-API-Key"), self.api_key.clone()));
        match &self.bearer_token {
            Some(t) => {
                let mut v = String::from_str("Bearer ");
                v.append(t.as_str());
                h.push((String::from_str("Authorization"), v));
            },
            None => {},
        }
        proof {
            assert(query_view(h@) =~= self.spec_headers());
        }
        h
    }

    /// Merges the configured language into a caller's query parameters:
    /// the language parameter, when configured, goes first, and the
    /// caller's parameters follow unaltered.
    pub fn merge_query_params(&self, base: Vec<(String, String)>) -> (out: Vec<(String, String)>)
        ensures
            query_view(out@) == self.spec_lang_param() + query_view(base@),
    {
        let mut out: Vec<(String, String)> = Vec::new();
        match &self.lang {
            Some(l) => {
                out.push((String::from_str("lang"), l.clone()));
            },
            None => {},
        }
        let mut rest = base;
        let ghost head = out@;
        let ghost tail = rest@;
        out.append(&mut rest);
        proof {
            assert(out@ == head + tail);
            assert(query_view(head + tail) =~= query_view(head) + query_view(tail));
            assert(query_view(out@) =~= self.spec_lang_param() + query_view(tail));
        }
        out
    }

    /// Composes one logical request: the full URL from the base address
    /// and the path, the headers of this configuration, and the caller's
    /// query parameters merged with the configured language.
    pub fn prepare_request(
        &self,
        method: Method,
        path: &str,
        query: Vec<(String, String)>,
        body: Option<String>,
    ) -> (r: RequestSpec)
        ensures
            r.method == method,
            r.url@ == self.base_url_view() + path@,
            query_view(r.headers@) == self.spec_headers(),
            query_view(r.query@) == self.spec_lang_param() + query_view(query@),
            r.body == body,
    {
        let mut url = self.base_url.clone();
        url.append(path);
        let headers = self.request_headers();
        let merged = self.merge_query_params(query);
        RequestSpec { method, url, headers, query: merged, body }
    }

    /// Composes the request for one page of a type search: the search
    /// parameters with the page number set, merged with the configured
    /// language.
    pub fn search_types_request(&self, params: &SearchTypesParams, page: i64) -> (r: RequestSpec)
        ensures
            r.method == Method::Get,
            r.url@ == self.base_url_view() + "/types"@,
            query_view(r.headers@) == self.spec_headers(),
            query_view(r.query@) == self.spec_lang_param() + (SearchTypesParams {
                page: Some(page),
                ..*params
            }).spec_query(),
            r.body is None,
    {
        let paged = params.clone().page(page);
        let query = paged.build();
        self.prepare_request(Method::Get, "/types", query, None)
    }
}

/// When a language is configured, every composed request carries it as a
/// query parameter: it stands first in the merged list, and the caller's
/// own parameters follow it unaltered.
pub proof fn lemma_language_propagation(c: Client, base: Seq<(String, String)>)
    requires
        c.lang_view() is Some,
    ensures
        (c.spec_lang_param() + query_view(base)).len() == 1 + base.len(),
        (c.spec_lang_param() + query_view(base))[0] == (
            "lang"@,
            c.lang_view().unwrap(),
        ),
        forall|i: int|
            0 <= i < base.len() ==> (c.spec_lang_param() + query_view(base))[i + 1]
                == query_view(base)[i],
{
}

/// A builder for creating a `Client`.
#[derive(Debug, Default)]
pub struct ClientBuilder {
    pub api_key: Option<String>,
    pub base_url: Option<String>,
    pub bearer_token: Option<String>,
    pub lang: Option<isolang::Language>,
}

impl ClientBuilder {
    /// Creates a new `ClientBuilder` with nothing configured.
    pub fn new() -> (r: Self)
        ensures
            r == (ClientBuilder {
                api_key: None,
                base_url: None,
                bearer_token: None,
                lang: None,
            }),
    {
        ClientBuilder { api_key: None, base_url: None, bearer_token: None, lang: None }
    }

    /// Sets the API key to use for requests.
    pub fn api_key(self, api_key: String) -> (r: Self)
        ensures
            r == (ClientBuilder { api_key: Some(api_key), ..self }),
    {
        ClientBuilder { api_key: Some(api_key), ..self }
    }

    /// Sets the base URL to use for requests.
    ///
    /// This is useful for testing.
    pub fn base_url(self, base_url: String) -> (r: Self)
        ensures
            r == (ClientBuilder { base_url: Some(base_url), ..self }),
    {
        ClientBuilder { base_url: Some(base_url), ..self }
    }

    /// Sets the bearer token to use for requests.
    pub fn bearer_token(self, bearer_token: String) -> (r: Self)
        ensures
            r == (ClientBuilder { bearer_token: Some(bearer_token), ..self }),
    {
        ClientBuilder { bearer_token: Some(bearer_token), ..self }
    }

    /// Sets the language to use for requests.
    pub fn lang(self, lang: isolang::Language) -> (r: Self)
        ensures
            r == (ClientBuilder { lang: Some(lang), ..self }),
    {
        ClientBuilder { lang: Some(lang), ..self }
    }

    /// Sets the language to use for requests from a two-letter code. A
    /// string that names no language leaves the builder unchanged.
    pub fn lang_code(self, lang_code: String) -> (r: Self)
        ensures
            (ClientBuilder { lang: self.lang, ..r }) == self,
    {
        let lowered = to_lowercase(lang_code.as_str());
        match language_from_639_1(lowered.as_str()) {
            Some(l) => ClientBuilder { lang: Some(l), ..self },
            None => self,
        }
    }

    /// Validates the configuration and builds the `Client`.
    ///
    /// Construction is a pure validation step: it fails with
    /// `Error::ApiKeyMissing` exactly when no non-empty API key was
    /// supplied, and no network access occurs.
    pub fn build(self) -> (r: Result<Client, Error>)
        ensures
            r is Ok <==> (self.api_key matches Some(k) && k@.len() > 0),
            r matches Ok(c) ==> {
                &&& c.wf()
                &&& c.api_key_view() == self.api_key.unwrap()@
                &&& c.base_url_view() == match self.base_url {
                    Some(u) => u@,
                    None => "https://api.numista.com/v3"@,
                }
                &&& c.bearer_view() == match self.bearer_token {
                    Some(t) => Some(t@),
                    None => None::<Seq<char>>,
                }
                &&& (self.lang is None ==> c.lang_view() is None)
                &&& (c.lang_view() matches Some(l) ==> l.len() == 2)
            },
            r matches Err(e) ==> e is ApiKeyMissing,
    {
        let api_key = match self.api_key {
            Some(k) => {
                if k.as_str().is_empty() {
                    return Err(Error::ApiKeyMissing);
                }
                k
            },
            None => {
                return Err(Error::ApiKeyMissing);
            },
        };
        let base_url = match self.base_url {
            Some(u) => u,
            None => String::from_str("https://api.numista.com/v3"),
        };
        let lang = match &self.lang {
            Some(l) => language_to_639_1(l),
            None => None,
        };
        Ok(Client { api_key, base_url, bearer_token: self.bearer_token, lang })
    }
}

} // verus!
