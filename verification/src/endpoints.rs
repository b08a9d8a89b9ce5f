//! The request each catalogue operation composes: its method, its path,
//! its query parameters, and — for the operations that send one — the
//! body it carries. The transport that performs the exchange and the
//! decoding of the response stay with the caller.
use vstd::prelude::*;
use vstd::string::StringExecFns;

use crate::client::Client;
use crate::numfmt::i64_to_string;
use crate::numfmt::int_dec_rep;
use crate::request::GetCollectedItemsParams;
use crate::request::Method;
use crate::request::OAuthTokenParams;
use crate::request::RequestSpec;
use crate::request::opt_str_param;
use crate::request::query_view;

verus! {

/// Appends the decimal rendering of an identifier to a path.
fn append_i64(path: &mut String, id: i64)
    ensures
        final(path)@ == old(path)@ + int_dec_rep(id as int),
{
    let digits = i64_to_string(id);
    path.append(digits.as_str());
}

impl Client {
    /// Composes the request that fetches a single type.
    pub fn get_type_request(&self, type_id: i64) -> (r: RequestSpec)
        ensures
            r.method == Method::Get,
            r.url@ == self.base_url_view() + "/types/"@ + int_dec_rep(type_id as int),
            query_view(r.headers@) == self.spec_headers(),
            query_view(r.query@) == self.spec_lang_param(),
            r.body is None,
    {
        let mut path = String::from_str("/types/");
        append_i64(&mut path, type_id);
        let r = self.prepare_request(Method::Get, path.as_str(), Vec::new(), None);
        proof {
            assert(self.spec_lang_param() + query_view(Seq::<(String, String)>::empty())
                =~= self.spec_lang_param());
        }
        r
    }

    /// Composes the request that fetches the issues of a type.
    pub fn get_issues_request(&self, type_id: i64) -> (r: RequestSpec)
        ensures
            r.method == Method::Get,
            r.url@ == self.base_url_view() + "/types/"@ + int_dec_rep(type_id as int)
                + "/issues"@,
            query_view(r.headers@) == self.spec_headers(),
            query_view(r.query@) == self.spec_lang_param(),
            r.body is None,
    {
        let mut path = String::from_str("/types/");
        append_i64(&mut path, type_id);
        path.append("/issues");
        let r = self.prepare_request(Method::Get, path.as_str(), Vec::new(), None);
        proof {
            assert(self.spec_lang_param() + query_view(Seq::<(String, String)>::empty())
                =~= self.spec_lang_param());
        }
        r
    }

    /// Composes the request that fetches the prices of an issue, in an
    /// optional currency.
    pub fn get_prices_request(&self, type_id: i64, issue_id: i64, currency: Option<String>) -> (r:
        RequestSpec)
        ensures
            r.method == Method::Get,
            r.url@ == self.base_url_view() + "/types/"@ + int_dec_rep(type_id as int)
                + "/issues/"@ + int_dec_rep(issue_id as int) + "/prices"@,
            query_view(r.headers@) == self.spec_headers(),
            query_view(r.query@) == self.spec_lang_param() + opt_str_param("currency"@, currency),
            r.body is None,
    {
        let mut path = String::from_str("/types/");
        append_i64(&mut path, type_id);
        path.append("/issues/");
        append_i64(&mut path, issue_id);
        path.append("/prices");
        let mut query: Vec<(String, String)> = Vec::new();
        match &currency {
            Some(c) => {
                query.push((String::from_str("currency"), c.clone()));
            },
            None => {},
        }
        proof {
            assert(query_view(query@) =~= opt_str_param("currency"@, currency));
        }
        self.prepare_request(Method::Get, path.as_str(), query, None)
    }

    /// Composes the request that lists the issuers.
    pub fn get_issuers_request(&self) -> (r: RequestSpec)
        ensures
            r.method == Method::Get,
            r.url@ == self.base_url_view() + "/issuers"@,
            query_view(r.headers@) == self.spec_headers(),
            query_view(r.query@) == self.spec_lang_param(),
            r.body is None,
    {
        let r = self.prepare_request(Method::Get, "/issuers", Vec::new(), None);
        proof {
            assert(self.spec_lang_param() + query_view(Seq::<(String, String)>::empty())
                =~= self.spec_lang_param());
        }
        r
    }

    /// Composes the request that lists the mints.
    pub fn get_mints_request(&self) -> (r: RequestSpec)
        ensures
            r.method == Method::Get,
            r.url@ == self.base_url_view() + "/mints"@,
            query_view(r.headers@) == self.spec_headers(),
            query_view(r.query@) == self.spec_lang_param(),
            r.body is None,
    {
        let r = self.prepare_request(Method::Get, "/mints", Vec::new(), None);
        proof {
            assert(self.spec_lang_param() + query_view(Seq::<(String, String)>::empty())
                =~= self.spec_lang_param());
        }
        r
    }

    /// Composes the request that fetches a single mint.
    pub fn get_mint_request(&self, mint_id: i64) -> (r: RequestSpec)
        ensures
            r.method == Method::Get,
            r.url@ == self.base_url_view() + "/mints/"@ + int_dec_rep(mint_id as int),
            query_view(r.headers@) == self.spec_headers(),
            query_view(r.query@) == self.spec_lang_param(),
            r.body is None,
    {
        let mut path = String::from_str("/mints/");
        append_i64(&mut path, mint_id);
        let r = self.prepare_request(Method::Get, path.as_str(), Vec::new(), None);
        proof {
            assert(self.spec_lang_param() + query_view(Seq::<(String, String)>::empty())
                =~= self.spec_lang_param());
        }
        r
    }

    /// Composes the request that lists the reference catalogues.
    pub fn get_catalogues_request(&self) -> (r: RequestSpec)
        ensures
            r.method == Method::Get,
            r.url@ == self.base_url_view() + "/catalogues"@,
            query_view(r.headers@) == self.spec_headers(),
            query_view(r.query@) == self.spec_lang_param(),
            r.body is None,
    {
        let r = self.prepare_request(Method::Get, "/catalogues", Vec::new(), None);
        proof {
            assert(self.spec_lang_param() + query_view(Seq::<(String, String)>::empty())
                =~= self.spec_lang_param());
        }
        r
    }

    /// Composes the request that fetches a single publication.
    pub fn get_publication_request(&self, id: &str) -> (r: RequestSpec)
        ensures
            r.method == Method::Get,
            r.url@ == self.base_url_view() + "/publications/"@ + id@,
            query_view(r.headers@) == self.spec_headers(),
            query_view(r.query@) == self.spec_lang_param(),
            r.body is None,
    {
        let mut path = String::from_str("/publications/");
        path.append(id);
        let r = self.prepare_request(Method::Get, path.as_str(), Vec::new(), None);
        proof {
            assert(self.spec_lang_param() + query_view(Seq::<(String, String)>::empty())
                =~= self.spec_lang_param());
        }
        r
    }

    /// Composes the request that fetches a user.
    pub fn get_user_request(&self, user_id: i64) -> (r: RequestSpec)
        ensures
            r.method == Method::Get,
            r.url@ == self.base_url_view() + "/users/"@ + int_dec_rep(user_id as int),
            query_view(r.headers@) == self.spec_headers(),
            query_view(r.query@) == self.spec_lang_param(),
            r.body is None,
    {
        let mut path = String::from_str("/users/");
        append_i64(&mut path, user_id);
        let r = self.prepare_request(Method::Get, path.as_str(), Vec::new(), None);
        proof {
            assert(self.spec_lang_param() + query_view(Seq::<(String, String)>::empty())
                =~= self.spec_lang_param());
        }
        r
    }

    /// Composes the request that lists the collections of a user.
    pub fn get_user_collections_request(&self, user_id: i64) -> (r: RequestSpec)
        ensures
            r.method == Method::Get,
            r.url@ == self.base_url_view() + "/users/"@ + int_dec_rep(user_id as int)
                + "/collections"@,
            query_view(r.headers@) == self.spec_headers(),
            query_view(r.query@) == self.spec_lang_param(),
            r.body is None,
    {
        let mut path = String::from_str("/users/");
        append_i64(&mut path, user_id);
        path.append("/collections");
        let r = self.prepare_request(Method::Get, path.as_str(), Vec::new(), None);
        proof {
            assert(self.spec_lang_param() + query_view(Seq::<(String, String)>::empty())
                =~= self.spec_lang_param());
        }
        r
    }

    /// Composes the request that lists the collected items of a user.
    pub fn get_collected_items_request(
        &self,
        user_id: i64,
        params: &GetCollectedItemsParams,
    ) -> (r: RequestSpec)
        ensures
            r.method == Method::Get,
            r.url@ == self.base_url_view() + "/users/"@ + int_dec_rep(user_id as int)
                + "/collected_items"@,
            query_view(r.headers@) == self.spec_headers(),
            query_view(r.query@) == self.spec_lang_param() + params.spec_query(),
            r.body is None,
    {
        let mut path = String::from_str("/users/");
        append_i64(&mut path, user_id);
        path.append("/collected_items");
        self.prepare_request(Method::Get, path.as_str(), params.build(), None)
    }

    /// Composes the request that adds an item to a user's collection;
    /// the caller hands in the serialized body.
    pub fn add_collected_item_request(&self, user_id: i64, body: String) -> (r: RequestSpec)
        ensures
            r.method == Method::Post,
            r.url@ == self.base_url_view() + "/users/"@ + int_dec_rep(user_id as int)
                + "/collected_items"@,
            query_view(r.headers@) == self.spec_headers(),
            query_view(r.query@) == self.spec_lang_param(),
            r.body matches Some(b) && b == body,
    {
        let mut path = String::from_str("/users/");
        append_i64(&mut path, user_id);
        path.append("/collected_items");
        let r = self.prepare_request(Method::Post, path.as_str(), Vec::new(), Some(body));
        proof {
            assert(self.spec_lang_param() + query_view(Seq::<(String, String)>::empty())
                =~= self.spec_lang_param());
        }
        r
    }

    /// Composes the request that fetches one collected item.
    pub fn get_collected_item_request(&self, user_id: i64, item_id: i64) -> (r: RequestSpec)
        ensures
            r.method == Method::Get,
            r.url@ == self.base_url_view() + "/users/"@ + int_dec_rep(user_id as int)
                + "/collected_items/"@ + int_dec_rep(item_id as int),
            query_view(r.headers@) == self.spec_headers(),
            query_view(r.query@) == self.spec_lang_param(),
            r.body is None,
    {
        let mut path = String::from_str("/users/");
        append_i64(&mut path, user_id);
        path.append("/collected_items/");
        append_i64(&mut path, item_id);
        let r = self.prepare_request(Method::Get, path.as_str(), Vec::new(), None);
        proof {
            assert(self.spec_lang_param() + query_view(Seq::<(String, String)>::empty())
                =~= self.spec_lang_param());
        }
        r
    }

    /// Composes the request that edits one collected item; the caller
    /// hands in the serialized body.
    pub fn edit_collected_item_request(&self, user_id: i64, item_id: i64, body: String) -> (r:
        RequestSpec)
        ensures
            r.method == Method::Patch,
            r.url@ == self.base_url_view() + "/users/"@ + int_dec_rep(user_id as int)
                + "/collected_items/"@ + int_dec_rep(item_id as int),
            query_view(r.headers@) == self.spec_headers(),
            query_view(r.query@) == self.spec_lang_param(),
            r.body matches Some(b) && b == body,
    {
        let mut path = String::from_str("/users/");
        append_i64(&mut path, user_id);
        path.append("/collected_items/");
        append_i64(&mut path, item_id);
        let r = self.prepare_request(Method::Patch, path.as_str(), Vec::new(), Some(body));
        proof {
            assert(self.spec_lang_param() + query_view(Seq::<(String, String)>::empty())
                =~= self.spec_lang_param());
        }
        r
    }

    /// Composes the request that deletes one collected item.
    pub fn delete_collected_item_request(&self, user_id: i64, item_id: i64) -> (r: RequestSpec)
        ensures
            r.method == Method::Delete,
            r.url@ == self.base_url_view() + "/users/"@ + int_dec_rep(user_id as int)
                + "/collected_items/"@ + int_dec_rep(item_id as int),
            query_view(r.headers@) == self.spec_headers(),
            query_view(r.query@) == self.spec_lang_param(),
            r.body is None,
    {
        let mut path = String::from_str("/users/");
        append_i64(&mut path, user_id);
        path.append("/collected_items/");
        append_i64(&mut path, item_id);
        let r = self.prepare_request(Method::Delete, path.as_str(), Vec::new(), None);
        proof {
            assert(self.spec_lang_param() + query_view(Seq::<(String, String)>::empty())
                =~= self.spec_lang_param());
        }
        r
    }

    /// Composes the request that obtains an OAuth token, through the
    /// same pipeline as any other operation.
    pub fn get_oauth_token_request(&self, params: &OAuthTokenParams) -> (r: RequestSpec)
        ensures
            r.method == Method::Get,
            r.url@ == self.base_url_view() + "/oauth_token"@,
            query_view(r.headers@) == self.spec_headers(),
            query_view(r.query@) == self.spec_lang_param() + params.spec_query(),
            r.body is None,
    {
        self.prepare_request(Method::Get, "/oauth_token", params.build(), None)
    }

    /// Composes the request that searches the catalogue by image; the
    /// caller hands in the serialized body.
    pub fn search_by_image_request(&self, body: String) -> (r: RequestSpec)
        ensures
            r.method == Method::Post,
            r.url@ == self.base_url_view() + "/search_by_image"@,
            query_view(r.headers@) == self.spec_headers(),
            query_view(r.query@) == self.spec_lang_param(),
            r.body matches Some(b) && b == body,
    {
        let r = self.prepare_request(Method::Post, "/search_by_image", Vec::new(), Some(body));
        proof {
            assert(self.spec_lang_param() + query_view(Seq::<(String, String)>::empty())
                =~= self.spec_lang_param());
        }
        r
    }
}

} // verus!
