//! Request parameters for each operation, and their encoding into the
//! ordered query-parameter lists that the service expects.
use vstd::prelude::*;
use vstd::string::StringExecFns;

use crate::models::Category;
use crate::models::Date;
use crate::models::Decimal;
use crate::models::GrantType;
use crate::models::Grade;
use crate::models::Image;
use crate::numfmt::int_dec_rep;
use crate::numfmt::i64_to_string;
use crate::numfmt::i32_to_string;

verus! {

/// The HTTP method of a request.
#[derive(Debug, Clone, Copy, PartialEq, Eq, Structural)]
pub enum Method {
    Get,
    Post,
    Patch,
    Delete,
}

/// One logical request, ready for the transport: a method, a full URL,
/// the headers to attach, the ordered query parameters, and an optional
/// body.
#[derive(Debug, Clone, PartialEq)]
pub struct RequestSpec {
    pub method: Method,
    pub url: String,
    pub headers: Vec<(String, String)>,
    pub query: Vec<(String, String)>,
    pub body: Option<String>,
}

/// The views of a list of name/value pairs.
pub open spec fn query_view(v: Seq<(String, String)>) -> Seq<(Seq<char>, Seq<char>)> {
    v.map_values(|p: (String, String)| (p.0@, p.1@))
}

/// The query fragment for an optional string-valued parameter.
pub open spec fn opt_str_param(name: Seq<char>, v: Option<String>) -> Seq<(Seq<char>, Seq<char>)> {
    match v {
        Some(s) => seq![(name, s@)],
        None => Seq::<(Seq<char>, Seq<char>)>::empty(),
    }
}

/// The query fragment for an optional integer-valued parameter.
pub open spec fn opt_i64_param(name: Seq<char>, v: Option<i64>) -> Seq<(Seq<char>, Seq<char>)> {
    match v {
        Some(x) => seq![(name, int_dec_rep(x as int))],
        None => Seq::<(Seq<char>, Seq<char>)>::empty(),
    }
}

/// The query fragment for an optional category parameter.
pub open spec fn opt_category_param(name: Seq<char>, v: Option<Category>) -> Seq<
    (Seq<char>, Seq<char>),
> {
    match v {
        Some(c) => seq![(name, c.spec_code())],
        None => Seq::<(Seq<char>, Seq<char>)>::empty(),
    }
}

proof fn lemma_query_view_push(v: Seq<(String, String)>, p: (String, String))
    ensures
        query_view(v.push(p)) == query_view(v).push((p.0@, p.1@)),
{
    assert(query_view(v.push(p)) =~= query_view(v).push((p.0@, p.1@)));
}

/// Appends the query fragment for an optional string-valued parameter.
fn push_str_param(out: &mut Vec<(String, String)>, name: &str, v: &Option<String>)
    ensures
        query_view(final(out)@) == query_view(old(out)@) + opt_str_param(name@, *v),
{
    match v {
        Some(s) => {
            let ghost before = out@;
            out.push((String::from_str(name), s.clone()));
            proof {
                lemma_query_view_push(before, out@.last());
                assert(query_view(out@) =~= query_view(before) + opt_str_param(name@, *v));
            }
        },
        None => {
            proof {
                assert(query_view(out@) =~= query_view(out@) + opt_str_param(name@, *v));
            }
        },
    }
}

/// Appends the query fragment for an optional integer-valued parameter.
fn push_i64_param(out: &mut Vec<(String, String)>, name: &str, v: &Option<i64>)
    ensures
        query_view(final(out)@) == query_view(old(out)@) + opt_i64_param(name@, *v),
{
    match v {
        Some(x) => {
            let ghost before = out@;
            out.push((String::from_str(name), i64_to_string(*x)));
            proof {
                lemma_query_view_push(before, out@.last());
                assert(query_view(out@) =~= query_view(before) + opt_i64_param(name@, *v));
            }
        },
        None => {
            proof {
                assert(query_view(out@) =~= query_view(out@) + opt_i64_param(name@, *v));
            }
        },
    }
}

/// Appends the query fragment for an optional category parameter.
fn push_category_param(out: &mut Vec<(String, String)>, name: &str, v: &Option<Category>)
    ensures
        query_view(final(out)@) == query_view(old(out)@) + opt_category_param(name@, *v),
{
    match v {
        Some(c) => {
            let ghost before = out@;
            out.push((String::from_str(name), String::from_str(c.code())));
            proof {
                lemma_query_view_push(before, out@.last());
                assert(query_view(out@) =~= query_view(before) + opt_category_param(name@, *v));
            }
        },
        None => {
            proof {
                assert(query_view(out@) =~= query_view(out@) + opt_category_param(name@, *v));
            }
        },
    }
}

/// Clones an optional string, keeping its value.
fn clone_opt_string(v: &Option<String>) -> (r: Option<String>)
    ensures
        r == *v,
{
    match v {
        Some(s) => Some(s.clone()),
        None => None,
    }
}

/// Parameters for searching for types.
#[derive(Debug, PartialEq)]
pub struct SearchTypesParams {
    pub category: Option<Category>,
    pub q: Option<String>,
    pub issuer: Option<String>,
    pub catalogue: Option<i64>,
    pub number: Option<String>,
    pub ruler: Option<i64>,
    pub material: Option<i64>,
    pub year: Option<String>,
    pub date: Option<String>,
    pub size: Option<String>,
    pub weight: Option<String>,
    pub page: Option<i64>,
    pub count: Option<i64>,
}

impl Clone for SearchTypesParams {
    /// Clones the parameters, keeping every field's value.
    fn clone(&self) -> (r: Self)
        ensures
            r == *self,
    {
        SearchTypesParams {
            category: self.category,
            q: clone_opt_string(&self.q),
            issuer: clone_opt_string(&self.issuer),
            catalogue: self.catalogue,
            number: clone_opt_string(&self.number),
            ruler: self.ruler,
            material: self.material,
            year: clone_opt_string(&self.year),
            date: clone_opt_string(&self.date),
            size: clone_opt_string(&self.size),
            weight: clone_opt_string(&self.weight),
            page: self.page,
            count: self.count,
        }
    }
}

/// The decimal rendering of a range of years, as the search endpoint
/// expects it.
pub open spec fn year_range_rep(min: int, max: int) -> Seq<char> {
    int_dec_rep(min) + "-"@ + int_dec_rep(max)
}

impl SearchTypesParams {
    /// The ordered query parameters that these search parameters encode to.
    pub open spec fn spec_query(self) -> Seq<(Seq<char>, Seq<char>)> {
        opt_category_param("category"@, self.category) + opt_str_param("q"@, self.q)
            + opt_str_param("issuer"@, self.issuer) + opt_i64_param("catalogue"@, self.catalogue)
            + opt_str_param("number"@, self.number) + opt_i64_param("ruler"@, self.ruler)
            + opt_i64_param("material"@, self.material) + opt_str_param("year"@, self.year)
            + opt_str_param("date"@, self.date) + opt_str_param("size"@, self.size)
            + opt_str_param("weight"@, self.weight) + opt_i64_param("page"@, self.page)
            + opt_i64_param("count"@, self.count)
    }

    /// Creates a new `SearchTypesParams` with no filter set.
    pub fn new() -> (r: Self)
        ensures
            r == (SearchTypesParams {
                category: None,
                q: None,
                issuer: None,
                catalogue: None,
                number: None,
                ruler: None,
                material: None,
                year: None,
                date: None,
                size: None,
                weight: None,
                page: None,
                count: None,
            }),
    {
        SearchTypesParams {
            category: None,
            q: None,
            issuer: None,
            catalogue: None,
            number: None,
            ruler: None,
            material: None,
            year: None,
            date: None,
            size: None,
            weight: None,
            page: None,
            count: None,
        }
    }

    /// Sets the category to search in.
    pub fn category(self, category: Category) -> (r: Self)
        ensures
            r == (SearchTypesParams { category: Some(category), ..self }),
    {
        SearchTypesParams { category: Some(category), ..self }
    }

    /// Sets the search query.
    pub fn q(self, q: String) -> (r: Self)
        ensures
            r == (SearchTypesParams { q: Some(q), ..self }),
    {
        SearchTypesParams { q: Some(q), ..self }
    }

    /// Sets the issuer to search for.
    pub fn issuer(self, issuer: String) -> (r: Self)
        ensures
            r == (SearchTypesParams { issuer: Some(issuer), ..self }),
    {
        SearchTypesParams { issuer: Some(issuer), ..self }
    }

    /// Sets the catalogue to search in.
    pub fn catalogue(self, catalogue: i64) -> (r: Self)
        ensures
            r == (SearchTypesParams { catalogue: Some(catalogue), ..self }),
    {
        SearchTypesParams { catalogue: Some(catalogue), ..self }
    }

    /// Sets the number to search for in a catalogue.
    pub fn number(self, number: String) -> (r: Self)
        ensures
            r == (SearchTypesParams { number: Some(number), ..self }),
    {
        SearchTypesParams { number: Some(number), ..self }
    }

    /// Sets the ruler to search for.
    pub fn ruler(self, ruler: i64) -> (r: Self)
        ensures
            r == (SearchTypesParams { ruler: Some(ruler), ..self }),
    {
        SearchTypesParams { ruler: Some(ruler), ..self }
    }

    /// Sets the material to search for.
    pub fn material(self, material: i64) -> (r: Self)
        ensures
            r == (SearchTypesParams { material: Some(material), ..self }),
    {
        SearchTypesParams { material: Some(material), ..self }
    }

    /// Sets the year to a single year.
    pub fn year(self, year: i32) -> (r: Self)
        ensures
            (SearchTypesParams { year: self.year, ..r }) == self,
            r.year matches Some(s) && s@ == int_dec_rep(year as int),
    {
        SearchTypesParams { year: Some(i32_to_string(year)), ..self }
    }

    /// Sets the year to a range of years.
    pub fn year_range(self, min: i32, max: i32) -> (r: Self)
        ensures
            (SearchTypesParams { year: self.year, ..r }) == self,
            r.year matches Some(s) && s@ == year_range_rep(min as int, max as int),
    {
        let mut s = i32_to_string(min);
        s.append("-");
        let upper = i32_to_string(max);
        s.append(upper.as_str());
        SearchTypesParams { year: Some(s), ..self }
    }

    /// Sets the date to a single year.
    pub fn date(self, year: i32) -> (r: Self)
        ensures
            (SearchTypesParams { date: self.date, ..r }) == self,
            r.date matches Some(s) && s@ == int_dec_rep(year as int),
    {
        SearchTypesParams { date: Some(i32_to_string(year)), ..self }
    }

    /// Sets the date to a range of years.
    pub fn date_range(self, min: i32, max: i32) -> (r: Self)
        ensures
            (SearchTypesParams { date: self.date, ..r }) == self,
            r.date matches Some(s) && s@ == year_range_rep(min as int, max as int),
    {
        let mut s = i32_to_string(min);
        s.append("-");
        let upper = i32_to_string(max);
        s.append(upper.as_str());
        SearchTypesParams { date: Some(s), ..self }
    }

    /// Sets the size to search for.
    pub fn size(self, size: String) -> (r: Self)
        ensures
            r == (SearchTypesParams { size: Some(size), ..self }),
    {
        SearchTypesParams { size: Some(size), ..self }
    }

    /// Sets the weight to search for.
    pub fn weight(self, weight: String) -> (r: Self)
        ensures
            r == (SearchTypesParams { weight: Some(weight), ..self }),
    {
        SearchTypesParams { weight: Some(weight), ..self }
    }

    /// Sets the page to return.
    pub fn page(self, page: i64) -> (r: Self)
        ensures
            r == (SearchTypesParams { page: Some(page), ..self }),
    {
        SearchTypesParams { page: Some(page), ..self }
    }

    /// Sets the number of results per page.
    pub fn count(self, count: i64) -> (r: Self)
        ensures
            r == (SearchTypesParams { count: Some(count), ..self }),
    {
        SearchTypesParams { count: Some(count), ..self }
    }

    /// Encodes the parameters as the ordered query-parameter list that the
    /// search endpoint expects: each set field appears exactly once, in the
    /// fixed field order, with integers rendered in decimal.
    pub fn build(&self) -> (out: Vec<(String, String)>)
        ensures
            query_view(out@) == self.spec_query(),
    {
        let mut out: Vec<(String, String)> = Vec::new();
        push_category_param(&mut out, "category", &self.category);
        push_str_param(&mut out, "q", &self.q);
        push_str_param(&mut out, "issuer", &self.issuer);
        push_i64_param(&mut out, "catalogue", &self.catalogue);
        push_str_param(&mut out, "number", &self.number);
        push_i64_param(&mut out, "ruler", &self.ruler);
        push_i64_param(&mut out, "material", &self.material);
        push_str_param(&mut out, "year", &self.year);
        push_str_param(&mut out, "date", &self.date);
        push_str_param(&mut out, "size", &self.size);
        push_str_param(&mut out, "weight", &self.weight);
        push_i64_param(&mut out, "page", &self.page);
        push_i64_param(&mut out, "count", &self.count);
        proof {
            assert(query_view(out@) =~= self.spec_query());
        }
        out
    }
}

/// Parameters for listing the collected items of a user.
#[derive(Debug, Clone, PartialEq)]
pub struct GetCollectedItemsParams {
    pub category: Option<Category>,
    pub type_id: Option<i64>,
    pub collection: Option<i64>,
}

impl GetCollectedItemsParams {
    /// The ordered query parameters that these parameters encode to.
    pub open spec fn spec_query(self) -> Seq<(Seq<char>, Seq<char>)> {
        opt_category_param("category"@, self.category) + opt_i64_param("type"@, self.type_id)
            + opt_i64_param("collection"@, self.collection)
    }

    /// Creates a new `GetCollectedItemsParams` with no filter set.
    pub fn new() -> (r: Self)
        ensures
            r == (GetCollectedItemsParams { category: None, type_id: None, collection: None }),
    {
        GetCollectedItemsParams { category: None, type_id: None, collection: None }
    }

    /// Restricts the listing to one category.
    pub fn category(self, category: Category) -> (r: Self)
        ensures
            r == (GetCollectedItemsParams { category: Some(category), ..self }),
    {
        GetCollectedItemsParams { category: Some(category), ..self }
    }

    /// Restricts the listing to one catalogue type.
    pub fn type_id(self, type_id: i64) -> (r: Self)
        ensures
            r == (GetCollectedItemsParams { type_id: Some(type_id), ..self }),
    {
        GetCollectedItemsParams { type_id: Some(type_id), ..self }
    }

    /// Restricts the listing to one collection.
    pub fn collection(self, collection: i64) -> (r: Self)
        ensures
            r == (GetCollectedItemsParams { collection: Some(collection), ..self }),
    {
        GetCollectedItemsParams { collection: Some(collection), ..self }
    }

    /// Encodes the parameters as the ordered query-parameter list that the
    /// collected-items endpoint expects.
    pub fn build(&self) -> (out: Vec<(String, String)>)
        ensures
            query_view(out@) == self.spec_query(),
    {
        let mut out: Vec<(String, String)> = Vec::new();
        push_category_param(&mut out, "category", &self.category);
        push_i64_param(&mut out, "type", &self.type_id);
        push_i64_param(&mut out, "collection", &self.collection);
        proof {
            assert(query_view(out@) =~= self.spec_query());
        }
        out
    }
}

/// Parameters for requesting an OAuth token.
#[derive(Debug, Clone, PartialEq)]
pub struct OAuthTokenParams {
    pub grant_type: GrantType,
    pub code: Option<String>,
    pub client_id: Option<String>,
    pub client_secret: Option<String>,
    pub redirect_uri: Option<String>,
    pub scope: Option<String>,
}

impl OAuthTokenParams {
    /// The ordered query parameters that these parameters encode to: the
    /// grant type always, each optional field when set.
    pub open spec fn spec_query(self) -> Seq<(Seq<char>, Seq<char>)> {
        seq![("grant_type"@, self.grant_type.spec_code())] + opt_str_param("code"@, self.code)
            + opt_str_param("client_id"@, self.client_id) + opt_str_param(
            "client_secret"@,
            self.client_secret,
        ) + opt_str_param("redirect_uri"@, self.redirect_uri) + opt_str_param(
            "scope"@,
            self.scope,
        )
    }

    /// Creates a new `OAuthTokenParams` for a grant type.
    pub fn new(grant_type: GrantType) -> (r: Self)
        ensures
            r == (OAuthTokenParams {
                grant_type,
                code: None,
                client_id: None,
                client_secret: None,
                redirect_uri: None,
                scope: None,
            }),
    {
        OAuthTokenParams {
            grant_type,
            code: None,
            client_id: None,
            client_secret: None,
            redirect_uri: None,
            scope: None,
        }
    }

    /// Sets the authorization code.
    pub fn code(self, code: String) -> (r: Self)
        ensures
            r == (OAuthTokenParams { code: Some(code), ..self }),
    {
        OAuthTokenParams { code: Some(code), ..self }
    }

    /// Sets the client identifier.
    pub fn client_id(self, client_id: String) -> (r: Self)
        ensures
            r == (OAuthTokenParams { client_id: Some(client_id), ..self }),
    {
        OAuthTokenParams { client_id: Some(client_id), ..self }
    }

    /// Sets the client secret.
    pub fn client_secret(self, client_secret: String) -> (r: Self)
        ensures
            r == (OAuthTokenParams { client_secret: Some(client_secret), ..self }),
    {
        OAuthTokenParams { client_secret: Some(client_secret), ..self }
    }

    /// Sets the redirect URI.
    pub fn redirect_uri(self, redirect_uri: String) -> (r: Self)
        ensures
            r == (OAuthTokenParams { redirect_uri: Some(redirect_uri), ..self }),
    {
        OAuthTokenParams { redirect_uri: Some(redirect_uri), ..self }
    }

    /// Sets the requested scope.
    pub fn scope(self, scope: String) -> (r: Self)
        ensures
            r == (OAuthTokenParams { scope: Some(scope), ..self }),
    {
        OAuthTokenParams { scope: Some(scope), ..self }
    }

    /// Encodes the parameters as the ordered query-parameter list that the
    /// token endpoint expects.
    pub fn build(&self) -> (out: Vec<(String, String)>)
        ensures
            query_view(out@) == self.spec_query(),
    {
        let mut out: Vec<(String, String)> = Vec::new();
        let ghost before = out@;
        out.push((String::from_str("grant_type"), String::from_str(self.grant_type.code())));
        proof {
            lemma_query_view_push(before, out@.last());
        }
        push_str_param(&mut out, "code", &self.code);
        push_str_param(&mut out, "client_id", &self.client_id);
        push_str_param(&mut out, "client_secret", &self.client_secret);
        push_str_param(&mut out, "redirect_uri", &self.redirect_uri);
        push_str_param(&mut out, "scope", &self.scope);
        proof {
            assert(query_view(out@) =~= self.spec_query());
        }
        out
    }
}

/// The price of an item as handed to the collection endpoints.
#[derive(Debug, Clone, PartialEq)]
pub struct ItemPriceParams {
    pub value: Decimal,
    pub currency: String,
}

/// Grading details as handed to the collection endpoints.
#[derive(Debug, Clone, PartialEq)]
pub struct GradingDetailsParams {
    pub grading_company: Option<i64>,
    pub slab_grade: Option<i64>,
    pub slab_number: Option<String>,
    pub cac_sticker: Option<String>,
    pub grading_designations: Option<Vec<i64>>,
    pub grading_strike: Option<i64>,
    pub grading_surface: Option<i64>,
}

impl GradingDetailsParams {
    /// Creates a new `GradingDetailsParams` with no detail set.
    pub fn new() -> (r: Self)
        ensures
            r == (GradingDetailsParams {
                grading_company: None,
                slab_grade: None,
                slab_number: None,
                cac_sticker: None,
                grading_designations: None,
                grading_strike: None,
                grading_surface: None,
            }),
    {
        GradingDetailsParams {
            grading_company: None,
            slab_grade: None,
            slab_number: None,
            cac_sticker: None,
            grading_designations: None,
            grading_strike: None,
            grading_surface: None,
        }
    }

    /// Sets the grading company.
    pub fn grading_company(self, grading_company: i64) -> (r: Self)
        ensures
            r == (GradingDetailsParams { grading_company: Some(grading_company), ..self }),
    {
        GradingDetailsParams { grading_company: Some(grading_company), ..self }
    }

    /// Sets the slab grade.
    pub fn slab_grade(self, slab_grade: i64) -> (r: Self)
        ensures
            r == (GradingDetailsParams { slab_grade: Some(slab_grade), ..self }),
    {
        GradingDetailsParams { slab_grade: Some(slab_grade), ..self }
    }

    /// Sets the slab number.
    pub fn slab_number(self, slab_number: String) -> (r: Self)
        ensures
            r == (GradingDetailsParams { slab_number: Some(slab_number), ..self }),
    {
        GradingDetailsParams { slab_number: Some(slab_number), ..self }
    }

    /// Sets the CAC sticker.
    pub fn cac_sticker(self, cac_sticker: String) -> (r: Self)
        ensures
            r == (GradingDetailsParams { cac_sticker: Some(cac_sticker), ..self }),
    {
        GradingDetailsParams { cac_sticker: Some(cac_sticker), ..self }
    }

    /// Sets the grading designations.
    pub fn grading_designations(self, grading_designations: Vec<i64>) -> (r: Self)
        ensures
            r == (GradingDetailsParams {
                grading_designations: Some(grading_designations),
                ..self
            }),
    {
        GradingDetailsParams { grading_designations: Some(grading_designations), ..self }
    }

    /// Sets the strike quality.
    pub fn grading_strike(self, grading_strike: i64) -> (r: Self)
        ensures
            r == (GradingDetailsParams { grading_strike: Some(grading_strike), ..self }),
    {
        GradingDetailsParams { grading_strike: Some(grading_strike), ..self }
    }

    /// Sets the surface quality.
    pub fn grading_surface(self, grading_surface: i64) -> (r: Self)
        ensures
            r == (GradingDetailsParams { grading_surface: Some(grading_surface), ..self }),
    {
        GradingDetailsParams { grading_surface: Some(grading_surface), ..self }
    }
}

/// The body of a request that adds an item to a collection.
#[derive(Debug, Clone, PartialEq)]
pub struct AddCollectedItemParams {
    pub type_id: i64,
    pub issue: Option<i64>,
    pub quantity: Option<i64>,
    pub grade: Option<Grade>,
    pub for_swap: Option<bool>,
    pub private_comment: Option<String>,
    pub public_comment: Option<String>,
    pub price: Option<ItemPriceParams>,
    pub collection: Option<i64>,
    pub storage_location: Option<String>,
    pub acquisition_place: Option<String>,
    pub acquisition_date: Option<Date>,
    pub serial_number: Option<String>,
    pub internal_id: Option<String>,
    pub weight: Option<Decimal>,
    pub size: Option<Decimal>,
    pub axis: Option<i64>,
    pub grading_details: Option<GradingDetailsParams>,
}

impl AddCollectedItemParams {
    /// Creates a new `AddCollectedItemParams` for a catalogue type, with
    /// every optional field unset.
    pub fn new(type_id: i64) -> (r: Self)
        ensures
            r == (AddCollectedItemParams {
                type_id,
                issue: None,
                quantity: None,
                grade: None,
                for_swap: None,
                private_comment: None,
                public_comment: None,
                price: None,
                collection: None,
                storage_location: None,
                acquisition_place: None,
                acquisition_date: None,
                serial_number: None,
                internal_id: None,
                weight: None,
                size: None,
                axis: None,
                grading_details: None,
            }),
    {
        AddCollectedItemParams {
            type_id,
            issue: None,
            quantity: None,
            grade: None,
            for_swap: None,
            private_comment: None,
            public_comment: None,
            price: None,
            collection: None,
            storage_location: None,
            acquisition_place: None,
            acquisition_date: None,
            serial_number: None,
            internal_id: None,
            weight: None,
            size: None,
            axis: None,
            grading_details: None,
        }
    }

    /// Sets the issue of the item.
    pub fn issue(self, issue: i64) -> (r: Self)
        ensures
            r == (AddCollectedItemParams { issue: Some(issue), ..self }),
    {
        AddCollectedItemParams { issue: Some(issue), ..self }
    }

    /// Sets the quantity.
    pub fn quantity(self, quantity: i64) -> (r: Self)
        ensures
            r == (AddCollectedItemParams { quantity: Some(quantity), ..self }),
    {
        AddCollectedItemParams { quantity: Some(quantity), ..self }
    }

    /// Sets the grade.
    pub fn grade(self, grade: Grade) -> (r: Self)
        ensures
            r == (AddCollectedItemParams { grade: Some(grade), ..self }),
    {
        AddCollectedItemParams { grade: Some(grade), ..self }
    }

    /// Sets whether the item is offered for swap.
    pub fn for_swap(self, for_swap: bool) -> (r: Self)
        ensures
            r == (AddCollectedItemParams { for_swap: Some(for_swap), ..self }),
    {
        AddCollectedItemParams { for_swap: Some(for_swap), ..self }
    }

    /// Sets the private comment.
    pub fn private_comment(self, private_comment: String) -> (r: Self)
        ensures
            r == (AddCollectedItemParams { private_comment: Some(private_comment), ..self }),
    {
        AddCollectedItemParams { private_comment: Some(private_comment), ..self }
    }

    /// Sets the public comment.
    pub fn public_comment(self, public_comment: String) -> (r: Self)
        ensures
            r == (AddCollectedItemParams { public_comment: Some(public_comment), ..self }),
    {
        AddCollectedItemParams { public_comment: Some(public_comment), ..self }
    }

    /// Sets the price.
    pub fn price(self, price: ItemPriceParams) -> (r: Self)
        ensures
            r == (AddCollectedItemParams { price: Some(price), ..self }),
    {
        AddCollectedItemParams { price: Some(price), ..self }
    }

    /// Sets the collection to add to.
    pub fn collection(self, collection: i64) -> (r: Self)
        ensures
            r == (AddCollectedItemParams { collection: Some(collection), ..self }),
    {
        AddCollectedItemParams { collection: Some(collection), ..self }
    }

    /// Sets the storage location.
    pub fn storage_location(self, storage_location: String) -> (r: Self)
        ensures
            r == (AddCollectedItemParams { storage_location: Some(storage_location), ..self }),
    {
        AddCollectedItemParams { storage_location: Some(storage_location), ..self }
    }

    /// Sets the acquisition place.
    pub fn acquisition_place(self, acquisition_place: String) -> (r: Self)
        ensures
            r == (AddCollectedItemParams { acquisition_place: Some(acquisition_place), ..self }),
    {
        AddCollectedItemParams { acquisition_place: Some(acquisition_place), ..self }
    }

    /// Sets the acquisition date.
    pub fn acquisition_date(self, acquisition_date: Date) -> (r: Self)
        ensures
            r == (AddCollectedItemParams { acquisition_date: Some(acquisition_date), ..self }),
    {
        AddCollectedItemParams { acquisition_date: Some(acquisition_date), ..self }
    }

    /// Sets the serial number.
    pub fn serial_number(self, serial_number: String) -> (r: Self)
        ensures
            r == (AddCollectedItemParams { serial_number: Some(serial_number), ..self }),
    {
        AddCollectedItemParams { serial_number: Some(serial_number), ..self }
    }

    /// Sets the internal identifier.
    pub fn internal_id(self, internal_id: String) -> (r: Self)
        ensures
            r == (AddCollectedItemParams { internal_id: Some(internal_id), ..self }),
    {
        AddCollectedItemParams { internal_id: Some(internal_id), ..self }
    }

    /// Sets the weight.
    pub fn weight(self, weight: Decimal) -> (r: Self)
        ensures
            r == (AddCollectedItemParams { weight: Some(weight), ..self }),
    {
        AddCollectedItemParams { weight: Some(weight), ..self }
    }

    /// Sets the size.
    pub fn size(self, size: Decimal) -> (r: Self)
        ensures
            r == (AddCollectedItemParams { size: Some(size), ..self }),
    {
        AddCollectedItemParams { size: Some(size), ..self }
    }

    /// Sets the die axis.
    pub fn axis(self, axis: i64) -> (r: Self)
        ensures
            r == (AddCollectedItemParams { axis: Some(axis), ..self }),
    {
        AddCollectedItemParams { axis: Some(axis), ..self }
    }

    /// Sets the grading details.
    pub fn grading_details(self, grading_details: GradingDetailsParams) -> (r: Self)
        ensures
            r == (AddCollectedItemParams { grading_details: Some(grading_details), ..self }),
    {
        AddCollectedItemParams { grading_details: Some(grading_details), ..self }
    }
}

/// The body of a request that edits an item in a collection.
#[derive(Debug, Clone, PartialEq)]
pub struct EditCollectedItemParams {
    pub type_id: Option<i64>,
    pub issue: Option<i64>,
    pub quantity: Option<i64>,
    pub grade: Option<Grade>,
    pub for_swap: Option<bool>,
    pub private_comment: Option<String>,
    pub public_comment: Option<String>,
    pub price: Option<ItemPriceParams>,
    pub collection: Option<i64>,
    pub storage_location: Option<String>,
    pub acquisition_place: Option<String>,
    pub acquisition_date: Option<Date>,
    pub serial_number: Option<String>,
    pub internal_id: Option<String>,
    pub weight: Option<Decimal>,
    pub size: Option<Decimal>,
    pub axis: Option<i64>,
    pub grading_details: Option<GradingDetailsParams>,
}

impl EditCollectedItemParams {
    /// Creates a new `EditCollectedItemParams` with every field unset.
    pub fn new() -> (r: Self)
        ensures
            r == (EditCollectedItemParams {
                type_id: None,
                issue: None,
                quantity: None,
                grade: None,
                for_swap: None,
                private_comment: None,
                public_comment: None,
                price: None,
                collection: None,
                storage_location: None,
                acquisition_place: None,
                acquisition_date: None,
                serial_number: None,
                internal_id: None,
                weight: None,
                size: None,
                axis: None,
                grading_details: None,
            }),
    {
        EditCollectedItemParams {
            type_id: None,
            issue: None,
            quantity: None,
            grade: None,
            for_swap: None,
            private_comment: None,
            public_comment: None,
            price: None,
            collection: None,
            storage_location: None,
            acquisition_place: None,
            acquisition_date: None,
            serial_number: None,
            internal_id: None,
            weight: None,
            size: None,
            axis: None,
            grading_details: None,
        }
    }

    /// Sets the catalogue type.
    pub fn type_id(self, type_id: i64) -> (r: Self)
        ensures
            r == (EditCollectedItemParams { type_id: Some(type_id), ..self }),
    {
        EditCollectedItemParams { type_id: Some(type_id), ..self }
    }

    /// Sets the issue of the item.
    pub fn issue(self, issue: i64) -> (r: Self)
        ensures
            r == (EditCollectedItemParams { issue: Some(issue), ..self }),
    {
        EditCollectedItemParams { issue: Some(issue), ..self }
    }

    /// Sets the quantity.
    pub fn quantity(self, quantity: i64) -> (r: Self)
        ensures
            r == (EditCollectedItemParams { quantity: Some(quantity), ..self }),
    {
        EditCollectedItemParams { quantity: Some(quantity), ..self }
    }

    /// Sets the grade.
    pub fn grade(self, grade: Grade) -> (r: Self)
        ensures
            r == (EditCollectedItemParams { grade: Some(grade), ..self }),
    {
        EditCollectedItemParams { grade: Some(grade), ..self }
    }

    /// Sets whether the item is offered for swap.
    pub fn for_swap(self, for_swap: bool) -> (r: Self)
        ensures
            r == (EditCollectedItemParams { for_swap: Some(for_swap), ..self }),
    {
        EditCollectedItemParams { for_swap: Some(for_swap), ..self }
    }

    /// Sets the private comment.
    pub fn private_comment(self, private_comment: String) -> (r: Self)
        ensures
            r == (EditCollectedItemParams { private_comment: Some(private_comment), ..self }),
    {
        EditCollectedItemParams { private_comment: Some(private_comment), ..self }
    }

    /// Sets the public comment.
    pub fn public_comment(self, public_comment: String) -> (r: Self)
        ensures
            r == (EditCollectedItemParams { public_comment: Some(public_comment), ..self }),
    {
        EditCollectedItemParams { public_comment: Some(public_comment), ..self }
    }

    /// Sets the price.
    pub fn price(self, price: ItemPriceParams) -> (r: Self)
        ensures
            r == (EditCollectedItemParams { price: Some(price), ..self }),
    {
        EditCollectedItemParams { price: Some(price), ..self }
    }

    /// Sets the collection.
    pub fn collection(self, collection: i64) -> (r: Self)
        ensures
            r == (EditCollectedItemParams { collection: Some(collection), ..self }),
    {
        EditCollectedItemParams { collection: Some(collection), ..self }
    }

    /// Sets the storage location.
    pub fn storage_location(self, storage_location: String) -> (r: Self)
        ensures
            r == (EditCollectedItemParams { storage_location: Some(storage_location), ..self }),
    {
        EditCollectedItemParams { storage_location: Some(storage_location), ..self }
    }

    /// Sets the acquisition place.
    pub fn acquisition_place(self, acquisition_place: String) -> (r: Self)
        ensures
            r == (EditCollectedItemParams { acquisition_place: Some(acquisition_place), ..self }),
    {
        EditCollectedItemParams { acquisition_place: Some(acquisition_place), ..self }
    }

    /// Sets the acquisition date.
    pub fn acquisition_date(self, acquisition_date: Date) -> (r: Self)
        ensures
            r == (EditCollectedItemParams { acquisition_date: Some(acquisition_date), ..self }),
    {
        EditCollectedItemParams { acquisition_date: Some(acquisition_date), ..self }
    }

    /// Sets the serial number.
    pub fn serial_number(self, serial_number: String) -> (r: Self)
        ensures
            r == (EditCollectedItemParams { serial_number: Some(serial_number), ..self }),
    {
        EditCollectedItemParams { serial_number: Some(serial_number), ..self }
    }

    /// Sets the internal identifier.
    pub fn internal_id(self, internal_id: String) -> (r: Self)
        ensures
            r == (EditCollectedItemParams { internal_id: Some(internal_id), ..self }),
    {
        EditCollectedItemParams { internal_id: Some(internal_id), ..self }
    }

    /// Sets the weight.
    pub fn weight(self, weight: Decimal) -> (r: Self)
        ensures
            r == (EditCollectedItemParams { weight: Some(weight), ..self }),
    {
        EditCollectedItemParams { weight: Some(weight), ..self }
    }

    /// Sets the size.
    pub fn size(self, size: Decimal) -> (r: Self)
        ensures
            r == (EditCollectedItemParams { size: Some(size), ..self }),
    {
        EditCollectedItemParams { size: Some(size), ..self }
    }

    /// Sets the die axis.
    pub fn axis(self, axis: i64) -> (r: Self)
        ensures
            r == (EditCollectedItemParams { axis: Some(axis), ..self }),
    {
        EditCollectedItemParams { axis: Some(axis), ..self }
    }

    /// Sets the grading details.
    pub fn grading_details(self, grading_details: GradingDetailsParams) -> (r: Self)
        ensures
            r == (EditCollectedItemParams { grading_details: Some(grading_details), ..self }),
    {
        EditCollectedItemParams { grading_details: Some(grading_details), ..self }
    }
}

/// The body of an image search request.
#[derive(Debug, Clone, PartialEq)]
pub struct SearchByImageParams {
    pub category: Option<Category>,
    pub images: Vec<Image>,
    pub max_results: Option<i64>,
}

} // verus!
