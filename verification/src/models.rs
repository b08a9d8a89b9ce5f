//! The record shapes exchanged with the catalogue service.
//!
//! Values that the service expresses through rich external types are held
//! here as plain data: URLs as strings, language and currency identifiers
//! as their codes, dates as calendar fields, and decimal quantities as a
//! scaled integer mantissa.
use vstd::prelude::*;

verus! {

/// A calendar date, held as plain year, month and day fields.
#[derive(Debug, Clone, Copy, PartialEq, Eq, Structural)]
pub struct Date {
    pub year: i32,
    pub month: u8,
    pub day: u8,
}

impl Date {
    /// Whether the fields lie in calendar range.
    pub open spec fn wf(&self) -> bool {
        1 <= self.month <= 12 && 1 <= self.day <= 31
    }

    /// Builds a date from its fields.
    pub fn new(year: i32, month: u8, day: u8) -> (d: Date)
        requires
            1 <= month <= 12,
            1 <= day <= 31,
        ensures
            d == (Date { year, month, day }),
            d.wf(),
    {
        Date { year, month, day }
    }
}

/// A decimal number, held as a scaled integer: the value is
/// `mantissa / 10^scale`.
#[derive(Debug, Clone, Copy, PartialEq, Eq, Structural)]
pub struct Decimal {
    pub mantissa: i64,
    pub scale: u32,
}

impl Decimal {
    /// Whether the scale lies in the supported range.
    pub open spec fn wf(&self) -> bool {
        self.scale <= 28
    }

    /// Builds a decimal number from a mantissa and a scale; the value is
    /// `mantissa / 10^scale`.
    pub fn new(mantissa: i64, scale: u32) -> (d: Decimal)
        requires
            scale <= 28,
        ensures
            d == (Decimal { mantissa, scale }),
            d.wf(),
    {
        Decimal { mantissa, scale }
    }
}

/// The coin/medal alignment of a type.
#[derive(Debug, Clone, Copy, PartialEq, Eq, Structural)]
pub enum Orientation {
    Coin,
    Medal,
    Variable,
    Three,
    Nine,
}

/// A collectable item's grade.
#[derive(Debug, Clone, Copy, PartialEq, Eq, PartialOrd, Ord, Structural)]
pub enum Grade {
    G,
    Vg,
    F,
    Vf,
    Xf,
    Au,
    Unc,
}

/// The kind of a publication.
#[derive(Debug, Clone, Copy, PartialEq, Eq, Structural)]
pub enum PublicationType {
    Volume,
    Article,
    VolumeGroup,
    ArticleGroup,
}

/// The cover of a publication.
#[derive(Debug, Clone, Copy, PartialEq, Eq, Structural)]
pub enum Cover {
    Softcover,
    Hardcover,
    Spiral,
    HiddenSpiral,
}

/// The OAuth grant type used when requesting a token.
#[derive(Debug, Clone, Copy, PartialEq, Eq, Structural)]
pub enum GrantType {
    AuthorizationCode,
    ClientCredentials,
}

impl GrantType {
    /// The wire value of the grant type, as the token endpoint expects it.
    pub open spec fn spec_code(&self) -> Seq<char> {
        match self {
            GrantType::AuthorizationCode => "authorization_code"@,
            GrantType::ClientCredentials => "client_credentials"@,
        }
    }

    /// The wire value of the grant type, as the token endpoint expects it.
    pub fn code(&self) -> (s: &'static str)
        ensures
            s@ == self.spec_code(),
    {
        match self {
            GrantType::AuthorizationCode => "authorization_code",
            GrantType::ClientCredentials => "client_credentials",
        }
    }
}

/// The category of a catalogue type.
#[derive(Debug, Clone, Copy, PartialEq, Eq, Structural)]
pub enum Category {
    Coin,
    Banknote,
    Exonumia,
}

impl Category {
    /// The wire value of the category, as the search endpoint expects it.
    pub open spec fn spec_code(&self) -> Seq<char> {
        match self {
            Category::Coin => "coin"@,
            Category::Banknote => "banknote"@,
            Category::Exonumia => "exonumia"@,
        }
    }

    /// The display name of the category.
    pub open spec fn spec_name(&self) -> Seq<char> {
        match self {
            Category::Coin => "Coin"@,
            Category::Banknote => "Banknote"@,
            Category::Exonumia => "Exonumia"@,
        }
    }

    /// The wire value of the category, as the search endpoint expects it.
    pub fn code(&self) -> (s: &'static str)
        ensures
            s@ == self.spec_code(),
    {
        match self {
            Category::Coin => "coin",
            Category::Banknote => "banknote",
            Category::Exonumia => "exonumia",
        }
    }

    /// The display name of the category.
    pub fn name(&self) -> (s: &'static str)
        ensures
            s@ == self.spec_name(),
    {
        match self {
            Category::Coin => "Coin",
            Category::Banknote => "Banknote",
            Category::Exonumia => "Exonumia",
        }
    }
}

/// A mark on an issue of a type.
#[derive(Debug, Clone, PartialEq)]
pub struct Mark {
    pub id: i64,
    pub title: Option<String>,
    pub picture: Option<String>,
    pub letters: Option<String>,
}

/// A signature appearing on an issue.
#[derive(Debug, Clone, PartialEq)]
pub struct Signature {
    pub signer_name: String,
    pub signer_title: Option<String>,
}

/// A price estimate for one grade.
#[derive(Debug, Clone, PartialEq)]
pub struct GradePrice {
    pub grade: Grade,
    pub price: Decimal,
}

/// The price of a collected item, in a currency given by its code.
#[derive(Debug, Clone, PartialEq)]
pub struct ItemPrice {
    pub value: Decimal,
    pub currency: String,
}

/// The price estimates of an issue.
#[derive(Debug, Clone, PartialEq)]
pub struct PricesResponse {
    pub currency: String,
    pub prices: Vec<GradePrice>,
}

/// An issuing country or authority.
#[derive(Debug, Clone, PartialEq)]
pub struct Issuer {
    pub code: String,
    pub name: String,
}

/// An issuer with its full details.
#[derive(Debug, Clone, PartialEq)]
pub struct IssuerDetail {
    pub code: String,
    pub name: String,
    pub flag: Option<String>,
    pub wikidata_id: Option<String>,
    pub parent: Option<Issuer>,
    pub level: Option<i8>,
}

/// The list of issuers.
#[derive(Debug, Clone, PartialEq)]
pub struct IssuersResponse {
    pub count: i64,
    pub issuers: Vec<IssuerDetail>,
}

/// A mint with its full details.
#[derive(Debug, Clone, PartialEq)]
pub struct MintDetail {
    pub id: i64,
    pub name: Option<String>,
    pub local_name: Option<String>,
    pub place: Option<String>,
    pub country: Option<Issuer>,
    pub start_year: Option<i32>,
    pub end_year: Option<i32>,
    pub nomisma_id: Option<String>,
    pub wikidata_id: Option<String>,
}

/// The list of mints.
#[derive(Debug, Clone, PartialEq)]
pub struct MintsResponse {
    pub count: i64,
    pub mints: Vec<MintDetail>,
}

/// A reference catalogue with its full details.
#[derive(Debug, Clone, PartialEq)]
pub struct CatalogueDetail {
    pub id: i64,
    pub code: String,
    pub title: String,
    pub author: String,
    pub publisher: String,
    pub isbn13: Option<String>,
}

/// The list of reference catalogues.
#[derive(Debug, Clone, PartialEq)]
pub struct CataloguesResponse {
    pub count: i64,
    pub catalogues: Vec<CatalogueDetail>,
}

/// A currency of a face value.
#[derive(Debug, Clone, PartialEq)]
pub struct Currency {
    pub id: i64,
    pub name: String,
    pub full_name: String,
}

/// The face value of a type.
#[derive(Debug, Clone, PartialEq)]
pub struct Value {
    pub text: Option<String>,
    pub numeric_value: Option<Decimal>,
    pub numerator: Option<i64>,
    pub denominator: Option<i64>,
    pub currency: Option<Currency>,
}

/// A ruling authority under which a type was issued.
#[derive(Debug, Clone, PartialEq)]
pub struct RulingAuthority {
    pub id: i64,
    pub name: String,
    pub wikidata_id: Option<String>,
    pub nomisma_id: Option<String>,
}

/// The composition of a type.
#[derive(Debug, Clone, PartialEq)]
pub struct Composition {
    pub text: Option<String>,
}

/// The manufacturing technique of a type.
#[derive(Debug, Clone, PartialEq)]
pub struct Technique {
    pub text: Option<String>,
}

/// Demonetization information of a type.
#[derive(Debug, Clone, PartialEq)]
pub struct Demonetization {
    pub is_demonetized: bool,
    pub demonetization_date: Option<Date>,
}

/// A script used in the lettering of a side.
#[derive(Debug, Clone, PartialEq)]
pub struct LetteringScript {
    pub name: String,
}

/// One side of a coin or banknote.
#[derive(Debug, Clone, PartialEq)]
pub struct CoinSide {
    pub engravers: Option<Vec<String>>,
    pub designers: Option<Vec<String>>,
    pub description: Option<String>,
    pub lettering: Option<String>,
    pub lettering_scripts: Option<Vec<LetteringScript>>,
    pub unabridged_legend: Option<String>,
    pub lettering_translation: Option<String>,
    pub picture: Option<String>,
    pub thumbnail: Option<String>,
    pub picture_copyright: Option<String>,
    pub picture_copyright_url: Option<String>,
    pub picture_license_name: Option<String>,
    pub picture_license_url: Option<String>,
}

/// A mint, by id and name.
#[derive(Debug, Clone, PartialEq)]
pub struct Mint {
    pub id: i64,
    pub name: String,
}

/// A reference catalogue, by id and code.
#[derive(Debug, Clone, PartialEq)]
pub struct Catalogue {
    pub id: i64,
    pub code: String,
}

/// A catalogue reference of a type.
#[derive(Debug, Clone, PartialEq)]
pub struct Reference {
    pub catalogue: Catalogue,
    pub number: String,
}

/// A printer of a banknote type.
#[derive(Debug, Clone, PartialEq)]
pub struct Printer {
    pub id: i64,
    pub name: String,
}

/// A type related to another type.
#[derive(Debug, Clone, PartialEq)]
pub struct RelatedType {
    pub id: i64,
    pub title: String,
    pub category: Category,
    pub issuer: Issuer,
    pub min_year: Option<i32>,
    pub max_year: Option<i32>,
}

/// A catalogue type with its full details.
#[derive(Debug, Clone, PartialEq)]
pub struct NumistaType {
    pub id: i64,
    pub url: Option<String>,
    pub title: String,
    pub category: Category,
    pub issuer: Option<Issuer>,
    pub issuing_entity: Option<IssuingEntity>,
    pub secondary_issuing_entity: Option<IssuingEntity>,
    pub min_year: Option<i32>,
    pub max_year: Option<i32>,
    pub type_kind: Option<String>,
    pub value: Option<Value>,
    pub ruler: Option<Vec<RulingAuthority>>,
    pub shape: Option<String>,
    pub composition: Option<Composition>,
    pub technique: Option<Technique>,
    pub demonetization: Option<Demonetization>,
    pub weight: Option<Decimal>,
    pub size: Option<Decimal>,
    pub size2: Option<Decimal>,
    pub thickness: Option<Decimal>,
    pub orientation: Option<Orientation>,
    pub obverse: Option<CoinSide>,
    pub reverse: Option<CoinSide>,
    pub edge: Option<CoinSide>,
    pub watermark: Option<CoinSide>,
    pub mints: Option<Vec<MintDetail>>,
    pub printers: Option<Vec<Printer>>,
    pub series: Option<String>,
    pub commemorated_topic: Option<String>,
    pub comments: Option<String>,
    pub related_types: Option<Vec<RelatedType>>,
    pub tags: Option<Vec<String>>,
    pub references: Option<Vec<Reference>>,
}

/// An entity that issued a type on behalf of an issuer.
#[derive(Debug, Clone, PartialEq)]
pub struct IssuingEntity {
    pub name: String,
}

/// One issue (year/variety) of a type.
#[derive(Debug, Clone, PartialEq)]
pub struct Issue {
    pub id: i64,
    pub is_dated: bool,
    pub year: Option<i32>,
    pub gregorian_year: Option<i32>,
    pub min_year: Option<i32>,
    pub max_year: Option<i32>,
    pub mint_letter: Option<String>,
    pub mintage: Option<i64>,
    pub comment: Option<String>,
    pub marks: Option<Vec<Mark>>,
    pub signatures: Option<Vec<Signature>>,
    pub references: Option<Vec<Reference>>,
}

/// One page of results of a type search.
#[derive(Debug, Clone, PartialEq)]
pub struct SearchTypesResponse {
    pub count: i64,
    pub types: Vec<SearchTypeResult>,
}

/// One type in a page of search results.
#[derive(Debug, Clone, PartialEq)]
pub struct SearchTypeResult {
    pub id: i64,
    pub title: String,
    pub category: Category,
    pub issuer: Issuer,
    pub min_year: Option<i32>,
    pub max_year: Option<i32>,
    pub obverse_thumbnail: Option<String>,
    pub reverse_thumbnail: Option<String>,
}

/// A contributor to a publication.
#[derive(Debug, Clone, PartialEq)]
pub struct Contributor {
    pub role: String,
    pub name: String,
    pub id: Option<i64>,
}

/// A publisher of a publication.
#[derive(Debug, Clone, PartialEq)]
pub struct Publisher {
    pub name: String,
    pub id: Option<i64>,
}

/// A place where a publication was published.
#[derive(Debug, Clone, PartialEq)]
pub struct PublicationPlace {
    pub name: String,
    pub geonames_id: Option<String>,
}

/// A larger publication that a publication is part of.
#[derive(Debug, Clone, PartialEq)]
pub struct PublicationPart {
    pub type_kind: PublicationType,
    pub id: String,
    pub title: String,
    pub volume_number: Option<String>,
}

/// A publication with its full details. Language identifiers are held as
/// their codes.
#[derive(Debug, Clone, PartialEq)]
pub struct Publication {
    pub id: String,
    pub url: Option<String>,
    pub type_kind: PublicationType,
    pub title: String,
    pub translated_title: Option<String>,
    pub volume_number: Option<String>,
    pub subtitle: Option<String>,
    pub translated_subtitle: Option<String>,
    pub edition: Option<String>,
    pub languages: Vec<String>,
    pub year: Option<i32>,
    pub page_count: Option<i64>,
    pub pages: Option<String>,
    pub cover: Option<Cover>,
    pub isbn10: Option<String>,
    pub isbn13: Option<String>,
    pub issn: Option<String>,
    pub oclc_number: Option<String>,
    pub contributors: Option<Vec<Contributor>>,
    pub publishers: Option<Vec<Publisher>>,
    pub publication_places: Option<Vec<PublicationPlace>>,
    pub part_of: Option<Vec<PublicationPart>>,
    pub bibliographical_notice: Option<String>,
    pub homepage_url: Option<String>,
    pub download_urls: Option<Vec<String>>,
}

/// A user of the service.
#[derive(Debug, Clone, PartialEq)]
pub struct User {
    pub username: String,
    pub avatar: Option<String>,
}

/// A named collection of a user.
#[derive(Debug, Clone, PartialEq)]
pub struct Collection {
    pub id: i64,
    pub name: String,
}

/// The collections of a user.
#[derive(Debug, Clone, PartialEq)]
pub struct CollectionsResponse {
    pub count: i64,
    pub collections: Vec<Collection>,
}

/// The type information attached to a collected item.
#[derive(Debug, Clone, PartialEq)]
pub struct CollectedItemType {
    pub id: i64,
    pub title: String,
    pub category: Category,
    pub issuer: Option<Issuer>,
}

/// A picture of a collected item.
#[derive(Debug, Clone, PartialEq)]
pub struct Picture {
    pub url: String,
    pub thumbnail_url: String,
}

/// The grading company that graded an item.
#[derive(Debug, Clone, PartialEq)]
pub struct GradingCompany {
    pub id: i64,
    pub name: String,
}

/// The grade assigned on a slab.
#[derive(Debug, Clone, PartialEq)]
pub struct SlabGrade {
    pub id: i64,
    pub value: String,
}

/// A designation assigned by a grading company.
#[derive(Debug, Clone, PartialEq)]
pub struct GradingDesignation {
    pub id: i64,
    pub value: String,
}

/// The strike quality assigned by a grading company.
#[derive(Debug, Clone, PartialEq)]
pub struct GradingStrike {
    pub id: i64,
    pub value: String,
}

/// The surface quality assigned by a grading company.
#[derive(Debug, Clone, PartialEq)]
pub struct GradingSurface {
    pub id: i64,
    pub value: String,
}

/// The grading details of a collected item.
#[derive(Debug, Clone, PartialEq)]
pub struct GradingDetails {
    pub grading_company: Option<GradingCompany>,
    pub slab_grade: Option<SlabGrade>,
    pub slab_number: Option<String>,
    pub cac_sticker: Option<String>,
    pub grading_designations: Option<Vec<GradingDesignation>>,
    pub grading_strike: Option<GradingStrike>,
    pub grading_surface: Option<GradingSurface>,
}

/// An item in a user's collection.
#[derive(Debug, Clone, PartialEq)]
pub struct CollectedItem {
    pub id: i64,
    pub quantity: i64,
    pub type_info: CollectedItemType,
    pub issue: Option<Issue>,
    pub for_swap: bool,
    pub grade: Option<Grade>,
    pub private_comment: Option<String>,
    pub public_comment: Option<String>,
    pub price: Option<ItemPrice>,
    pub collection: Option<Collection>,
    pub pictures: Option<Vec<Picture>>,
    pub storage_location: Option<String>,
    pub acquisition_place: Option<String>,
    pub acquisition_date: Option<Date>,
    pub serial_number: Option<String>,
    pub internal_id: Option<String>,
    pub weight: Option<Decimal>,
    pub size: Option<Decimal>,
    pub axis: Option<i64>,
    pub grading_details: Option<GradingDetails>,
}

/// The collected items of a user, with the collection's counts.
#[derive(Debug, Clone, PartialEq)]
pub struct CollectedItemsResponse {
    pub item_count: i64,
    pub item_for_swap_count: i64,
    pub item_type_count: i64,
    pub item_type_for_swap_count: i64,
    pub items: Vec<CollectedItem>,
}

/// An OAuth token obtained from the token endpoint.
#[derive(Debug, Clone, PartialEq)]
pub struct OAuthToken {
    pub access_token: String,
    pub token_type: String,
    pub expires_in: i64,
    pub user_id: i64,
}

/// The MIME type of an image handed to the image search.
#[derive(Debug, Clone, Copy, PartialEq, Eq, Structural)]
pub enum MimeType {
    Jpeg,
    Png,
}

/// An image handed to the image search, with its data Base64-encoded.
#[derive(Debug, Clone, PartialEq)]
pub struct Image {
    pub mime_type: MimeType,
    pub image_data: String,
}

/// The body of an image search request.
#[derive(Debug, Clone, PartialEq)]
pub struct SearchByImageRequest {
    pub category: Option<Category>,
    pub images: Vec<Image>,
    pub max_results: Option<i64>,
}

/// One type in the results of an image search.
#[derive(Debug, Clone, PartialEq)]
pub struct SearchByImageTypeResult {
    pub id: i64,
    pub title: String,
    pub category: Category,
    pub issuer: Issuer,
    pub min_year: Option<i32>,
    pub max_year: Option<i32>,
    pub obverse_thumbnail: Option<String>,
    pub reverse_thumbnail: Option<String>,
    pub similarity_distance: Decimal,
}

/// The results of an image search.
#[derive(Debug, Clone, PartialEq)]
pub struct SearchByImageResponse {
    pub count: i64,
    pub types: Vec<SearchByImageTypeResult>,
    pub experimental_tentative_year: Option<i64>,
    pub experimental_tentative_grade: Option<Grade>,
}

/// The error envelope that the service returns on a failed request.
#[derive(Debug, Clone, PartialEq)]
pub struct ApiError {
    pub error_message: String,
}

} // verus!
