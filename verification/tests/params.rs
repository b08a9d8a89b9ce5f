use planchet::models::Category;
use planchet::models::Date;
use planchet::models::Decimal;
use planchet::models::GrantType;
use planchet::AddCollectedItemParams;
use planchet::EditCollectedItemParams;
use planchet::GetCollectedItemsParams;
use planchet::GradingDetailsParams;
use planchet::ItemPriceParams;
use planchet::OAuthTokenParams;
use planchet::SearchTypesParams;

#[test]
fn search_types_params_year_date_test() {
    let params = SearchTypesParams::new().year(2000);
    assert_eq!(params.year.unwrap(), "2000");

    let params = SearchTypesParams::new().year_range(1990, 2005);
    assert_eq!(params.year.unwrap(), "1990-2005");

    let params = SearchTypesParams::new().date(1999);
    assert_eq!(params.date.unwrap(), "1999");

    let params = SearchTypesParams::new().date_range(1980, 1985);
    assert_eq!(params.date.unwrap(), "1980-1985");
}

#[test]
fn search_types_params_build_order_test() {
    let params = SearchTypesParams::new()
        .q("victoria".to_string())
        .category(Category::Coin)
        .page(2)
        .count(25);
    let built = params.build();
    let expected: Vec<(String, String)> = vec![
        ("category".to_string(), "coin".to_string()),
        ("q".to_string(), "victoria".to_string()),
        ("page".to_string(), "2".to_string()),
        ("count".to_string(), "25".to_string()),
    ];
    assert_eq!(built, expected);
}

#[test]
fn search_types_params_build_full_test() {
    let params = SearchTypesParams::new()
        .category(Category::Banknote)
        .q("dollar".to_string())
        .issuer("canada".to_string())
        .catalogue(3)
        .number("657".to_string())
        .ruler(4720)
        .material(12)
        .year_range(1900, 1950)
        .date(1920)
        .size("24.3".to_string())
        .weight("5.67".to_string())
        .page(1)
        .count(50);
    let built = params.build();
    let expected: Vec<(String, String)> = vec![
        ("category".to_string(), "banknote".to_string()),
        ("q".to_string(), "dollar".to_string()),
        ("issuer".to_string(), "canada".to_string()),
        ("catalogue".to_string(), "3".to_string()),
        ("number".to_string(), "657".to_string()),
        ("ruler".to_string(), "4720".to_string()),
        ("material".to_string(), "12".to_string()),
        ("year".to_string(), "1900-1950".to_string()),
        ("date".to_string(), "1920".to_string()),
        ("size".to_string(), "24.3".to_string()),
        ("weight".to_string(), "5.67".to_string()),
        ("page".to_string(), "1".to_string()),
        ("count".to_string(), "50".to_string()),
    ];
    assert_eq!(built, expected);
}

#[test]
fn search_types_params_empty_build_test() {
    let params = SearchTypesParams::new();
    assert!(params.build().is_empty());
}

#[test]
fn search_types_params_clone_test() {
    let params = SearchTypesParams::new().q("galleon".to_string()).page(3);
    let copy = params.clone();
    assert_eq!(params, copy);
}

#[test]
fn get_collected_items_params_build_test() {
    let params = GetCollectedItemsParams::new()
        .category(Category::Exonumia)
        .type_id(420)
        .collection(7);
    let built = params.build();
    let expected: Vec<(String, String)> = vec![
        ("category".to_string(), "exonumia".to_string()),
        ("type".to_string(), "420".to_string()),
        ("collection".to_string(), "7".to_string()),
    ];
    assert_eq!(built, expected);

    let empty = GetCollectedItemsParams::new();
    assert!(empty.build().is_empty());
}

#[test]
fn oauth_token_params_build_test() {
    let params = OAuthTokenParams::new(GrantType::ClientCredentials)
        .scope("view_collection".to_string());
    let built = params.build();
    let expected: Vec<(String, String)> = vec![
        ("grant_type".to_string(), "client_credentials".to_string()),
        ("scope".to_string(), "view_collection".to_string()),
    ];
    assert_eq!(built, expected);

    let params = OAuthTokenParams::new(GrantType::AuthorizationCode)
        .code("abc".to_string())
        .client_id("id".to_string())
        .client_secret("secret".to_string())
        .redirect_uri("https://example.com/cb".to_string());
    let built = params.build();
    let expected: Vec<(String, String)> = vec![
        ("grant_type".to_string(), "authorization_code".to_string()),
        ("code".to_string(), "abc".to_string()),
        ("client_id".to_string(), "id".to_string()),
        ("client_secret".to_string(), "secret".to_string()),
        ("redirect_uri".to_string(), "https://example.com/cb".to_string()),
    ];
    assert_eq!(built, expected);
}

#[test]
fn add_collected_item_params_new_test() {
    let params = AddCollectedItemParams::new(420);
    assert_eq!(params.type_id, 420);
    assert!(params.issue.is_none());
    assert!(params.quantity.is_none());
    assert!(params.grade.is_none());
    assert!(params.for_swap.is_none());
    assert!(params.private_comment.is_none());
    assert!(params.public_comment.is_none());
    assert!(params.price.is_none());
    assert!(params.collection.is_none());
    assert!(params.storage_location.is_none());
    assert!(params.acquisition_place.is_none());
    assert!(params.acquisition_date.is_none());
    assert!(params.serial_number.is_none());
    assert!(params.internal_id.is_none());
    assert!(params.weight.is_none());
    assert!(params.size.is_none());
    assert!(params.axis.is_none());
    assert!(params.grading_details.is_none());
}

#[test]
fn add_collected_item_params_setters_test() {
    let price = ItemPriceParams {
        value: Decimal::new(1999, 2),
        currency: "USD".to_string(),
    };
    let params = AddCollectedItemParams::new(420)
        .issue(9)
        .quantity(2)
        .for_swap(true)
        .private_comment("mine".to_string())
        .public_comment("shiny".to_string())
        .price(price.clone())
        .collection(3)
        .storage_location("box".to_string())
        .acquisition_place("fair".to_string())
        .acquisition_date(Date::new(2020, 6, 15))
        .serial_number("S1".to_string())
        .internal_id("I1".to_string())
        .weight(Decimal::new(567, 2))
        .size(Decimal::new(243, 1))
        .axis(6);
    assert_eq!(params.type_id, 420);
    assert_eq!(params.issue, Some(9));
    assert_eq!(params.quantity, Some(2));
    assert_eq!(params.for_swap, Some(true));
    assert_eq!(params.private_comment.as_deref(), Some("mine"));
    assert_eq!(params.public_comment.as_deref(), Some("shiny"));
    assert_eq!(params.price, Some(price));
    assert_eq!(params.collection, Some(3));
    assert_eq!(params.storage_location.as_deref(), Some("box"));
    assert_eq!(params.acquisition_place.as_deref(), Some("fair"));
    assert_eq!(params.acquisition_date, Some(Date::new(2020, 6, 15)));
    assert_eq!(params.serial_number.as_deref(), Some("S1"));
    assert_eq!(params.internal_id.as_deref(), Some("I1"));
    assert_eq!(params.weight, Some(Decimal::new(567, 2)));
    assert_eq!(params.size, Some(Decimal::new(243, 1)));
    assert_eq!(params.axis, Some(6));
}

#[test]
fn edit_collected_item_params_test() {
    let params = EditCollectedItemParams::new();
    assert!(params.type_id.is_none());
    assert!(params.grading_details.is_none());

    let details = GradingDetailsParams::new()
        .grading_company(1)
        .slab_grade(2)
        .slab_number("N42".to_string())
        .cac_sticker("gold".to_string())
        .grading_designations(vec![1, 2])
        .grading_strike(3)
        .grading_surface(4);
    assert_eq!(details.grading_company, Some(1));
    assert_eq!(details.slab_grade, Some(2));
    assert_eq!(details.slab_number.as_deref(), Some("N42"));
    assert_eq!(details.cac_sticker.as_deref(), Some("gold"));
    assert_eq!(details.grading_designations, Some(vec![1, 2]));
    assert_eq!(details.grading_strike, Some(3));
    assert_eq!(details.grading_surface, Some(4));

    let params = EditCollectedItemParams::new()
        .type_id(77)
        .quantity(1)
        .grading_details(details);
    assert_eq!(params.type_id, Some(77));
    assert_eq!(params.quantity, Some(1));
    assert!(params.grading_details.is_some());
}

#[test]
fn category_codes_test() {
    assert_eq!(Category::Coin.code(), "coin");
    assert_eq!(Category::Banknote.code(), "banknote");
    assert_eq!(Category::Exonumia.code(), "exonumia");
    assert_eq!(Category::Coin.name(), "Coin");
    assert_eq!(Category::Banknote.name(), "Banknote");
    assert_eq!(Category::Exonumia.name(), "Exonumia");
}

#[test]
fn decimal_and_date_test() {
    let d = Decimal::new(25, 2);
    assert_eq!(d.mantissa, 25);
    assert_eq!(d.scale, 2);

    let date = Date::new(2017, 1, 31);
    assert_eq!(date.year, 2017);
    assert_eq!(date.month, 1);
    assert_eq!(date.day, 31);
}
