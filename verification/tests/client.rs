use abstractapi::error::AbstractApiError;
use abstractapi::request::PendingRequest;
use abstractapi::{AbstractApi, ApiType};

fn pairs(req: &PendingRequest) -> Vec<(&str, &str)> {
    req.params.iter().map(|p| (p.0.as_str(), p.1.as_str())).collect()
}

#[test]
fn subdomain_labels() {
    assert_eq!("ipgeolocation", ApiType::Geolocation.subdomain());
    assert_eq!("holidays", ApiType::Holidays.subdomain());
    assert_eq!("exchange-rates", ApiType::ExchangeRates.subdomain());
    assert_eq!("companyenrichment", ApiType::CompanyEnrichment.subdomain());
    assert_eq!("timezone", ApiType::Timezone.subdomain());
    assert_eq!("emailvalidation", ApiType::EmailValidation.subdomain());
    assert_eq!("phonevalidation", ApiType::PhoneValidation.subdomain());
    assert_eq!("vat", ApiType::Vat.subdomain());
}

#[test]
fn set_key_twice_is_rejected_and_keeps_first_key() {
    let mut api = AbstractApi::default();
    api.set_api_key(ApiType::Geolocation, "first-key".to_string())
        .unwrap();
    let second = api.set_api_key(ApiType::Geolocation, "second-key".to_string());
    assert!(matches!(second, Err(AbstractApiError::ApiKeySetError)));
    let stored = api.get_api_key(ApiType::Geolocation).unwrap();
    assert_eq!("first-key", stored);
}

#[test]
fn keys_for_distinct_identifiers_do_not_interfere() {
    let mut api = AbstractApi::default();
    api.set_api_key(ApiType::Geolocation, "geo".to_string()).unwrap();
    api.set_api_key(ApiType::Vat, "vat".to_string()).unwrap();
    assert_eq!("geo", api.get_api_key(ApiType::Geolocation).unwrap());
    assert_eq!("vat", api.get_api_key(ApiType::Vat).unwrap());
    assert!(matches!(
        api.get_api_key(ApiType::Holidays),
        Err(AbstractApiError::ApiKeyNotPresent(ApiType::Holidays))
    ));
}

#[test]
fn set_api_keys_rejects_a_repeated_identifier() {
    let mut api = AbstractApi::default();
    let outcome = api.set_api_keys(vec![
        (ApiType::Holidays, "a".to_string()),
        (ApiType::Timezone, "b".to_string()),
        (ApiType::Holidays, "c".to_string()),
    ]);
    assert!(matches!(outcome, Err(AbstractApiError::ApiKeySetError)));
    // The keys set before the repeated identifier are kept.
    assert_eq!("a", api.get_api_key(ApiType::Holidays).unwrap());
    assert_eq!("b", api.get_api_key(ApiType::Timezone).unwrap());
}

#[test]
fn new_with_api_keys_sets_every_key() {
    let api = AbstractApi::new_with_api_keys(vec![
        (ApiType::EmailValidation, "e".to_string()),
        (ApiType::PhoneValidation, "p".to_string()),
    ])
    .unwrap();
    assert_eq!("e", api.get_api_key(ApiType::EmailValidation).unwrap());
    assert_eq!("p", api.get_api_key(ApiType::PhoneValidation).unwrap());
}

#[test]
fn endpoint_calls_without_a_key_report_the_identifier() {
    let api = AbstractApi::default();
    assert!(matches!(
        api.get_geolocation_request("1.2.3.4"),
        Err(AbstractApiError::ApiKeyNotPresent(ApiType::Geolocation))
    ));
    assert!(matches!(
        api.get_holidays_request("TR", "2021", "10", "29"),
        Err(AbstractApiError::ApiKeyNotPresent(ApiType::Holidays))
    ));
    assert!(matches!(
        api.get_latest_exchange_rates_request("BTC", Some("USD")),
        Err(AbstractApiError::ApiKeyNotPresent(ApiType::ExchangeRates))
    ));
    assert!(matches!(
        api.get_historical_exchange_rates_request("BTC", Some("USD"), "2021-01-31"),
        Err(AbstractApiError::ApiKeyNotPresent(ApiType::ExchangeRates))
    ));
    assert!(matches!(
        api.convert_currency_request("USD", "TRY", None, None),
        Err(AbstractApiError::ApiKeyNotPresent(ApiType::ExchangeRates))
    ));
    assert!(matches!(
        api.get_company_details_request(Some("google.com"), None),
        Err(AbstractApiError::ApiKeyNotPresent(ApiType::CompanyEnrichment))
    ));
    assert!(matches!(
        api.get_current_time_request("Ankara"),
        Err(AbstractApiError::ApiKeyNotPresent(ApiType::Timezone))
    ));
    assert!(matches!(
        api.convert_time_request("Ankara", "2020-05-01 07:00:00", "Oxford"),
        Err(AbstractApiError::ApiKeyNotPresent(ApiType::Timezone))
    ));
    assert!(matches!(
        api.validate_email_request("test@gmial.com", true),
        Err(AbstractApiError::ApiKeyNotPresent(ApiType::EmailValidation))
    ));
    assert!(matches!(
        api.validate_phone_request("14152007986"),
        Err(AbstractApiError::ApiKeyNotPresent(ApiType::PhoneValidation))
    ));
    assert!(matches!(
        api.validate_vat_request("SE556656688001"),
        Err(AbstractApiError::ApiKeyNotPresent(ApiType::Vat))
    ));
    assert!(matches!(
        api.calculate_vat_request("200", "DE", false, None),
        Err(AbstractApiError::ApiKeyNotPresent(ApiType::Vat))
    ));
    assert!(matches!(
        api.get_vat_rates_request("DE"),
        Err(AbstractApiError::ApiKeyNotPresent(ApiType::Vat))
    ));
}

#[test]
fn geolocation_request_url_and_params() {
    let api = AbstractApi::new_with_api_key(ApiType::Geolocation, "KEY".to_string()).unwrap();
    let req = api.get_geolocation_request("172.217.19.142").unwrap();
    assert_eq!("https://ipgeolocation.abstractapi.com/v1/", req.url);
    assert_eq!(
        vec![("api_key", "KEY"), ("ip_address", "172.217.19.142")],
        pairs(&req)
    );
}

#[test]
fn holidays_request_url_and_params() {
    let api = AbstractApi::new_with_api_key(ApiType::Holidays, "KEY".to_string()).unwrap();
    let req = api.get_holidays_request("TR", "2021", "10", "29").unwrap();
    assert_eq!("https://holidays.abstractapi.com/v1/", req.url);
    assert_eq!(
        vec![
            ("api_key", "KEY"),
            ("country", "TR"),
            ("year", "2021"),
            ("month", "10"),
            ("day", "29"),
        ],
        pairs(&req)
    );
}

#[test]
fn latest_exchange_rates_request_with_and_without_target() {
    let api = AbstractApi::new_with_api_key(ApiType::ExchangeRates, "KEY".to_string()).unwrap();

    let without = api.get_latest_exchange_rates_request("BTC", None).unwrap();
    assert_eq!("https://exchange-rates.abstractapi.com/v1/live/", without.url);
    assert_eq!(vec![("api_key", "KEY"), ("base", "BTC")], pairs(&without));
    assert_eq!(0, without.params.iter().filter(|p| p.0 == "target").count());

    let with = api
        .get_latest_exchange_rates_request("BTC", Some("USD"))
        .unwrap();
    assert_eq!(
        vec![("api_key", "KEY"), ("base", "BTC"), ("target", "USD")],
        pairs(&with)
    );
    assert_eq!(1, with.params.iter().filter(|p| p.0 == "target").count());
    assert_eq!(
        Some(("target", "USD")),
        with.params
            .iter()
            .find(|p| p.0 == "target")
            .map(|p| (p.0.as_str(), p.1.as_str()))
    );
}

#[test]
fn historical_exchange_rates_request_url_and_params() {
    let api = AbstractApi::new_with_api_key(ApiType::ExchangeRates, "KEY".to_string()).unwrap();
    let req = api
        .get_historical_exchange_rates_request("BTC", Some("USD"), "2021-01-31")
        .unwrap();
    assert_eq!(
        "https://exchange-rates.abstractapi.com/v1/historical/",
        req.url
    );
    assert_eq!(
        vec![
            ("api_key", "KEY"),
            ("base", "BTC"),
            ("date", "2021-01-31"),
            ("target", "USD"),
        ],
        pairs(&req)
    );
}

#[test]
fn convert_currency_request_renders_base_amount_in_decimal() {
    let api = AbstractApi::new_with_api_key(ApiType::ExchangeRates, "KEY".to_string()).unwrap();
    let req = api
        .convert_currency_request("USD", "TRY", Some("2021-01-31"), Some(10))
        .unwrap();
    assert_eq!("https://exchange-rates.abstractapi.com/v1/convert/", req.url);
    assert_eq!(
        vec![
            ("api_key", "KEY"),
            ("base", "USD"),
            ("target", "TRY"),
            ("date", "2021-01-31"),
            ("base_amount", "10"),
        ],
        pairs(&req)
    );

    let bare = api.convert_currency_request("USD", "TRY", None, None).unwrap();
    assert_eq!(
        vec![("api_key", "KEY"), ("base", "USD"), ("target", "TRY")],
        pairs(&bare)
    );
}

#[test]
fn company_details_request_attaches_only_supplied_params() {
    let api =
        AbstractApi::new_with_api_key(ApiType::CompanyEnrichment, "KEY".to_string()).unwrap();
    let req = api
        .get_company_details_request(Some("google.com"), None)
        .unwrap();
    assert_eq!("https://companyenrichment.abstractapi.com/v1/", req.url);
    assert_eq!(
        vec![("api_key", "KEY"), ("domain", "google.com")],
        pairs(&req)
    );

    let both = api
        .get_company_details_request(Some("google.com"), Some("a@google.com"))
        .unwrap();
    assert_eq!(
        vec![
            ("api_key", "KEY"),
            ("domain", "google.com"),
            ("email", "a@google.com"),
        ],
        pairs(&both)
    );
}

#[test]
fn timezone_requests_url_and_params() {
    let api = AbstractApi::new_with_api_key(ApiType::Timezone, "KEY".to_string()).unwrap();
    let current = api.get_current_time_request("Ankara").unwrap();
    assert_eq!(
        "https://timezone.abstractapi.com/v1/current_time/",
        current.url
    );
    assert_eq!(vec![("api_key", "KEY"), ("location", "Ankara")], pairs(&current));

    let converted = api
        .convert_time_request("Los Angeles,CA", "2020-05-01 07:00:00", "Oxford,United Kingdom")
        .unwrap();
    assert_eq!(
        "https://timezone.abstractapi.com/v1/convert_time/",
        converted.url
    );
    assert_eq!(
        vec![
            ("api_key", "KEY"),
            ("base_location", "Los Angeles,CA"),
            ("base_datetime", "2020-05-01 07:00:00"),
            ("target_location", "Oxford,United Kingdom"),
        ],
        pairs(&converted)
    );
}

#[test]
fn email_validation_request_renders_auto_correct() {
    let api =
        AbstractApi::new_with_api_key(ApiType::EmailValidation, "KEY".to_string()).unwrap();
    let req = api.validate_email_request("test@gmial.com", true).unwrap();
    assert_eq!("https://emailvalidation.abstractapi.com/v1/", req.url);
    assert_eq!(
        vec![
            ("api_key", "KEY"),
            ("email", "test@gmial.com"),
            ("auto_correct", "true"),
        ],
        pairs(&req)
    );

    let off = api.validate_email_request("test@gmial.com", false).unwrap();
    assert_eq!(("auto_correct", "false"), {
        let p = &off.params[2];
        (p.0.as_str(), p.1.as_str())
    });
}

#[test]
fn phone_validation_request_url_and_params() {
    let api =
        AbstractApi::new_with_api_key(ApiType::PhoneValidation, "KEY".to_string()).unwrap();
    let req = api.validate_phone_request("14152007986").unwrap();
    assert_eq!("https://phonevalidation.abstractapi.com/v1/", req.url);
    assert_eq!(vec![("api_key", "KEY"), ("phone", "14152007986")], pairs(&req));
}

#[test]
fn vat_requests_url_and_params() {
    let api = AbstractApi::new_with_api_key(ApiType::Vat, "KEY".to_string()).unwrap();

    let validate = api.validate_vat_request("SE556656688001").unwrap();
    assert_eq!("https://vat.abstractapi.com/v1/validate/", validate.url);
    assert_eq!(
        vec![("api_key", "KEY"), ("vat_number", "SE556656688001")],
        pairs(&validate)
    );

    let calculate = api.calculate_vat_request("200", "DE", false, None).unwrap();
    assert_eq!("https://vat.abstractapi.com/v1/calculate/", calculate.url);
    assert_eq!(
        vec![
            ("api_key", "KEY"),
            ("amount", "200"),
            ("country_code", "DE"),
            ("is_vat_incl", "false"),
        ],
        pairs(&calculate)
    );

    let with_category = api
        .calculate_vat_request("200", "DE", true, Some("books"))
        .unwrap();
    assert_eq!(
        vec![
            ("api_key", "KEY"),
            ("amount", "200"),
            ("country_code", "DE"),
            ("is_vat_incl", "true"),
            ("vat_category", "books"),
        ],
        pairs(&with_category)
    );

    let rates = api.get_vat_rates_request("DE").unwrap();
    assert_eq!("https://vat.abstractapi.com/v1/categories/", rates.url);
    assert_eq!(
        vec![("api_key", "KEY"), ("country_code", "DE")],
        pairs(&rates)
    );
}

#[test]
fn pending_request_query_appends_in_order() {
    let api = AbstractApi::new_with_api_key(ApiType::Vat, "KEY".to_string()).unwrap();
    let req = api
        .get_api_request(ApiType::Vat, "v1/validate")
        .unwrap()
        .query("one", "1")
        .query("two", "2");
    assert_eq!(
        vec![("api_key", "KEY"), ("one", "1"), ("two", "2")],
        pairs(&req)
    );
}
