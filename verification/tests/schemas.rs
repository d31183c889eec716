use abstractapi::api::geolocation::{Connection, Currency, Security, Timezone};
use abstractapi::api::holidays::Holiday;
use abstractapi::api::vat::{Company, Country, Vat, VatDetails, VatRate};

#[test]
fn holiday_record_carries_the_wire_fields() {
    let holiday = Holiday {
        name: "Republic Day".to_string(),
        name_local: "Cumhuriyet Bayrami".to_string(),
        language: "tr".to_string(),
        description: String::new(),
        country: "TR".to_string(),
        location: "Turkey".to_string(),
        type_field: "National".to_string(),
        date: "10/29/2021".to_string(),
        date_year: "2021".to_string(),
        date_month: "10".to_string(),
        date_day: "29".to_string(),
        week_day: "Friday".to_string(),
    };
    assert_eq!("Republic Day", holiday.name);
    assert_eq!("2021", holiday.date_year);
    let copy = holiday.clone();
    assert_eq!(holiday, copy);
}

#[test]
fn vat_record_keeps_country_and_category() {
    let vat = Vat {
        amount_excluding_vat: "200.00".to_string(),
        amount_including_vat: "238.00".to_string(),
        vat_amount: "38.00".to_string(),
        vat_category: "standard".to_string(),
        vat_rate: "0.19".to_string(),
        country: Country { code: "DE".to_string(), name: "Germany".to_string() },
    };
    assert_eq!("standard", vat.vat_category);
    assert_eq!("DE", vat.country.code);

    let details = VatDetails {
        vat_number: "SE556656688001".to_string(),
        valid: true,
        company: Company {
            name: "GOOGLE SWEDEN AB".to_string(),
            address: String::new(),
        },
        country: Country { code: "SE".to_string(), name: "Sweden".to_string() },
    };
    assert!(details.valid);
    assert_eq!("GOOGLE SWEDEN AB", details.company.name);

    let rate = VatRate {
        country_code: "DE".to_string(),
        rate: "0.07".to_string(),
        category: "books".to_string(),
        description: String::new(),
    };
    assert_eq!("books", rate.category);
}

#[test]
fn geolocation_sub_records_keep_connection_details() {
    let connection = Connection {
        autonomous_system_number: 15169,
        autonomous_system_organization: "GOOGLE".to_string(),
        connection_type: "Corporate".to_string(),
        isp_name: "Google LLC".to_string(),
        organization_name: Some("Google LLC".to_string()),
    };
    assert_eq!("Google LLC", connection.isp_name);
    assert_eq!(Some("Google LLC"), connection.organization_name.as_deref());

    let timezone = Timezone {
        name: "America/Los_Angeles".to_string(),
        abbreviation: "PDT".to_string(),
        gmt_offset: -7,
        current_time: "2020-05-01 07:00:00".to_string(),
        is_dst: true,
    };
    assert_eq!(-7, timezone.gmt_offset);

    let security = Security { is_vpn: false };
    assert!(!security.is_vpn);

    let currency = Currency {
        currency_name: "US Dollar".to_string(),
        currency_code: "USD".to_string(),
    };
    assert_eq!("USD", currency.currency_code);
}
