//! Client-side core for the Abstract HTTP API suite: per-service API key
//! storage with write-once semantics, authenticated GET request construction,
//! and error classification with API-key redaction.
//!
//! The HTTP transport itself and JSON decoding are left to the caller; this
//! crate produces [`request::PendingRequest`] values that say exactly which
//! URL to fetch and which query parameters to attach.

pub mod api;
pub mod error;
pub mod request;
mod store;
pub mod transport;

use vstd::prelude::*;
use crate::error::AbstractApiError;
use crate::request::{
    bool_str, bool_to_string, build_url, count_param, dec_str, opt_param, opt_view, u64_to_string,
    url_spec, PendingRequest,
};
use crate::store::{key_map, key_map_get, key_map_insert, key_map_new};

verus! {

/// A supported API which is in free/paid plan.
#[derive(Clone, Copy, Debug, Eq, Hash, PartialEq, Structural)]
pub enum ApiType {
    /// Geolocation API.
    Geolocation,
    /// Holidays API.
    Holidays,
    /// Exchange rates API.
    ExchangeRates,
    /// Company details API.
    CompanyEnrichment,
    /// Timezone API.
    Timezone,
    /// Email validation API.
    EmailValidation,
    /// Phone validation API.
    PhoneValidation,
    /// VAT API.
    Vat,
}

impl ApiType {
    /// The subdomain label under which the service is reached.
    pub open spec fn subdomain_spec(self) -> Seq<char> {
        match self {
            ApiType::Geolocation => "ipgeolocation"@,
            ApiType::Holidays => "holidays"@,
            ApiType::ExchangeRates => "exchange-rates"@,
            ApiType::CompanyEnrichment => "companyenrichment"@,
            ApiType::Timezone => "timezone"@,
            ApiType::EmailValidation => "emailvalidation"@,
            ApiType::PhoneValidation => "phonevalidation"@,
            ApiType::Vat => "vat"@,
        }
    }

    /// Subdomain label used when building the base URL for this service.
    pub fn subdomain(&self) -> (r: &'static str)
        ensures
            r@ == self.subdomain_spec(),
    {
        match self {
            ApiType::Geolocation => "ipgeolocation",
            ApiType::Holidays => "holidays",
            ApiType::ExchangeRates => "exchange-rates",
            ApiType::CompanyEnrichment => "companyenrichment",
            ApiType::Timezone => "timezone",
            ApiType::EmailValidation => "emailvalidation",
            ApiType::PhoneValidation => "phonevalidation",
            ApiType::Vat => "vat",
        }
    }

    /// A small integer tag, distinct per variant, used as the key under which
    /// this service's API key is stored.
    pub open spec fn code_spec(self) -> u64 {
        match self {
            ApiType::Geolocation => 0,
            ApiType::Holidays => 1,
            ApiType::ExchangeRates => 2,
            ApiType::CompanyEnrichment => 3,
            ApiType::Timezone => 4,
            ApiType::EmailValidation => 5,
            ApiType::PhoneValidation => 6,
            ApiType::Vat => 7,
        }
    }

    /// Integer tag under which this service's key is stored.
    pub fn code(&self) -> (r: u64)
        ensures
            r == self.code_spec(),
    {
        match self {
            ApiType::Geolocation => 0,
            ApiType::Holidays => 1,
            ApiType::ExchangeRates => 2,
            ApiType::CompanyEnrichment => 3,
            ApiType::Timezone => 4,
            ApiType::EmailValidation => 5,
            ApiType::PhoneValidation => 6,
            ApiType::Vat => 7,
        }
    }
}

/// The view of a sequence of `(ApiType, String)` pairs: each stored key as a
/// sequence of characters.
pub open spec fn pairs_view(v: Seq<(ApiType, String)>) -> Seq<(ApiType, Seq<char>)> {
    v.map(|i: int, p: (ApiType, String)| (p.0, p.1@))
}

/// Inserts the listed keys in order into the key map, stopping at the first
/// identifier that already has a key. Returns the map reached and whether
/// every insertion succeeded.
pub open spec fn fill_keys(m: Map<u64, Seq<char>>, l: Seq<(ApiType, Seq<char>)>) -> (
    Map<u64, Seq<char>>,
    bool,
)
    decreases l.len(),
{
    if l.len() == 0 {
        (m, true)
    } else if m.contains_key(l[0].0.code_spec()) {
        (m, false)
    } else {
        fill_keys(m.insert(l[0].0.code_spec(), l[0].1), l.skip(1))
    }
}

/// The key map after one `set_api_key` call: unchanged when the identifier
/// already has a key, extended by the new key otherwise.
pub open spec fn keys_after_set(
    keys: Map<u64, Seq<char>>,
    api_type: ApiType,
    api_key: Seq<char>,
) -> Map<u64, Seq<char>> {
    if keys.contains_key(api_type.code_spec()) {
        keys
    } else {
        keys.insert(api_type.code_spec(), api_key)
    }
}

/// Whether a `set_api_key` call is rejected: exactly when the identifier
/// already has a key.
pub open spec fn set_key_rejected(keys: Map<u64, Seq<char>>, api_type: ApiType) -> bool {
    keys.contains_key(api_type.code_spec())
}

/// Law: keys are write-once. Starting from a store with no key for the
/// identifier, a first `set_api_key` stores its key; a second call for the
/// same identifier is rejected — by the contract of [`AbstractApi::set_api_key`]
/// it returns [`AbstractApiError::ApiKeySetError`] — and the store still
/// holds the key of the first call, unchanged.
pub proof fn lemma_set_key_write_once(
    keys: Map<u64, Seq<char>>,
    api_type: ApiType,
    first: Seq<char>,
    second: Seq<char>,
)
    requires
        !keys.contains_key(api_type.code_spec()),
    ensures
        ({
            let once = keys_after_set(keys, api_type, first);
            &&& set_key_rejected(once, api_type)
            &&& keys_after_set(once, api_type, second) == once
            &&& keys_after_set(once, api_type, second)[api_type.code_spec()] == first
        }),
{
}

/// Client for Abstract API: a write-once store of one secret key per service,
/// from which authenticated requests are built.
pub struct AbstractApi {
    api_keys: dashmap::DashMap<u64, String>,
}

impl Default for AbstractApi {
    /// Creates a client with no API keys set.
    fn default() -> (r: Self)
        ensures
            r.keys() == Map::<u64, Seq<char>>::empty(),
    {
        AbstractApi { api_keys: key_map_new() }
    }
}

impl AbstractApi {
    /// The keys the client holds, as a map from the service's integer tag to
    /// the characters of the stored secret.
    pub closed spec fn keys(&self) -> Map<u64, Seq<char>> {
        key_map(self.api_keys)
    }

    /// Whether a key is stored for the service.
    pub open spec fn has_key(&self, api_type: ApiType) -> bool {
        self.keys().contains_key(api_type.code_spec())
    }

    /// The characters of the key stored for the service.
    pub open spec fn key_of(&self, api_type: ApiType) -> Seq<char> {
        self.keys()[api_type.code_spec()]
    }

    /// Creates a new Abstract API client with the given API key set.
    pub fn new_with_api_key(api_type: ApiType, api_key: String) -> (r: Result<Self, AbstractApiError>)
        ensures
            r matches Ok(c) && c.keys() == Map::<u64, Seq<char>>::empty().insert(
                api_type.code_spec(),
                api_key@,
            ),
    {
        let mut client = Self::default();
        match client.set_api_key(api_type, api_key) {
            Ok(()) => Ok(client),
            Err(e) => Err(e),
        }
    }

    /// Creates a new Abstract API client with the given API keys set.
    ///
    /// Fails with [`AbstractApiError::ApiKeySetError`] exactly when the list names some
    /// identifier twice.
    pub fn new_with_api_keys(api_keys: Vec<(ApiType, String)>) -> (r: Result<Self, AbstractApiError>)
        ensures
            ({
                let filled = fill_keys(Map::<u64, Seq<char>>::empty(), pairs_view(api_keys@));
                &&& r is Ok <==> filled.1
                &&& r matches Ok(c) ==> c.keys() == filled.0
                &&& !filled.1 ==> r == Err::<Self, AbstractApiError>(AbstractApiError::ApiKeySetError)
            }),
    {
        let mut client = Self::default();
        match client.set_api_keys(api_keys) {
            Ok(()) => Ok(client),
            Err(e) => Err(e),
        }
    }

    /// Sets an API key for an API.
    ///
    /// A key may be set only once per identifier: if one is already stored,
    /// the store is left unchanged and [`AbstractApiError::ApiKeySetError`] is returned.
    pub fn set_api_key(&mut self, api_type: ApiType, api_key: String) -> (r: Result<(), AbstractApiError>)
        ensures
            final(self).keys() == keys_after_set(old(self).keys(), api_type, api_key@),
            r is Ok <==> !set_key_rejected(old(self).keys(), api_type),
            set_key_rejected(old(self).keys(), api_type) ==> r == Err::<(), AbstractApiError>(
                AbstractApiError::ApiKeySetError,
            ),
    {
        let code = api_type.code();
        match key_map_get(&self.api_keys, code) {
            Some(_) => Err(AbstractApiError::ApiKeySetError),
            None => {
                key_map_insert(&mut self.api_keys, code, api_key);
                Ok(())
            },
        }
    }

    /// Sets the API keys for specified APIs, in order, stopping at the first
    /// identifier that already has a key.
    pub fn set_api_keys(&mut self, api_keys: Vec<(ApiType, String)>) -> (r: Result<(), AbstractApiError>)
        ensures
            ({
                let filled = fill_keys(old(self).keys(), pairs_view(api_keys@));
                &&& final(self).keys() == filled.0
                &&& r is Ok <==> filled.1
                &&& !filled.1 ==> r == Err::<(), AbstractApiError>(AbstractApiError::ApiKeySetError)
            }),
    {
        let ghost all = pairs_view(api_keys@);
        let mut i: usize = 0;
        proof {
            assert(all.skip(0) =~= all);
        }
        while i < api_keys.len()
            invariant
                i <= api_keys.len(),
                all == pairs_view(api_keys@),
                fill_keys(old(self).keys(), all) == fill_keys(self.keys(), all.skip(i as int)),
            decreases api_keys.len() - i,
        {
            let api_type = api_keys[i].0;
            let api_key = api_keys[i].1.clone();
            proof {
                assert(all.skip(i as int)[0] == (api_type, api_key@));
                assert(all.skip(i as int).skip(1) =~= all.skip(i as int + 1));
            }
            match self.set_api_key(api_type, api_key) {
                Ok(()) => {},
                Err(e) => {
                    proof {
                        assert(fill_keys(self.keys(), all.skip(i as int)) == (
                            self.keys(),
                            false,
                        ));
                    }
                    return Err(e);
                },
            }
            i = i + 1;
        }
        proof {
            assert(all.skip(api_keys@.len() as int) =~= Seq::<(ApiType, Seq<char>)>::empty());
            assert(fill_keys(self.keys(), all.skip(api_keys@.len() as int)) == (
                self.keys(),
                true,
            ));
        }
        Ok(())
    }

    /// Constructs a pending HTTP request for an API: the base URL
    /// `https://{subdomain}.abstractapi.com/{path}/` with the stored key
    /// attached as the `api_key` query parameter.
    ///
    /// Fails with [`AbstractApiError::ApiKeyNotPresent`] exactly when no key is stored
    /// for the identifier.
    pub fn get_api_request(&self, api_type: ApiType, path: &str) -> (r: Result<
        PendingRequest,
        AbstractApiError,
    >)
        ensures
            r is Ok <==> self.has_key(api_type),
            r matches Ok(req) ==> req.url@ == url_spec(api_type, path@) && req.params_view()
                == seq![("api_key"@, self.key_of(api_type))],
            !self.has_key(api_type) ==> r == Err::<PendingRequest, AbstractApiError>(
                AbstractApiError::ApiKeyNotPresent(api_type),
            ),
    {
        let key = match self.get_api_key(api_type) {
            Ok(k) => k,
            Err(e) => {
                return Err(e);
            },
        };
        let req = PendingRequest::new(build_url(api_type, path)).query("api_key", key.as_str());
        proof {
            assert(req.params_view() =~= seq![("api_key"@, self.key_of(api_type))]);
        }
        Ok(req)
    }

    /// Read-only lookup of the key stored for an API.
    ///
    /// Fails with [`AbstractApiError::ApiKeyNotPresent`] if no key was ever set for the
    /// identifier.
    pub fn get_api_key(&self, api_type: ApiType) -> (r: Result<String, AbstractApiError>)
        ensures
            r is Ok <==> self.has_key(api_type),
            r matches Ok(k) ==> k@ == self.key_of(api_type),
            !self.has_key(api_type) ==> r == Err::<String, AbstractApiError>(
                AbstractApiError::ApiKeyNotPresent(api_type),
            ),
    {
        match key_map_get(&self.api_keys, api_type.code()) {
            Some(k) => Ok(k),
            None => Err(AbstractApiError::ApiKeyNotPresent(api_type)),
        }
    }
}

impl AbstractApi {
    /// Request for the IP geolocation endpoint.
    ///
    /// Upstream documentation: <https://app.abstractapi.com/api/ip-geolocation/documentation>
    pub fn get_geolocation_request(&self, ip_address: &str) -> (r: Result<PendingRequest, AbstractApiError>)
        ensures
            r is Ok <==> self.has_key(ApiType::Geolocation),
            r matches Ok(req) ==> req.url@ == url_spec(ApiType::Geolocation, "v1"@)
                && req.params_view() == seq![
                ("api_key"@, self.key_of(ApiType::Geolocation)),
                ("ip_address"@, ip_address@),
            ],
            !self.has_key(ApiType::Geolocation) ==> r == Err::<PendingRequest, AbstractApiError>(
                AbstractApiError::ApiKeyNotPresent(ApiType::Geolocation),
            ),
    {
        let req = match self.get_api_request(ApiType::Geolocation, "v1") {
            Ok(q) => q,
            Err(e) => {
                return Err(e);
            },
        };
        let req = req.query("ip_address", ip_address);
        proof {
            assert(req.params_view() =~= seq![
                ("api_key"@, self.key_of(ApiType::Geolocation)),
                ("ip_address"@, ip_address@),
            ]);
        }
        Ok(req)
    }

    /// Request for the holidays endpoint.
    ///
    /// Upstream documentation: <https://app.abstractapi.com/api/holidays/documentation>
    pub fn get_holidays_request(&self, country: &str, year: &str, month: &str, day: &str) -> (r:
        Result<PendingRequest, AbstractApiError>)
        ensures
            r is Ok <==> self.has_key(ApiType::Holidays),
            r matches Ok(req) ==> req.url@ == url_spec(ApiType::Holidays, "v1"@)
                && req.params_view() == seq![
                ("api_key"@, self.key_of(ApiType::Holidays)),
                ("country"@, country@),
                ("year"@, year@),
                ("month"@, month@),
                ("day"@, day@),
            ],
            !self.has_key(ApiType::Holidays) ==> r == Err::<PendingRequest, AbstractApiError>(
                AbstractApiError::ApiKeyNotPresent(ApiType::Holidays),
            ),
    {
        let req = match self.get_api_request(ApiType::Holidays, "v1") {
            Ok(q) => q,
            Err(e) => {
                return Err(e);
            },
        };
        let req = req.query("country", country).query("year", year).query("month", month).query(
            "day",
            day,
        );
        proof {
            assert(req.params_view() =~= seq![
                ("api_key"@, self.key_of(ApiType::Holidays)),
                ("country"@, country@),
                ("year"@, year@),
                ("month"@, month@),
                ("day"@, day@),
            ]);
        }
        Ok(req)
    }

    /// Request for the live exchange rates endpoint. The `target` parameter
    /// appears in the query exactly when a value is supplied.
    ///
    /// Upstream documentation: <https://app.abstractapi.com/api/exchange-rates/documentation>
    pub fn get_latest_exchange_rates_request(&self, base: &str, target: Option<&str>) -> (r:
        Result<PendingRequest, AbstractApiError>)
        ensures
            r is Ok <==> self.has_key(ApiType::ExchangeRates),
            r matches Ok(req) ==> req.url@ == url_spec(ApiType::ExchangeRates, "v1/live"@)
                && req.params_view() == seq![
                ("api_key"@, self.key_of(ApiType::ExchangeRates)),
                ("base"@, base@),
            ] + opt_param("target"@, opt_view(target)),
            !self.has_key(ApiType::ExchangeRates) ==> r == Err::<PendingRequest, AbstractApiError>(
                AbstractApiError::ApiKeyNotPresent(ApiType::ExchangeRates),
            ),
    {
        let req = match self.get_api_request(ApiType::ExchangeRates, "v1/live") {
            Ok(q) => q,
            Err(e) => {
                return Err(e);
            },
        };
        let mut req = req.query("base", base);
        let ghost fixed = seq![
            ("api_key"@, self.key_of(ApiType::ExchangeRates)),
            ("base"@, base@),
        ];
        if let Some(t) = target {
            req = req.query("target", t);
        }
        proof {
            assert(req.params_view() =~= fixed + opt_param("target"@, opt_view(target)));
        }
        Ok(req)
    }

    /// Law: among the query parameters of a live exchange-rates request — as
    /// [`AbstractApi::get_latest_exchange_rates_request`] ensures them — the
    /// name `target` appears exactly once when a target is supplied, as the
    /// last parameter with the supplied value, and not at all when none is.
    pub proof fn lemma_exchange_rates_target_occurrences(
        key: Seq<char>,
        base: Seq<char>,
        target: Option<Seq<char>>,
    )
        ensures
            ({
                let params = seq![("api_key"@, key), ("base"@, base)] + opt_param(
                    "target"@,
                    target,
                );
                &&& count_param(params, "target"@) == (match target {
                    Some(_) => 1int,
                    None => 0int,
                })
                &&& target matches Some(t) ==> params[params.len() - 1] == ("target"@, t)
            }),
    {
        reveal_strlit("api_key");
        reveal_strlit("base");
        reveal_strlit("target");
        assert("api_key"@.len() == 7 && "base"@.len() == 4 && "target"@.len() == 6);
        let params = seq![("api_key"@, key), ("base"@, base)] + opt_param("target"@, target);
        assert(count_param(Seq::<(Seq<char>, Seq<char>)>::empty(), "target"@) == 0);
        match target {
            None => {
                let tail = seq![("base"@, base)];
                assert(params =~= seq![("api_key"@, key), ("base"@, base)]);
                assert(params.skip(1) =~= tail);
                assert(tail.skip(1) =~= Seq::<(Seq<char>, Seq<char>)>::empty());
                assert(count_param(tail, "target"@) == 0);
                assert(count_param(params, "target"@) == 0);
            },
            Some(t) => {
                let tail1 = seq![("base"@, base), ("target"@, t)];
                let tail2 = seq![("target"@, t)];
                assert(params =~= seq![("api_key"@, key), ("base"@, base), ("target"@, t)]);
                assert(params.skip(1) =~= tail1);
                assert(tail1.skip(1) =~= tail2);
                assert(tail2.skip(1) =~= Seq::<(Seq<char>, Seq<char>)>::empty());
                assert(count_param(tail2, "target"@) == 1);
                assert(count_param(tail1, "target"@) == 1);
                assert(count_param(params, "target"@) == 1);
                assert(params[params.len() - 1] == ("target"@, t));
            },
        }
    }

    /// Request for the historical exchange rates endpoint. The `target`
    /// parameter appears in the query exactly when a value is supplied.
    ///
    /// Upstream documentation: <https://app.abstractapi.com/api/exchange-rates/documentation>
    pub fn get_historical_exchange_rates_request(
        &self,
        base: &str,
        target: Option<&str>,
        date: &str,
    ) -> (r: Result<PendingRequest, AbstractApiError>)
        ensures
            r is Ok <==> self.has_key(ApiType::ExchangeRates),
            r matches Ok(req) ==> req.url@ == url_spec(ApiType::ExchangeRates, "v1/historical"@)
                && req.params_view() == seq![
                ("api_key"@, self.key_of(ApiType::ExchangeRates)),
                ("base"@, base@),
                ("date"@, date@),
            ] + opt_param("target"@, opt_view(target)),
            !self.has_key(ApiType::ExchangeRates) ==> r == Err::<PendingRequest, AbstractApiError>(
                AbstractApiError::ApiKeyNotPresent(ApiType::ExchangeRates),
            ),
    {
        let req = match self.get_api_request(ApiType::ExchangeRates, "v1/historical") {
            Ok(q) => q,
            Err(e) => {
                return Err(e);
            },
        };
        let mut req = req.query("base", base).query("date", date);
        let ghost fixed = seq![
            ("api_key"@, self.key_of(ApiType::ExchangeRates)),
            ("base"@, base@),
            ("date"@, date@),
        ];
        if let Some(t) = target {
            req = req.query("target", t);
        }
        proof {
            assert(req.params_view() =~= fixed + opt_param("target"@, opt_view(target)));
        }
        Ok(req)
    }

    /// Request for the currency conversion endpoint. The `date` and
    /// `base_amount` parameters appear in the query exactly when a value is
    /// supplied; `base_amount` is rendered in decimal.
    ///
    /// Upstream documentation: <https://app.abstractapi.com/api/exchange-rates/documentation>
    pub fn convert_currency_request(
        &self,
        base: &str,
        target: &str,
        date: Option<&str>,
        base_amount: Option<u64>,
    ) -> (r: Result<PendingRequest, AbstractApiError>)
        ensures
            r is Ok <==> self.has_key(ApiType::ExchangeRates),
            r matches Ok(req) ==> req.url@ == url_spec(ApiType::ExchangeRates, "v1/convert"@)
                && req.params_view() == seq![
                ("api_key"@, self.key_of(ApiType::ExchangeRates)),
                ("base"@, base@),
                ("target"@, target@),
            ] + opt_param("date"@, opt_view(date)) + opt_param(
                "base_amount"@,
                match base_amount {
                    Some(n) => Some(dec_str(n as int)),
                    None => None,
                },
            ),
            !self.has_key(ApiType::ExchangeRates) ==> r == Err::<PendingRequest, AbstractApiError>(
                AbstractApiError::ApiKeyNotPresent(ApiType::ExchangeRates),
            ),
    {
        let req = match self.get_api_request(ApiType::ExchangeRates, "v1/convert") {
            Ok(q) => q,
            Err(e) => {
                return Err(e);
            },
        };
        let mut req = req.query("base", base).query("target", target);
        let ghost fixed = seq![
            ("api_key"@, self.key_of(ApiType::ExchangeRates)),
            ("base"@, base@),
            ("target"@, target@),
        ];
        if let Some(d) = date {
            req = req.query("date", d);
        }
        let ghost with_date = fixed + opt_param("date"@, opt_view(date));
        proof {
            assert(req.params_view() =~= with_date);
        }
        if let Some(n) = base_amount {
            let amount = u64_to_string(n);
            req = req.query("base_amount", amount.as_str());
        }
        proof {
            assert(req.params_view() =~= with_date + opt_param(
                "base_amount"@,
                match base_amount {
                    Some(n) => Some(dec_str(n as int)),
                    None => None,
                },
            ));
        }
        Ok(req)
    }

    /// Request for the company enrichment endpoint. The `domain` and `email`
    /// parameters appear in the query exactly when a value is supplied.
    ///
    /// Upstream documentation: <https://app.abstractapi.com/api/company-enrichment/documentation>
    pub fn get_company_details_request(&self, domain: Option<&str>, email: Option<&str>) -> (r:
        Result<PendingRequest, AbstractApiError>)
        ensures
            r is Ok <==> self.has_key(ApiType::CompanyEnrichment),
            r matches Ok(req) ==> req.url@ == url_spec(ApiType::CompanyEnrichment, "v1"@)
                && req.params_view() == seq![
                ("api_key"@, self.key_of(ApiType::CompanyEnrichment)),
            ] + opt_param("domain"@, opt_view(domain)) + opt_param("email"@, opt_view(email)),
            !self.has_key(ApiType::CompanyEnrichment) ==> r == Err::<PendingRequest, AbstractApiError>(
                AbstractApiError::ApiKeyNotPresent(ApiType::CompanyEnrichment),
            ),
    {
        let mut req = match self.get_api_request(ApiType::CompanyEnrichment, "v1") {
            Ok(q) => q,
            Err(e) => {
                return Err(e);
            },
        };
        let ghost fixed = seq![("api_key"@, self.key_of(ApiType::CompanyEnrichment))];
        if let Some(d) = domain {
            req = req.query("domain", d);
        }
        let ghost with_domain = fixed + opt_param("domain"@, opt_view(domain));
        proof {
            assert(req.params_view() =~= with_domain);
        }
        if let Some(m) = email {
            req = req.query("email", m);
        }
        proof {
            assert(req.params_view() =~= with_domain + opt_param("email"@, opt_view(email)));
        }
        Ok(req)
    }

    /// Request for the current time endpoint.
    ///
    /// Upstream documentation: <https://app.abstractapi.com/api/timezone/documentation>
    pub fn get_current_time_request(&self, location: &str) -> (r: Result<PendingRequest, AbstractApiError>)
        ensures
            r is Ok <==> self.has_key(ApiType::Timezone),
            r matches Ok(req) ==> req.url@ == url_spec(ApiType::Timezone, "v1/current_time"@)
                && req.params_view() == seq![
                ("api_key"@, self.key_of(ApiType::Timezone)),
                ("location"@, location@),
            ],
            !self.has_key(ApiType::Timezone) ==> r == Err::<PendingRequest, AbstractApiError>(
                AbstractApiError::ApiKeyNotPresent(ApiType::Timezone),
            ),
    {
        let req = match self.get_api_request(ApiType::Timezone, "v1/current_time") {
            Ok(q) => q,
            Err(e) => {
                return Err(e);
            },
        };
        let req = req.query("location", location);
        proof {
            assert(req.params_view() =~= seq![
                ("api_key"@, self.key_of(ApiType::Timezone)),
                ("location"@, location@),
            ]);
        }
        Ok(req)
    }

    /// Request for the time conversion endpoint.
    ///
    /// Upstream documentation: <https://app.abstractapi.com/api/timezone/documentation>
    pub fn convert_time_request(
        &self,
        base_location: &str,
        base_datetime: &str,
        target_location: &str,
    ) -> (r: Result<PendingRequest, AbstractApiError>)
        ensures
            r is Ok <==> self.has_key(ApiType::Timezone),
            r matches Ok(req) ==> req.url@ == url_spec(ApiType::Timezone, "v1/convert_time"@)
                && req.params_view() == seq![
                ("api_key"@, self.key_of(ApiType::Timezone)),
                ("base_location"@, base_location@),
                ("base_datetime"@, base_datetime@),
                ("target_location"@, target_location@),
            ],
            !self.has_key(ApiType::Timezone) ==> r == Err::<PendingRequest, AbstractApiError>(
                AbstractApiError::ApiKeyNotPresent(ApiType::Timezone),
            ),
    {
        let req = match self.get_api_request(ApiType::Timezone, "v1/convert_time") {
            Ok(q) => q,
            Err(e) => {
                return Err(e);
            },
        };
        let req = req.query("base_location", base_location).query(
            "base_datetime",
            base_datetime,
        ).query("target_location", target_location);
        proof {
            assert(req.params_view() =~= seq![
                ("api_key"@, self.key_of(ApiType::Timezone)),
                ("base_location"@, base_location@),
                ("base_datetime"@, base_datetime@),
                ("target_location"@, target_location@),
            ]);
        }
        Ok(req)
    }

    /// Request for the email validation endpoint. The `auto_correct` flag is
    /// rendered as `true` or `false`.
    ///
    /// Upstream documentation: <https://app.abstractapi.com/api/email-validation/documentation>
    pub fn validate_email_request(&self, email: &str, auto_correct: bool) -> (r: Result<
        PendingRequest,
        AbstractApiError,
    >)
        ensures
            r is Ok <==> self.has_key(ApiType::EmailValidation),
            r matches Ok(req) ==> req.url@ == url_spec(ApiType::EmailValidation, "v1"@)
                && req.params_view() == seq![
                ("api_key"@, self.key_of(ApiType::EmailValidation)),
                ("email"@, email@),
                ("auto_correct"@, bool_str(auto_correct)),
            ],
            !self.has_key(ApiType::EmailValidation) ==> r == Err::<PendingRequest, AbstractApiError>(
                AbstractApiError::ApiKeyNotPresent(ApiType::EmailValidation),
            ),
    {
        let req = match self.get_api_request(ApiType::EmailValidation, "v1") {
            Ok(q) => q,
            Err(e) => {
                return Err(e);
            },
        };
        let flag = bool_to_string(auto_correct);
        let req = req.query("email", email).query("auto_correct", flag.as_str());
        proof {
            assert(req.params_view() =~= seq![
                ("api_key"@, self.key_of(ApiType::EmailValidation)),
                ("email"@, email@),
                ("auto_correct"@, bool_str(auto_correct)),
            ]);
        }
        Ok(req)
    }

    /// Request for the phone validation endpoint.
    ///
    /// Upstream documentation: <https://app.abstractapi.com/api/phone-validation/documentation>
    pub fn validate_phone_request(&self, phone: &str) -> (r: Result<PendingRequest, AbstractApiError>)
        ensures
            r is Ok <==> self.has_key(ApiType::PhoneValidation),
            r matches Ok(req) ==> req.url@ == url_spec(ApiType::PhoneValidation, "v1"@)
                && req.params_view() == seq![
                ("api_key"@, self.key_of(ApiType::PhoneValidation)),
                ("phone"@, phone@),
            ],
            !self.has_key(ApiType::PhoneValidation) ==> r == Err::<PendingRequest, AbstractApiError>(
                AbstractApiError::ApiKeyNotPresent(ApiType::PhoneValidation),
            ),
    {
        let req = match self.get_api_request(ApiType::PhoneValidation, "v1") {
            Ok(q) => q,
            Err(e) => {
                return Err(e);
            },
        };
        let req = req.query("phone", phone);
        proof {
            assert(req.params_view() =~= seq![
                ("api_key"@, self.key_of(ApiType::PhoneValidation)),
                ("phone"@, phone@),
            ]);
        }
        Ok(req)
    }

    /// Request for the VAT number validation endpoint.
    ///
    /// Upstream documentation: <https://app.abstractapi.com/api/vat/documentation>
    pub fn validate_vat_request(&self, vat_number: &str) -> (r: Result<PendingRequest, AbstractApiError>)
        ensures
            r is Ok <==> self.has_key(ApiType::Vat),
            r matches Ok(req) ==> req.url@ == url_spec(ApiType::Vat, "v1/validate"@)
                && req.params_view() == seq![
                ("api_key"@, self.key_of(ApiType::Vat)),
                ("vat_number"@, vat_number@),
            ],
            !self.has_key(ApiType::Vat) ==> r == Err::<PendingRequest, AbstractApiError>(
                AbstractApiError::ApiKeyNotPresent(ApiType::Vat),
            ),
    {
        let req = match self.get_api_request(ApiType::Vat, "v1/validate") {
            Ok(q) => q,
            Err(e) => {
                return Err(e);
            },
        };
        let req = req.query("vat_number", vat_number);
        proof {
            assert(req.params_view() =~= seq![
                ("api_key"@, self.key_of(ApiType::Vat)),
                ("vat_number"@, vat_number@),
            ]);
        }
        Ok(req)
    }

    /// Request for the VAT calculation endpoint. The amount is passed as the
    /// caller rendered it; the `vat_category` parameter appears in the query
    /// exactly when a value is supplied.
    ///
    /// Upstream documentation: <https://app.abstractapi.com/api/vat/documentation>
    pub fn calculate_vat_request(
        &self,
        amount: &str,
        country_code: &str,
        is_vat_incl: bool,
        vat_category: Option<&str>,
    ) -> (r: Result<PendingRequest, AbstractApiError>)
        ensures
            r is Ok <==> self.has_key(ApiType::Vat),
            r matches Ok(req) ==> req.url@ == url_spec(ApiType::Vat, "v1/calculate"@)
                && req.params_view() == seq![
                ("api_key"@, self.key_of(ApiType::Vat)),
                ("amount"@, amount@),
                ("country_code"@, country_code@),
                ("is_vat_incl"@, bool_str(is_vat_incl)),
            ] + opt_param("vat_category"@, opt_view(vat_category)),
            !self.has_key(ApiType::Vat) ==> r == Err::<PendingRequest, AbstractApiError>(
                AbstractApiError::ApiKeyNotPresent(ApiType::Vat),
            ),
    {
        let req = match self.get_api_request(ApiType::Vat, "v1/calculate") {
            Ok(q) => q,
            Err(e) => {
                return Err(e);
            },
        };
        let flag = bool_to_string(is_vat_incl);
        let mut req = req.query("amount", amount).query("country_code", country_code).query(
            "is_vat_incl",
            flag.as_str(),
        );
        let ghost fixed = seq![
            ("api_key"@, self.key_of(ApiType::Vat)),
            ("amount"@, amount@),
            ("country_code"@, country_code@),
            ("is_vat_incl"@, bool_str(is_vat_incl)),
        ];
        if let Some(c) = vat_category {
            req = req.query("vat_category", c);
        }
        proof {
            assert(req.params_view() =~= fixed + opt_param("vat_category"@, opt_view(vat_category)));
        }
        Ok(req)
    }

    /// Request for the VAT category rates endpoint.
    ///
    /// Upstream documentation: <https://app.abstractapi.com/api/vat/documentation>
    pub fn get_vat_rates_request(&self, country_code: &str) -> (r: Result<PendingRequest, AbstractApiError>)
        ensures
            r is Ok <==> self.has_key(ApiType::Vat),
            r matches Ok(req) ==> req.url@ == url_spec(ApiType::Vat, "v1/categories"@)
                && req.params_view() == seq![
                ("api_key"@, self.key_of(ApiType::Vat)),
                ("country_code"@, country_code@),
            ],
            !self.has_key(ApiType::Vat) ==> r == Err::<PendingRequest, AbstractApiError>(
                AbstractApiError::ApiKeyNotPresent(ApiType::Vat),
            ),
    {
        let req = match self.get_api_request(ApiType::Vat, "v1/categories") {
            Ok(q) => q,
            Err(e) => {
                return Err(e);
            },
        };
        let req = req.query("country_code", country_code);
        proof {
            assert(req.params_view() =~= seq![
                ("api_key"@, self.key_of(ApiType::Vat)),
                ("country_code"@, country_code@),
            ]);
        }
        Ok(req)
    }
}

} // verus!
