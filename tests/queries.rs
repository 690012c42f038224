use france_api_adresse::client::BAN;
use france_api_adresse::degrees::Degrees;
use france_api_adresse::types::FilterType;

fn deg(mantissa: i64, scale: u8) -> Degrees {
    Degrees::new(mantissa, scale)
}

#[test]
fn default_client_points_at_production() {
    assert_eq!(BAN::new().base_url, "https://data.geopf.fr/geocodage");
    assert_eq!(BAN::default().base_url, "https://data.geopf.fr/geocodage");
}

#[test]
fn custom_base_url_is_kept_unvalidated() {
    let api = BAN::with_base_url("not a url".to_string());
    assert_eq!(api.base_url, "not a url");
    let url = api.geocode("x".to_string()).to_url();
    assert_eq!(url, "not a url/search/?q=x");
}

#[test]
fn search_url_without_filters() {
    let url = BAN::new().geocode("Route du marais".to_string()).to_url();
    assert_eq!(url, "https://data.geopf.fr/geocodage/search/?q=Route%20du%20marais");
}

#[test]
fn search_text_is_percent_encoded() {
    let api = BAN::with_base_url("http://h".to_string());
    let url = api.geocode("200 Chemin de puy petit".to_string()).to_url();
    assert_eq!(url, "http://h/search/?q=200%20Chemin%20de%20puy%20petit");
    let url = api.geocode("rue de l'église & co/2".to_string()).to_url();
    assert_eq!(url, "http://h/search/?q=rue%20de%20l%27%C3%A9glise%20%26%20co%2F2");
    let url = api.geocode("a-b_c.d~e".to_string()).to_url();
    assert_eq!(url, "http://h/search/?q=a-b_c.d~e");
}

#[test]
fn search_filters_in_fixed_order() {
    let api = BAN::with_base_url("http://h".to_string());
    // Set in reverse order: the URL order does not depend on it.
    let url = api
        .geocode("Route des marais".to_string())
        .limit_results(5)
        .filter_type(FilterType::Street)
        .around_lat_lon(deg(462, 1), deg(63, 1))
        .city("Cranves-Sales")
        .postcode("74380")
        .to_url();
    assert_eq!(
        url,
        "http://h/search/?q=Route%20des%20marais&postcode=74380&city=Cranves-Sales\
         &lat=46.2&lon=6.3&type=street&limit=5"
    );
}

#[test]
fn search_filter_values_are_encoded() {
    let api = BAN::with_base_url("http://h".to_string());
    let url = api.geocode("x".to_string()).city("Saint Étienne").to_url();
    assert_eq!(url, "http://h/search/?q=x&city=Saint%20%C3%89tienne");
}

#[test]
fn search_location_pair_present_when_set() {
    let api = BAN::with_base_url("http://h".to_string());
    let url = api
        .geocode("Route des marais".to_string())
        .around_lat_lon(deg(462, 1), deg(63, 1))
        .limit_results(1)
        .to_url();
    assert_eq!(url, "http://h/search/?q=Route%20des%20marais&lat=46.2&lon=6.3&limit=1");
}

#[test]
fn search_unset_filters_never_appear() {
    let url = BAN::with_base_url("http://h".to_string()).geocode("q".to_string()).to_url();
    for name in ["postcode=", "city=", "lat=", "lon=", "type=", "limit="] {
        assert!(!url.contains(name));
    }
}

#[test]
fn search_limit_zero_is_passed_through() {
    let url = BAN::with_base_url("http://h".to_string())
        .geocode("q".to_string())
        .limit_results(0)
        .to_url();
    assert_eq!(url, "http://h/search/?q=q&limit=0");
}

#[test]
fn search_limit_largest() {
    let url = BAN::with_base_url("http://h".to_string())
        .geocode("q".to_string())
        .limit_results(usize::MAX)
        .to_url();
    assert_eq!(url, format!("http://h/search/?q=q&limit={}", usize::MAX));
}

#[test]
fn reverse_url_without_filters() {
    let url = BAN::new().reverse(deg(463123975, 7), deg(6301054, 6)).to_url();
    assert_eq!(
        url,
        "https://data.geopf.fr/geocodage/reverse/?lat=46.3123975&lon=6.301054"
    );
}

#[test]
fn reverse_filters_in_fixed_order() {
    let url = BAN::with_base_url("http://h".to_string())
        .reverse(deg(46, 0), deg(-15, 1))
        .limit_results(3)
        .filter_type(FilterType::HouseNumber)
        .city("Douvaine")
        .postcode("74140")
        .to_url();
    assert_eq!(
        url,
        "http://h/reverse/?lat=46&lon=-1.5&postcode=74140&city=Douvaine&type=housenumber&limit=3"
    );
}

#[test]
fn reverse_filter_replaced_by_later_call() {
    let url = BAN::with_base_url("http://h".to_string())
        .reverse(deg(1, 0), deg(2, 0))
        .postcode("11111")
        .postcode("22 22")
        .to_url();
    assert_eq!(url, "http://h/reverse/?lat=1&lon=2&postcode=22%2022");
}

#[test]
fn filter_type_texts() {
    assert_eq!(FilterType::HouseNumber.to_string(), "housenumber");
    assert_eq!(FilterType::Street.to_string(), "street");
    assert_eq!(FilterType::Locality.to_string(), "locality");
    assert_eq!(FilterType::Municipality.to_string(), "municipality");
    assert_eq!(FilterType::Locality.as_str(), "locality");
}

#[test]
fn filter_types_in_urls() {
    let api = BAN::with_base_url("h".to_string());
    let cases = [
        (FilterType::HouseNumber, "h/search/?q=a&type=housenumber"),
        (FilterType::Street, "h/search/?q=a&type=street"),
        (FilterType::Locality, "h/search/?q=a&type=locality"),
        (FilterType::Municipality, "h/search/?q=a&type=municipality"),
    ];
    for (ty, expected) in cases {
        assert_eq!(api.geocode("a".to_string()).filter_type(ty).to_url(), expected);
    }
}

#[test]
fn degrees_text() {
    assert_eq!(deg(463123975, 7).to_string(), "46.3123975");
    assert_eq!(deg(6301054, 6).to_string(), "6.301054");
    assert_eq!(deg(4620, 2).to_string(), "46.2");
    assert_eq!(deg(600, 2).to_string(), "6");
    assert_eq!(deg(-5, 1).to_string(), "-0.5");
    assert_eq!(deg(5, 3).to_string(), "0.005");
    assert_eq!(deg(0, 4).to_string(), "0");
    assert_eq!(deg(-123, 0).to_string(), "-123");
    assert_eq!(deg(i64::MIN, 0).to_string(), "-9223372036854775808");
    assert_eq!(deg(i64::MAX, 18).to_string(), "9.223372036854775807");
}

#[test]
fn degrees_parse_accepts_decimal_text() {
    assert_eq!(Degrees::parse("46.3123975"), Some(deg(463123975, 7)));
    assert_eq!(Degrees::parse("-1.5"), Some(deg(-15, 1)));
    assert_eq!(Degrees::parse("6"), Some(deg(6, 0)));
    assert_eq!(Degrees::parse("0.000"), Some(deg(0, 3)));
    assert_eq!(Degrees::parse("-9223372036854775808"), Some(deg(i64::MIN, 0)));
    assert_eq!(Degrees::parse("9223372036854775807"), Some(deg(i64::MAX, 0)));
    assert_eq!(Degrees::parse("0.30000000000000004"), Some(deg(30000000000000004, 17)));
}

#[test]
fn degrees_parse_rejects_other_text() {
    for bad in ["", "-", ".5", "5.", "1.2.3", "+1", "1e5", " 1", "1 ", "--1", "NaN", "inf"] {
        assert_eq!(Degrees::parse(bad), None, "{:?}", bad);
    }
    assert_eq!(Degrees::parse("9223372036854775808"), None);
    assert_eq!(Degrees::parse("-9223372036854775809"), None);
    assert_eq!(Degrees::parse("99999999999999999999999"), None);
    let long_fraction = format!("0.{}", "0".repeat(256));
    assert_eq!(Degrees::parse(&long_fraction), None);
    let max_fraction = format!("0.{}1", "0".repeat(254));
    assert_eq!(Degrees::parse(&max_fraction), Some(deg(1, 255)));
}

#[test]
fn degrees_parse_then_text_is_shortest_form() {
    let d = Degrees::parse("46.20").unwrap();
    assert_eq!(d.to_string(), "46.2");
    assert_eq!(Degrees::parse("-0.0").unwrap().to_string(), "0");
}
