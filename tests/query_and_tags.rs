use forecast::{
    exclude_text, query_pairs, Coordinate, ExcludeBlock, ExtendBy, ForecastRequestBuilder, Icon,
    Lang, PrecipType, Severity, TimeMachineRequestBuilder, Units, UnrecognizedTag,
};

use reqwest::Url;

fn lat() -> Coordinate {
    Coordinate::new(false, 6, 6600000000000001).unwrap()
}

fn long() -> Coordinate {
    Coordinate::new(false, 66, 5999999999999943).unwrap()
}

fn pairs(items: &[(&str, &str)]) -> Vec<(String, String)> {
    items.iter().map(|(k, v)| (k.to_string(), v.to_string())).collect()
}

#[test]
fn full_forecast_request_has_the_documented_query() {
    let request = ForecastRequestBuilder::new("some_api_key", lat(), long())
        .exclude_blocks(&mut vec![ExcludeBlock::Hourly, ExcludeBlock::Daily, ExcludeBlock::Alerts])
        .extend(ExtendBy::Hourly)
        .lang(Lang::Arabic)
        .units(Units::Imperial)
        .build();
    let url = Url::parse(request.url.as_deref().unwrap()).unwrap();
    let decoded: Vec<(String, String)> =
        url.query_pairs().map(|(k, v)| (k.into_owned(), v.into_owned())).collect();
    assert_eq!(
        decoded,
        pairs(&[("exclude", "hourly,daily,alerts"), ("extend", "hourly"), ("lang", "ar"), ("units", "us")])
    );
    assert_eq!(
        request.url.as_deref(),
        Some(
            "https://api.darksky.net/forecast/some_api_key/6.6600000000000001,66.5999999999999943\
             ?exclude=hourly%2Cdaily%2Calerts&extend=hourly&lang=ar&units=us"
        )
    );
}

#[test]
fn bare_requests_end_in_an_empty_query() {
    let forecast = ForecastRequestBuilder::new("some_api_key", lat(), long()).build();
    assert_eq!(
        forecast.url.as_deref(),
        Some("https://api.darksky.net/forecast/some_api_key/6.6600000000000001,66.5999999999999943?")
    );
    let time_machine = TimeMachineRequestBuilder::new("some_api_key", lat(), long(), 666).build();
    assert_eq!(
        time_machine.url.as_deref(),
        Some("https://api.darksky.net/forecast/some_api_key/6.6600000000000001,66.5999999999999943,666?")
    );
    assert!(query_pairs(&Vec::new(), None, None, None).is_empty());
}

#[test]
fn exclusions_keep_their_order_and_duplicates() {
    assert_eq!(exclude_text(&vec![]), "");
    assert_eq!(exclude_text(&vec![ExcludeBlock::Minutely]), "minutely");
    assert_eq!(
        exclude_text(&vec![ExcludeBlock::Alerts, ExcludeBlock::Currently, ExcludeBlock::Flags]),
        "alerts,currently,flags"
    );
    assert_eq!(exclude_text(&vec![ExcludeBlock::Daily, ExcludeBlock::Daily]), "daily,daily");
}

#[test]
fn single_and_bulk_exclusions_append_in_call_order() {
    let mut first = vec![ExcludeBlock::Flags, ExcludeBlock::Minutely];
    let mut second = vec![ExcludeBlock::Currently];
    let request = ForecastRequestBuilder::new("k", lat(), long())
        .exclude_block(ExcludeBlock::Daily)
        .exclude_blocks(&mut first)
        .exclude_block(ExcludeBlock::Alerts)
        .exclude_blocks(&mut second)
        .build();
    assert!(first.is_empty());
    assert!(second.is_empty());
    assert_eq!(
        request.exclude,
        vec![
            ExcludeBlock::Daily,
            ExcludeBlock::Flags,
            ExcludeBlock::Minutely,
            ExcludeBlock::Alerts,
            ExcludeBlock::Currently
        ]
    );
    let url = Url::parse(request.url.as_deref().unwrap()).unwrap();
    let decoded: Vec<(String, String)> =
        url.query_pairs().map(|(k, v)| (k.into_owned(), v.into_owned())).collect();
    assert_eq!(decoded, pairs(&[("exclude", "daily,flags,minutely,alerts,currently")]));
}

#[test]
fn last_setting_wins() {
    let request = TimeMachineRequestBuilder::new("k", lat(), long(), 1505899999)
        .lang(Lang::Arabic)
        .units(Units::Imperial)
        .lang(Lang::Swedish)
        .units(Units::SI)
        .build();
    assert_eq!(request.lang, Some(Lang::Swedish));
    assert_eq!(request.units, Some(Units::SI));
    assert_eq!(
        request.url.as_deref(),
        Some("https://api.darksky.net/forecast/k/6.6600000000000001,66.5999999999999943,1505899999?lang=sv&units=si")
    );
}

#[test]
fn query_pairs_follow_the_fixed_key_order() {
    assert_eq!(
        query_pairs(&vec![ExcludeBlock::Flags], Some(ExtendBy::Hourly), Some(Lang::IgpayAtinlay), Some(Units::UK)),
        pairs(&[("exclude", "flags"), ("extend", "hourly"), ("lang", "x-pig-latin"), ("units", "uk2")])
    );
    assert_eq!(query_pairs(&vec![], None, Some(Lang::TraditionalChinese), None), pairs(&[("lang", "zh-tw")]));
}

#[test]
fn negative_coordinates_and_odd_keys_are_taken_as_they_are() {
    let south = Coordinate::new(true, 71, 1097000000000000).unwrap();
    let request = ForecastRequestBuilder::new("a b", Coordinate::new(false, 42, 3736000000000000).unwrap(), south)
        .build();
    assert_eq!(
        request.url.as_deref(),
        Some("https://api.darksky.net/forecast/a%20b/42.3736000000000000,-71.1097000000000000?")
    );
    assert_eq!(request.api_key, "a b");
}

#[test]
fn coordinates_write_sixteen_fraction_digits() {
    assert_eq!(Coordinate::new(false, 0, 0).unwrap().to_fixed_string(), "0.0000000000000000");
    assert_eq!(Coordinate::new(true, 0, 5).unwrap().to_fixed_string(), "-0.0000000000000005");
    assert_eq!(
        Coordinate::new(false, u64::MAX, 9999999999999999).unwrap().to_fixed_string(),
        "18446744073709551615.9999999999999999"
    );
    assert_eq!(Coordinate::new(false, 1, 10000000000000000), None);
    let c = Coordinate::new(true, 12, 34).unwrap();
    assert!(c.is_negative());
    assert_eq!(c.whole(), 12);
    assert_eq!(c.fraction(), 34);
}

#[test]
fn every_tag_reads_back_as_its_variant() {
    let icons = Icon::all();
    assert_eq!(icons.len(), 13);
    for icon in icons {
        assert_eq!(Icon::from_wire(icon.as_str()), Ok(icon));
    }
    for p in PrecipType::all() {
        assert_eq!(PrecipType::from_wire(p.as_str()), Ok(p));
    }
    for u in Units::all() {
        assert_eq!(Units::from_wire(u.as_str()), Ok(u));
    }
    for s in Severity::all() {
        assert_eq!(Severity::from_wire(s.as_str()), Ok(s));
    }
    let langs = Lang::all();
    assert_eq!(langs.len(), 34);
    let mut tags: Vec<&str> = langs.iter().map(|l| l.as_str()).collect();
    tags.sort();
    tags.dedup();
    assert_eq!(tags.len(), 34);
    assert_eq!(ExcludeBlock::all().len(), 6);
    assert_eq!(ExtendBy::all(), vec![ExtendBy::Hourly]);
}

#[test]
fn tags_have_their_wire_spelling() {
    assert_eq!(Icon::PartlyCloudyNight.as_str(), "partly-cloudy-night");
    assert_eq!(PrecipType::Sleet.as_str(), "sleet");
    assert_eq!(ExcludeBlock::Currently.as_str(), "currently");
    assert_eq!(ExtendBy::Hourly.as_str(), "hourly");
    assert_eq!(Lang::Tetum.as_str(), "tet");
    assert_eq!(Lang::NorwegianBokmal.as_str(), "nb");
    assert_eq!(Units::CA.as_str(), "ca");
    assert_eq!(Units::Imperial.as_str(), "us");
    assert_eq!(Severity::Watch.as_str(), "watch");
}

#[test]
fn unknown_tags_are_refused() {
    assert_eq!(
        Icon::from_wire("meteor-shower"),
        Err(UnrecognizedTag { tag: "meteor-shower".to_string() })
    );
    assert_eq!(
        PrecipType::from_wire("hail"),
        Err(UnrecognizedTag { tag: "hail".to_string() })
    );
    assert_eq!(Units::from_wire("uk"), Err(UnrecognizedTag { tag: "uk".to_string() }));
    assert_eq!(Severity::from_wire("Warning"), Err(UnrecognizedTag { tag: "Warning".to_string() }));
    assert_eq!(Icon::from_wire(""), Err(UnrecognizedTag { tag: String::new() }));
}

#[test]
fn coordinates_read_back_from_their_text() {
    assert_eq!(Coordinate::from_fixed_str(&format!("{:.16}", 6.66f64)), Some(lat()));
    assert_eq!(Coordinate::from_fixed_str(&format!("{:.16}", 66.6f64)), Some(long()));
    assert_eq!(
        Coordinate::from_fixed_str("-71.1097000000000000"),
        Coordinate::new(true, 71, 1097000000000000)
    );
    assert_eq!(
        Coordinate::from_fixed_str("18446744073709551615.9999999999999999"),
        Coordinate::new(false, u64::MAX, 9999999999999999)
    );
    let c = Coordinate::new(true, 0, 42).unwrap();
    assert_eq!(Coordinate::from_fixed_str(&c.to_fixed_string()), Some(c));
}

#[test]
fn malformed_coordinate_text_is_refused() {
    for text in [
        "",
        "-",
        "6.66",
        "06.6600000000000001",
        "6.66000000000000010",
        "6,6600000000000001",
        "+6.6600000000000001",
        "--6.6600000000000001",
        "6.660000000000000a",
        "18446744073709551616.0000000000000000",
        "NaN",
        "inf",
    ] {
        assert_eq!(Coordinate::from_fixed_str(text), None, "{}", text);
    }
}
