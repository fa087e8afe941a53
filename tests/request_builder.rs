use forecast::{
    Coordinate, ExcludeBlock, ExtendBy, ForecastRequest, ForecastRequestBuilder, Lang,
    TimeMachineRequest, TimeMachineRequestBuilder, Units, EXCLUDE, EXTEND, FORECAST_URL, LANG,
    UNITS,
};

use reqwest::Url;

const LAT: f64 = 6.66;
const LONG: f64 = 66.6;
const TIME: u64 = 666;

const API_KEY: &str = "some_api_key";

fn lat() -> Coordinate {
    Coordinate::new(false, 6, 6600000000000001).unwrap()
}

fn long() -> Coordinate {
    Coordinate::new(false, 66, 5999999999999943).unwrap()
}

#[test]
fn test_forecast_request_builder_defaults() {
    let request = ForecastRequestBuilder::new(API_KEY, lat(), long()).build();

    let expected_url = Url::parse(&format!(
        "{base}/{key}/{lat:.16},{long:.16}?",
        base = FORECAST_URL,
        key = API_KEY,
        lat = LAT,
        long = LONG
    ))
    .unwrap();

    let expected = ForecastRequest::new(
        API_KEY,
        lat(),
        long(),
        Some(String::from(expected_url)),
        Vec::new(),
        None,
        None,
        None,
    );

    assert_eq!(expected.api_key, request.api_key);
    assert_eq!(expected.latitude, request.latitude);
    assert_eq!(expected.longitude, request.longitude);
    assert_eq!(expected.exclude, request.exclude);
    assert_eq!(expected.extend, request.extend);
    assert_eq!(expected.lang, request.lang);
    assert_eq!(expected.units, request.units);
    assert_eq!(expected.url, request.url);

    assert_eq!(expected, request);
}

#[test]
fn test_forecast_request_builder_simple() {
    let mut blocks = vec![ExcludeBlock::Daily, ExcludeBlock::Alerts];

    let request = ForecastRequestBuilder::new(API_KEY, lat(), long())
        .exclude_block(ExcludeBlock::Hourly)
        .exclude_blocks(&mut blocks)
        .extend(ExtendBy::Hourly)
        .lang(Lang::Arabic)
        .units(Units::Imperial)
        .build();

    let expected_url = {
        let mut url = Url::parse(&format!(
            "{base}/{key}/{lat:.16},{long:.16}",
            base = FORECAST_URL,
            key = API_KEY,
            lat = LAT,
            long = LONG
        ))
        .unwrap();

        url.query_pairs_mut()
            .append_pair(EXCLUDE, "hourly,daily,alerts")
            .append_pair(EXTEND, "hourly")
            .append_pair(LANG, "ar")
            .append_pair(UNITS, "us");

        url
    };

    let expected = ForecastRequest::new(
        API_KEY,
        lat(),
        long(),
        Some(String::from(expected_url)),
        vec![ExcludeBlock::Hourly, ExcludeBlock::Daily, ExcludeBlock::Alerts],
        Some(ExtendBy::Hourly),
        Some(Lang::Arabic),
        Some(Units::Imperial),
    );

    assert_eq!(expected, request);
}

#[test]
fn test_forecast_request_builder_complex() {
    let mut builder = ForecastRequestBuilder::new(API_KEY, lat(), long());
    let mut blocks = vec![ExcludeBlock::Daily, ExcludeBlock::Alerts];

    builder = builder.exclude_block(ExcludeBlock::Hourly);
    builder = builder.exclude_blocks(&mut blocks);
    builder = builder.extend(ExtendBy::Hourly);
    builder = builder.lang(Lang::Arabic);
    builder = builder.units(Units::Imperial);

    let expected_url = {
        let mut url = Url::parse(&format!(
            "{base}/{key}/{lat:.16},{long:.16}",
            base = FORECAST_URL,
            key = API_KEY,
            lat = LAT,
            long = LONG
        ))
        .unwrap();

        url.query_pairs_mut()
            .append_pair(EXCLUDE, "hourly,daily,alerts")
            .append_pair(EXTEND, "hourly")
            .append_pair(LANG, "ar")
            .append_pair(UNITS, "us");

        url
    };

    let expected = ForecastRequest::new(
        API_KEY,
        lat(),
        long(),
        Some(String::from(expected_url)),
        vec![ExcludeBlock::Hourly, ExcludeBlock::Daily, ExcludeBlock::Alerts],
        Some(ExtendBy::Hourly),
        Some(Lang::Arabic),
        Some(Units::Imperial),
    );

    assert_eq!(expected, builder.build());
}

#[test]
fn test_time_machine_request_builder_defaults() {
    let request = TimeMachineRequestBuilder::new(API_KEY, lat(), long(), TIME).build();

    let expected_url = Url::parse(&format!(
        "{base}/{key}/{lat:.16},{long:.16},{time}?",
        base = FORECAST_URL,
        key = API_KEY,
        lat = LAT,
        long = LONG,
        time = TIME
    ))
    .unwrap();

    let expected = TimeMachineRequest::new(
        API_KEY,
        lat(),
        long(),
        TIME,
        Some(String::from(expected_url)),
        Vec::new(),
        None,
        None,
    );

    assert_eq!(expected.api_key, request.api_key);
    assert_eq!(expected.latitude, request.latitude);
    assert_eq!(expected.longitude, request.longitude);
    assert_eq!(expected.time, request.time);
    assert_eq!(expected.exclude, request.exclude);
    assert_eq!(expected.lang, request.lang);
    assert_eq!(expected.units, request.units);
    assert_eq!(expected.url, request.url);

    assert_eq!(expected, request);
}

#[test]
fn test_time_machine_request_builder_simple() {
    let mut blocks = vec![ExcludeBlock::Daily, ExcludeBlock::Alerts];

    let request = TimeMachineRequestBuilder::new(API_KEY, lat(), long(), TIME)
        .exclude_block(ExcludeBlock::Hourly)
        .exclude_blocks(&mut blocks)
        .lang(Lang::Arabic)
        .units(Units::Imperial)
        .build();

    let expected_url = {
        let mut url = Url::parse(&format!(
            "{base}/{key}/{lat:.16},{long:.16},{time}",
            base = FORECAST_URL,
            key = API_KEY,
            lat = LAT,
            long = LONG,
            time = TIME
        ))
        .unwrap();

        url.query_pairs_mut()
            .append_pair(EXCLUDE, "hourly,daily,alerts")
            .append_pair(LANG, "ar")
            .append_pair(UNITS, "us");

        url
    };

    let expected = TimeMachineRequest::new(
        API_KEY,
        lat(),
        long(),
        TIME,
        Some(String::from(expected_url)),
        vec![ExcludeBlock::Hourly, ExcludeBlock::Daily, ExcludeBlock::Alerts],
        Some(Lang::Arabic),
        Some(Units::Imperial),
    );

    assert_eq!(expected, request);
}

#[test]
fn test_time_machine_request_builder_complex() {
    let mut builder = TimeMachineRequestBuilder::new(API_KEY, lat(), long(), TIME);
    let mut blocks = vec![ExcludeBlock::Daily, ExcludeBlock::Alerts];

    builder = builder.exclude_block(ExcludeBlock::Hourly);
    builder = builder.exclude_blocks(&mut blocks);
    builder = builder.lang(Lang::Arabic);
    builder = builder.units(Units::Imperial);

    let expected_url = {
        let mut url = Url::parse(&format!(
            "{base}/{key}/{lat:.16},{long:.16},{time}",
            base = FORECAST_URL,
            key = API_KEY,
            lat = LAT,
            long = LONG,
            time = TIME
        ))
        .unwrap();

        url.query_pairs_mut()
            .append_pair(EXCLUDE, "hourly,daily,alerts")
            .append_pair(LANG, "ar")
            .append_pair(UNITS, "us");

        url
    };

    let expected = TimeMachineRequest::new(
        API_KEY,
        lat(),
        long(),
        TIME,
        Some(String::from(expected_url)),
        vec![ExcludeBlock::Hourly, ExcludeBlock::Daily, ExcludeBlock::Alerts],
        Some(Lang::Arabic),
        Some(Units::Imperial),
    );

    assert_eq!(expected, builder.build());
}
