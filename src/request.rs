//! Requests to the API and the builders that make them.

use vstd::prelude::*;

use crate::coordinate::Coordinate;
use crate::query::{
    forecast_path, forecast_url, parsed_with_params, query_params, time_machine_path,
    time_machine_url, MAX_API_KEY_CHARS, MAX_EXCLUSIONS,
};
use crate::tags::{ExcludeBlock, ExtendBy, Lang, Units};

verus! {

/// A request for the current conditions and the forecast at a place.
#[derive(PartialEq, Debug)]
pub struct ForecastRequest {
    pub api_key: String,
    pub latitude: Coordinate,
    pub longitude: Coordinate,
    /// The URL the request is sent to; `None` where its path did not parse
    /// as a URL.
    pub url: Option<String>,
    pub exclude: Vec<ExcludeBlock>,
    pub extend: Option<ExtendBy>,
    pub lang: Option<Lang>,
    pub units: Option<Units>,
}

impl ForecastRequest {
    /// A request with the given fields, taken as they are.
    pub fn new(
        api_key: &str,
        latitude: Coordinate,
        longitude: Coordinate,
        url: Option<String>,
        exclude: Vec<ExcludeBlock>,
        extend: Option<ExtendBy>,
        lang: Option<Lang>,
        units: Option<Units>,
    ) -> (r: ForecastRequest)
        ensures
            r.api_key@ == api_key@,
            r.latitude == latitude,
            r.longitude == longitude,
            r.url == url,
            r.exclude == exclude,
            r.extend == extend,
            r.lang == lang,
            r.units == units,
    {
        ForecastRequest {
            api_key: api_key.to_owned(),
            latitude,
            longitude,
            url,
            exclude,
            extend,
            lang,
            units,
        }
    }
}

/// Gathers the parameters of a `ForecastRequest`.
#[derive(PartialEq, Debug)]
pub struct ForecastRequestBuilder {
    api_key: String,
    latitude: Coordinate,
    longitude: Coordinate,
    exclude: Vec<ExcludeBlock>,
    extend: Option<ExtendBy>,
    lang: Option<Lang>,
    units: Option<Units>,
}

impl ForecastRequestBuilder {
    /// The API key the request is made with.
    pub closed spec fn spec_api_key(&self) -> Seq<char> {
        self.api_key@
    }

    /// The latitude of the place.
    pub closed spec fn spec_latitude(&self) -> Coordinate {
        self.latitude
    }

    /// The longitude of the place.
    pub closed spec fn spec_longitude(&self) -> Coordinate {
        self.longitude
    }

    /// The blocks to leave out, in the order they were added.
    pub closed spec fn spec_exclude(&self) -> Seq<ExcludeBlock> {
        self.exclude@
    }

    /// The extended time range, where set.
    pub closed spec fn spec_extend(&self) -> Option<ExtendBy> {
        self.extend
    }

    /// The language, where set.
    pub closed spec fn spec_lang(&self) -> Option<Lang> {
        self.lang
    }

    /// The unit system, where set.
    pub closed spec fn spec_units(&self) -> Option<Units> {
        self.units
    }

    /// A builder with the required parameters set and no optional one.
    pub fn new(api_key: &str, latitude: Coordinate, longitude: Coordinate) -> (r: ForecastRequestBuilder)
        ensures
            r.spec_api_key() == api_key@,
            r.spec_latitude() == latitude,
            r.spec_longitude() == longitude,
            r.spec_exclude() == Seq::<ExcludeBlock>::empty(),
            r.spec_extend() == None::<ExtendBy>,
            r.spec_lang() == None::<Lang>,
            r.spec_units() == None::<Units>,
    {
        ForecastRequestBuilder {
            api_key: api_key.to_owned(),
            latitude,
            longitude,
            exclude: Vec::new(),
            extend: None,
            lang: None,
            units: None,
        }
    }

    /// Adds a block to leave out of the response, after those already added.
    pub fn exclude_block(self, exclude_block: ExcludeBlock) -> (r: ForecastRequestBuilder)
        ensures
            r.spec_exclude() == self.spec_exclude().push(exclude_block),
            r.spec_api_key() == self.spec_api_key(),
            r.spec_latitude() == self.spec_latitude(),
            r.spec_longitude() == self.spec_longitude(),
            r.spec_extend() == self.spec_extend(),
            r.spec_lang() == self.spec_lang(),
            r.spec_units() == self.spec_units(),
    {
        let mut r = self;
        r.exclude.push(exclude_block);
        r
    }

    /// Adds blocks to leave out of the response, in their order, after those
    /// already added; `exclude_blocks` is left empty.
    pub fn exclude_blocks(self, exclude_blocks: &mut Vec<ExcludeBlock>) -> (r: ForecastRequestBuilder)
        ensures
            r.spec_exclude() == self.spec_exclude() + old(exclude_blocks)@,
            final(exclude_blocks)@ == Seq::<ExcludeBlock>::empty(),
            r.spec_api_key() == self.spec_api_key(),
            r.spec_latitude() == self.spec_latitude(),
            r.spec_longitude() == self.spec_longitude(),
            r.spec_extend() == self.spec_extend(),
            r.spec_lang() == self.spec_lang(),
            r.spec_units() == self.spec_units(),
    {
        let mut r = self;
        r.exclude.append(exclude_blocks);
        r
    }

    /// Asks for the extended time range; the last call wins.
    pub fn extend(self, extend: ExtendBy) -> (r: ForecastRequestBuilder)
        ensures
            r.spec_extend() == Some(extend),
            r.spec_api_key() == self.spec_api_key(),
            r.spec_latitude() == self.spec_latitude(),
            r.spec_longitude() == self.spec_longitude(),
            r.spec_exclude() == self.spec_exclude(),
            r.spec_lang() == self.spec_lang(),
            r.spec_units() == self.spec_units(),
    {
        let mut r = self;
        r.extend = Some(extend);
        r
    }

    /// Sets the language of the response's summaries; the last call wins.
    pub fn lang(self, lang: Lang) -> (r: ForecastRequestBuilder)
        ensures
            r.spec_lang() == Some(lang),
            r.spec_api_key() == self.spec_api_key(),
            r.spec_latitude() == self.spec_latitude(),
            r.spec_longitude() == self.spec_longitude(),
            r.spec_exclude() == self.spec_exclude(),
            r.spec_extend() == self.spec_extend(),
            r.spec_units() == self.spec_units(),
    {
        let mut r = self;
        r.lang = Some(lang);
        r
    }

    /// Sets the unit system of the response; the last call wins.
    pub fn units(self, units: Units) -> (r: ForecastRequestBuilder)
        ensures
            r.spec_units() == Some(units),
            r.spec_api_key() == self.spec_api_key(),
            r.spec_latitude() == self.spec_latitude(),
            r.spec_longitude() == self.spec_longitude(),
            r.spec_exclude() == self.spec_exclude(),
            r.spec_extend() == self.spec_extend(),
            r.spec_lang() == self.spec_lang(),
    {
        let mut r = self;
        r.units = Some(units);
        r
    }

    /// The request with the gathered parameters and the URL they make: the
    /// path of the key and the place, followed by the query parameters.
    pub fn build(self) -> (r: ForecastRequest)
        requires
            self.spec_api_key().len() <= MAX_API_KEY_CHARS,
            self.spec_exclude().len() <= MAX_EXCLUSIONS,
        ensures
            r.api_key@ == self.spec_api_key(),
            r.latitude == self.spec_latitude(),
            r.longitude == self.spec_longitude(),
            r.exclude@ == self.spec_exclude(),
            r.extend == self.spec_extend(),
            r.lang == self.spec_lang(),
            r.units == self.spec_units(),
            r.url.deep_view() == parsed_with_params(
                forecast_path(self.spec_api_key(), self.spec_latitude(), self.spec_longitude()),
                query_params(self.spec_exclude(), self.spec_extend(), self.spec_lang(), self.spec_units()),
            ),
    {
        let url = forecast_url(
            self.api_key.as_str(),
            &self.latitude,
            &self.longitude,
            &self.exclude,
            self.extend,
            self.lang,
            self.units,
        );
        ForecastRequest {
            api_key: self.api_key,
            latitude: self.latitude,
            longitude: self.longitude,
            url,
            exclude: self.exclude,
            extend: self.extend,
            lang: self.lang,
            units: self.units,
        }
    }
}


/// A request for the conditions at a place at a given time, past or future.
#[derive(PartialEq, Debug)]
pub struct TimeMachineRequest {
    pub api_key: String,
    pub latitude: Coordinate,
    pub longitude: Coordinate,
    /// The time asked for, in seconds since the Unix epoch.
    pub time: u64,
    /// The URL the request is sent to; `None` where its path did not parse
    /// as a URL.
    pub url: Option<String>,
    pub exclude: Vec<ExcludeBlock>,
    pub lang: Option<Lang>,
    pub units: Option<Units>,
}

impl TimeMachineRequest {
    /// A request with the given fields, taken as they are.
    pub fn new(
        api_key: &str,
        latitude: Coordinate,
        longitude: Coordinate,
        time: u64,
        url: Option<String>,
        exclude: Vec<ExcludeBlock>,
        lang: Option<Lang>,
        units: Option<Units>,
    ) -> (r: TimeMachineRequest)
        ensures
            r.api_key@ == api_key@,
            r.latitude == latitude,
            r.longitude == longitude,
            r.time == time,
            r.url == url,
            r.exclude == exclude,
            r.lang == lang,
            r.units == units,
    {
        TimeMachineRequest {
            api_key: api_key.to_owned(),
            latitude,
            longitude,
            time,
            url,
            exclude,
            lang,
            units,
        }
    }
}

/// Gathers the parameters of a `TimeMachineRequest`.
#[derive(PartialEq, Debug)]
pub struct TimeMachineRequestBuilder {
    api_key: String,
    latitude: Coordinate,
    longitude: Coordinate,
    time: u64,
    exclude: Vec<ExcludeBlock>,
    lang: Option<Lang>,
    units: Option<Units>,
}

impl TimeMachineRequestBuilder {
    /// The API key the request is made with.
    pub closed spec fn spec_api_key(&self) -> Seq<char> {
        self.api_key@
    }

    /// The latitude of the place.
    pub closed spec fn spec_latitude(&self) -> Coordinate {
        self.latitude
    }

    /// The longitude of the place.
    pub closed spec fn spec_longitude(&self) -> Coordinate {
        self.longitude
    }

    /// The time asked for, in seconds since the Unix epoch.
    pub closed spec fn spec_time(&self) -> u64 {
        self.time
    }

    /// The blocks to leave out, in the order they were added.
    pub closed spec fn spec_exclude(&self) -> Seq<ExcludeBlock> {
        self.exclude@
    }

    /// The language, where set.
    pub closed spec fn spec_lang(&self) -> Option<Lang> {
        self.lang
    }

    /// The unit system, where set.
    pub closed spec fn spec_units(&self) -> Option<Units> {
        self.units
    }

    /// A builder with the required parameters set and no optional one.
    pub fn new(api_key: &str, latitude: Coordinate, longitude: Coordinate, time: u64) -> (r:
        TimeMachineRequestBuilder)
        ensures
            r.spec_api_key() == api_key@,
            r.spec_latitude() == latitude,
            r.spec_longitude() == longitude,
            r.spec_time() == time,
            r.spec_exclude() == Seq::<ExcludeBlock>::empty(),
            r.spec_lang() == None::<Lang>,
            r.spec_units() == None::<Units>,
    {
        TimeMachineRequestBuilder {
            api_key: api_key.to_owned(),
            latitude,
            longitude,
            time,
            exclude: Vec::new(),
            lang: None,
            units: None,
        }
    }

    /// Adds a block to leave out of the response, after those already added.
    pub fn exclude_block(self, exclude_block: ExcludeBlock) -> (r: TimeMachineRequestBuilder)
        ensures
            r.spec_exclude() == self.spec_exclude().push(exclude_block),
            r.spec_api_key() == self.spec_api_key(),
            r.spec_latitude() == self.spec_latitude(),
            r.spec_longitude() == self.spec_longitude(),
            r.spec_time() == self.spec_time(),
            r.spec_lang() == self.spec_lang(),
            r.spec_units() == self.spec_units(),
    {
        let mut r = self;
        r.exclude.push(exclude_block);
        r
    }

    /// Adds blocks to leave out of the response, in their order, after those
    /// already added; `exclude_blocks` is left empty.
    pub fn exclude_blocks(self, exclude_blocks: &mut Vec<ExcludeBlock>) -> (r:
        TimeMachineRequestBuilder)
        ensures
            r.spec_exclude() == self.spec_exclude() + old(exclude_blocks)@,
            final(exclude_blocks)@ == Seq::<ExcludeBlock>::empty(),
            r.spec_api_key() == self.spec_api_key(),
            r.spec_latitude() == self.spec_latitude(),
            r.spec_longitude() == self.spec_longitude(),
            r.spec_time() == self.spec_time(),
            r.spec_lang() == self.spec_lang(),
            r.spec_units() == self.spec_units(),
    {
        let mut r = self;
        r.exclude.append(exclude_blocks);
        r
    }

    /// Sets the language of the response's summaries; the last call wins.
    pub fn lang(self, lang: Lang) -> (r: TimeMachineRequestBuilder)
        ensures
            r.spec_lang() == Some(lang),
            r.spec_api_key() == self.spec_api_key(),
            r.spec_latitude() == self.spec_latitude(),
            r.spec_longitude() == self.spec_longitude(),
            r.spec_time() == self.spec_time(),
            r.spec_exclude() == self.spec_exclude(),
            r.spec_units() == self.spec_units(),
    {
        let mut r = self;
        r.lang = Some(lang);
        r
    }

    /// Sets the unit system of the response; the last call wins.
    pub fn units(self, units: Units) -> (r: TimeMachineRequestBuilder)
        ensures
            r.spec_units() == Some(units),
            r.spec_api_key() == self.spec_api_key(),
            r.spec_latitude() == self.spec_latitude(),
            r.spec_longitude() == self.spec_longitude(),
            r.spec_time() == self.spec_time(),
            r.spec_exclude() == self.spec_exclude(),
            r.spec_lang() == self.spec_lang(),
    {
        let mut r = self;
        r.units = Some(units);
        r
    }

    /// The request with the gathered parameters and the URL they make: the
    /// path of the key, the place and the time, followed by the query
    /// parameters.
    pub fn build(self) -> (r: TimeMachineRequest)
        requires
            self.spec_api_key().len() <= MAX_API_KEY_CHARS,
            self.spec_exclude().len() <= MAX_EXCLUSIONS,
        ensures
            r.api_key@ == self.spec_api_key(),
            r.latitude == self.spec_latitude(),
            r.longitude == self.spec_longitude(),
            r.time == self.spec_time(),
            r.exclude@ == self.spec_exclude(),
            r.lang == self.spec_lang(),
            r.units == self.spec_units(),
            r.url.deep_view() == parsed_with_params(
                time_machine_path(
                    self.spec_api_key(),
                    self.spec_latitude(),
                    self.spec_longitude(),
                    self.spec_time(),
                ),
                query_params(self.spec_exclude(), None, self.spec_lang(), self.spec_units()),
            ),
    {
        let url = time_machine_url(
            self.api_key.as_str(),
            &self.latitude,
            &self.longitude,
            self.time,
            &self.exclude,
            self.lang,
            self.units,
        );
        TimeMachineRequest {
            api_key: self.api_key,
            latitude: self.latitude,
            longitude: self.longitude,
            time: self.time,
            url,
            exclude: self.exclude,
            lang: self.lang,
            units: self.units,
        }
    }
}

} // verus!
