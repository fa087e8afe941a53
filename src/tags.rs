//! The API's enumerated values and their tags on the wire.
//!
//! Each enumeration maps every variant to exactly one tag. The ones that
//! appear in responses can also be read back from their tag.

use vstd::prelude::*;

use crate::text::same_text;

verus! {

/// A wire tag that matches no variant of the enumeration it was read as.
#[derive(Clone, Debug, PartialEq, Eq)]
pub struct UnrecognizedTag {
    /// The text that was read.
    pub tag: String,
}

/// An icon that summarises the weather of a data point or data block.
#[derive(Clone, Copy, Debug, PartialEq, Eq, Hash, Structural)]
pub enum Icon {
    ClearDay,
    ClearNight,
    Rain,
    Snow,
    Sleet,
    Wind,
    Fog,
    Cloudy,
    PartlyCloudyDay,
    PartlyCloudyNight,
    Hail,
    Thunderstorm,
    Tornado,
}

impl Icon {
    /// The tag that stands for this icon on the wire.
    pub open spec fn wire(self) -> Seq<char> {
        match self {
            Icon::ClearDay => "clear-day"@,
            Icon::ClearNight => "clear-night"@,
            Icon::Rain => "rain"@,
            Icon::Snow => "snow"@,
            Icon::Sleet => "sleet"@,
            Icon::Wind => "wind"@,
            Icon::Fog => "fog"@,
            Icon::Cloudy => "cloudy"@,
            Icon::PartlyCloudyDay => "partly-cloudy-day"@,
            Icon::PartlyCloudyNight => "partly-cloudy-night"@,
            Icon::Hail => "hail"@,
            Icon::Thunderstorm => "thunderstorm"@,
            Icon::Tornado => "tornado"@,
        }
    }

    /// The wire tag of this icon.
    pub fn as_str(&self) -> (r: &'static str)
        ensures
            r@ == self.wire(),
    {
        match self {
            Icon::ClearDay => "clear-day",
            Icon::ClearNight => "clear-night",
            Icon::Rain => "rain",
            Icon::Snow => "snow",
            Icon::Sleet => "sleet",
            Icon::Wind => "wind",
            Icon::Fog => "fog",
            Icon::Cloudy => "cloudy",
            Icon::PartlyCloudyDay => "partly-cloudy-day",
            Icon::PartlyCloudyNight => "partly-cloudy-night",
            Icon::Hail => "hail",
            Icon::Thunderstorm => "thunderstorm",
            Icon::Tornado => "tornado",
        }
    }

    /// Every icon, each once.
    pub fn all() -> (r: Vec<Icon>)
        ensures
            r@.len() == 13,
            forall|t: Icon| r@.contains(t),
    {
        let r = vec![
            Icon::ClearDay,
            Icon::ClearNight,
            Icon::Rain,
            Icon::Snow,
            Icon::Sleet,
            Icon::Wind,
            Icon::Fog,
            Icon::Cloudy,
            Icon::PartlyCloudyDay,
            Icon::PartlyCloudyNight,
            Icon::Hail,
            Icon::Thunderstorm,
            Icon::Tornado,
        ];
        assert forall|t: Icon| r@.contains(t) by {
            match t {
                Icon::ClearDay => assert(r@[0] == t),
                Icon::ClearNight => assert(r@[1] == t),
                Icon::Rain => assert(r@[2] == t),
                Icon::Snow => assert(r@[3] == t),
                Icon::Sleet => assert(r@[4] == t),
                Icon::Wind => assert(r@[5] == t),
                Icon::Fog => assert(r@[6] == t),
                Icon::Cloudy => assert(r@[7] == t),
                Icon::PartlyCloudyDay => assert(r@[8] == t),
                Icon::PartlyCloudyNight => assert(r@[9] == t),
                Icon::Hail => assert(r@[10] == t),
                Icon::Thunderstorm => assert(r@[11] == t),
                Icon::Tornado => assert(r@[12] == t),
            }
        }
        r
    }

    /// Reads an icon from its wire tag.
    pub fn from_wire(s: &str) -> (r: Result<Icon, UnrecognizedTag>)
        ensures
            match r {
                Ok(t) => t.wire() == s@,
                Err(e) => e.tag@ == s@ && forall|t: Icon| t.wire() != s@,
            },
    {
        if same_text(s, "clear-day") {
            Ok(Icon::ClearDay)
        } else if same_text(s, "clear-night") {
            Ok(Icon::ClearNight)
        } else if same_text(s, "rain") {
            Ok(Icon::Rain)
        } else if same_text(s, "snow") {
            Ok(Icon::Snow)
        } else if same_text(s, "sleet") {
            Ok(Icon::Sleet)
        } else if same_text(s, "wind") {
            Ok(Icon::Wind)
        } else if same_text(s, "fog") {
            Ok(Icon::Fog)
        } else if same_text(s, "cloudy") {
            Ok(Icon::Cloudy)
        } else if same_text(s, "partly-cloudy-day") {
            Ok(Icon::PartlyCloudyDay)
        } else if same_text(s, "partly-cloudy-night") {
            Ok(Icon::PartlyCloudyNight)
        } else if same_text(s, "hail") {
            Ok(Icon::Hail)
        } else if same_text(s, "thunderstorm") {
            Ok(Icon::Thunderstorm)
        } else if same_text(s, "tornado") {
            Ok(Icon::Tornado)
        } else {
            Err(UnrecognizedTag { tag: s.to_owned() })
        }
    }

    /// No two icons share a wire tag, so reading back the tag of an icon
    /// gives that icon again.
    pub proof fn lemma_wire_injective(a: Icon, b: Icon)
        ensures
            a.wire() == b.wire() <==> a == b,
    {
        reveal_strlit("clear-day");
        assert("clear-day"@ =~= seq!['c', 'l', 'e', 'a', 'r', '-', 'd', 'a', 'y']);
        reveal_strlit("clear-night");
        assert("clear-night"@ =~= seq!['c', 'l', 'e', 'a', 'r', '-', 'n', 'i', 'g', 'h', 't']);
        reveal_strlit("rain");
        assert("rain"@ =~= seq!['r', 'a', 'i', 'n']);
        reveal_strlit("snow");
        assert("snow"@ =~= seq!['s', 'n', 'o', 'w']);
        reveal_strlit("sleet");
        assert("sleet"@ =~= seq!['s', 'l', 'e', 'e', 't']);
        reveal_strlit("wind");
        assert("wind"@ =~= seq!['w', 'i', 'n', 'd']);
        reveal_strlit("fog");
        assert("fog"@ =~= seq!['f', 'o', 'g']);
        reveal_strlit("cloudy");
        assert("cloudy"@ =~= seq!['c', 'l', 'o', 'u', 'd', 'y']);
        reveal_strlit("partly-cloudy-day");
        assert("partly-cloudy-day"@ =~= seq!['p', 'a', 'r', 't', 'l', 'y', '-', 'c', 'l', 'o', 'u', 'd', 'y', '-', 'd', 'a', 'y']);
        reveal_strlit("partly-cloudy-night");
        assert("partly-cloudy-night"@ =~= seq!['p', 'a', 'r', 't', 'l', 'y', '-', 'c', 'l', 'o', 'u', 'd', 'y', '-', 'n', 'i', 'g', 'h', 't']);
        reveal_strlit("hail");
        assert("hail"@ =~= seq!['h', 'a', 'i', 'l']);
        reveal_strlit("thunderstorm");
        assert("thunderstorm"@ =~= seq!['t', 'h', 'u', 'n', 'd', 'e', 'r', 's', 't', 'o', 'r', 'm']);
        reveal_strlit("tornado");
        assert("tornado"@ =~= seq!['t', 'o', 'r', 'n', 'a', 'd', 'o']);
    }
}

/// The kind of precipitation falling at a particular time.
#[derive(Clone, Copy, Debug, PartialEq, Eq, Hash, Structural)]
pub enum PrecipType {
    Rain,
    Snow,
    Sleet,
}

impl PrecipType {
    /// The tag that stands for this precipitation type on the wire.
    pub open spec fn wire(self) -> Seq<char> {
        match self {
            PrecipType::Rain => "rain"@,
            PrecipType::Snow => "snow"@,
            PrecipType::Sleet => "sleet"@,
        }
    }

    /// The wire tag of this precipitation type.
    pub fn as_str(&self) -> (r: &'static str)
        ensures
            r@ == self.wire(),
    {
        match self {
            PrecipType::Rain => "rain",
            PrecipType::Snow => "snow",
            PrecipType::Sleet => "sleet",
        }
    }

    /// Every precipitation type, each once.
    pub fn all() -> (r: Vec<PrecipType>)
        ensures
            r@.len() == 3,
            forall|t: PrecipType| r@.contains(t),
    {
        let r = vec![
            PrecipType::Rain,
            PrecipType::Snow,
            PrecipType::Sleet,
        ];
        assert forall|t: PrecipType| r@.contains(t) by {
            match t {
                PrecipType::Rain => assert(r@[0] == t),
                PrecipType::Snow => assert(r@[1] == t),
                PrecipType::Sleet => assert(r@[2] == t),
            }
        }
        r
    }

    /// Reads a precipitation type from its wire tag.
    pub fn from_wire(s: &str) -> (r: Result<PrecipType, UnrecognizedTag>)
        ensures
            match r {
                Ok(t) => t.wire() == s@,
                Err(e) => e.tag@ == s@ && forall|t: PrecipType| t.wire() != s@,
            },
    {
        if same_text(s, "rain") {
            Ok(PrecipType::Rain)
        } else if same_text(s, "snow") {
            Ok(PrecipType::Snow)
        } else if same_text(s, "sleet") {
            Ok(PrecipType::Sleet)
        } else {
            Err(UnrecognizedTag { tag: s.to_owned() })
        }
    }

    /// No two precipitation types share a wire tag, so reading back the tag of a precipitation type
    /// gives that precipitation type again.
    pub proof fn lemma_wire_injective(a: PrecipType, b: PrecipType)
        ensures
            a.wire() == b.wire() <==> a == b,
    {
        reveal_strlit("rain");
        assert("rain"@ =~= seq!['r', 'a', 'i', 'n']);
        reveal_strlit("snow");
        assert("snow"@ =~= seq!['s', 'n', 'o', 'w']);
        reveal_strlit("sleet");
        assert("sleet"@ =~= seq!['s', 'l', 'e', 'e', 't']);
    }
}

/// A block of the response that a request asks the API to leave out.
#[derive(Clone, Copy, Debug, PartialEq, Eq, Hash, Structural)]
pub enum ExcludeBlock {
    Currently,
    Minutely,
    Hourly,
    Daily,
    Alerts,
    Flags,
}

impl ExcludeBlock {
    /// The tag that stands for this block on the wire.
    pub open spec fn wire(self) -> Seq<char> {
        match self {
            ExcludeBlock::Currently => "currently"@,
            ExcludeBlock::Minutely => "minutely"@,
            ExcludeBlock::Hourly => "hourly"@,
            ExcludeBlock::Daily => "daily"@,
            ExcludeBlock::Alerts => "alerts"@,
            ExcludeBlock::Flags => "flags"@,
        }
    }

    /// The wire tag of this block.
    pub fn as_str(&self) -> (r: &'static str)
        ensures
            r@ == self.wire(),
    {
        match self {
            ExcludeBlock::Currently => "currently",
            ExcludeBlock::Minutely => "minutely",
            ExcludeBlock::Hourly => "hourly",
            ExcludeBlock::Daily => "daily",
            ExcludeBlock::Alerts => "alerts",
            ExcludeBlock::Flags => "flags",
        }
    }

    /// Every block, each once.
    pub fn all() -> (r: Vec<ExcludeBlock>)
        ensures
            r@.len() == 6,
            forall|t: ExcludeBlock| r@.contains(t),
    {
        let r = vec![
            ExcludeBlock::Currently,
            ExcludeBlock::Minutely,
            ExcludeBlock::Hourly,
            ExcludeBlock::Daily,
            ExcludeBlock::Alerts,
            ExcludeBlock::Flags,
        ];
        assert forall|t: ExcludeBlock| r@.contains(t) by {
            match t {
                ExcludeBlock::Currently => assert(r@[0] == t),
                ExcludeBlock::Minutely => assert(r@[1] == t),
                ExcludeBlock::Hourly => assert(r@[2] == t),
                ExcludeBlock::Daily => assert(r@[3] == t),
                ExcludeBlock::Alerts => assert(r@[4] == t),
                ExcludeBlock::Flags => assert(r@[5] == t),
            }
        }
        r
    }

    /// The tag of a block is one to nine characters long, none of them a comma.
    pub proof fn lemma_wire_plain(self)
        ensures
            1 <= self.wire().len() <= 9,
            forall|i: int| 0 <= i < self.wire().len() ==> self.wire()[i] != ',',
    {
        reveal_strlit("currently");
        assert("currently"@ =~= seq!['c', 'u', 'r', 'r', 'e', 'n', 't', 'l', 'y']);
        reveal_strlit("minutely");
        assert("minutely"@ =~= seq!['m', 'i', 'n', 'u', 't', 'e', 'l', 'y']);
        reveal_strlit("hourly");
        assert("hourly"@ =~= seq!['h', 'o', 'u', 'r', 'l', 'y']);
        reveal_strlit("daily");
        assert("daily"@ =~= seq!['d', 'a', 'i', 'l', 'y']);
        reveal_strlit("alerts");
        assert("alerts"@ =~= seq!['a', 'l', 'e', 'r', 't', 's']);
        reveal_strlit("flags");
        assert("flags"@ =~= seq!['f', 'l', 'a', 'g', 's']);
    }
}

/// Asks for hourly data over 168 hours instead of 48.
#[derive(Clone, Copy, Debug, PartialEq, Eq, Hash, Structural)]
pub enum ExtendBy {
    Hourly,
}

impl ExtendBy {
    /// The tag that stands for this extension on the wire.
    pub open spec fn wire(self) -> Seq<char> {
        match self {
            ExtendBy::Hourly => "hourly"@,
        }
    }

    /// The wire tag of this extension.
    pub fn as_str(&self) -> (r: &'static str)
        ensures
            r@ == self.wire(),
    {
        match self {
            ExtendBy::Hourly => "hourly",
        }
    }

    /// Every extension, each once.
    pub fn all() -> (r: Vec<ExtendBy>)
        ensures
            r@.len() == 1,
            forall|t: ExtendBy| r@.contains(t),
    {
        let r = vec![
            ExtendBy::Hourly,
        ];
        assert forall|t: ExtendBy| r@.contains(t) by {
            match t {
                ExtendBy::Hourly => assert(r@[0] == t),
            }
        }
        r
    }

    /// The tag of an extension is one to six characters long, none of them a comma.
    pub proof fn lemma_wire_plain(self)
        ensures
            1 <= self.wire().len() <= 6,
            forall|i: int| 0 <= i < self.wire().len() ==> self.wire()[i] != ',',
    {
        reveal_strlit("hourly");
        assert("hourly"@ =~= seq!['h', 'o', 'u', 'r', 'l', 'y']);
    }
}

/// The language of the summaries in a response.
#[derive(Clone, Copy, Debug, PartialEq, Eq, Hash, Structural)]
pub enum Lang {
    Arabic,
    Azerbaijani,
    Belarusian,
    Bulgarian,
    Bosnian,
    Catalan,
    Czech,
    German,
    Greek,
    English,
    Spanish,
    Estonian,
    French,
    Croatian,
    Hungarian,
    Indonesian,
    Italian,
    Icelandic,
    Georgian,
    Cornish,
    NorwegianBokmal,
    Dutch,
    Polish,
    Portugese,
    Russian,
    Slovak,
    Serbian,
    Swedish,
    Tetum,
    Turkish,
    Ukranian,
    IgpayAtinlay,
    SimplifiedChinese,
    TraditionalChinese,
}

impl Lang {
    /// The tag that stands for this language on the wire.
    pub open spec fn wire(self) -> Seq<char> {
        match self {
            Lang::Arabic => "ar"@,
            Lang::Azerbaijani => "az"@,
            Lang::Belarusian => "be"@,
            Lang::Bulgarian => "bg"@,
            Lang::Bosnian => "bs"@,
            Lang::Catalan => "ca"@,
            Lang::Czech => "cz"@,
            Lang::German => "de"@,
            Lang::Greek => "el"@,
            Lang::English => "en"@,
            Lang::Spanish => "es"@,
            Lang::Estonian => "et"@,
            Lang::French => "fr"@,
            Lang::Croatian => "hr"@,
            Lang::Hungarian => "hu"@,
            Lang::Indonesian => "id"@,
            Lang::Italian => "it"@,
            Lang::Icelandic => "is"@,
            Lang::Georgian => "ka"@,
            Lang::Cornish => "kw"@,
            Lang::NorwegianBokmal => "nb"@,
            Lang::Dutch => "nl"@,
            Lang::Polish => "pl"@,
            Lang::Portugese => "pt"@,
            Lang::Russian => "ru"@,
            Lang::Slovak => "sk"@,
            Lang::Serbian => "sr"@,
            Lang::Swedish => "sv"@,
            Lang::Tetum => "tet"@,
            Lang::Turkish => "tr"@,
            Lang::Ukranian => "uk"@,
            Lang::IgpayAtinlay => "x-pig-latin"@,
            Lang::SimplifiedChinese => "zh"@,
            Lang::TraditionalChinese => "zh-tw"@,
        }
    }

    /// The wire tag of this language.
    pub fn as_str(&self) -> (r: &'static str)
        ensures
            r@ == self.wire(),
    {
        match self {
            Lang::Arabic => "ar",
            Lang::Azerbaijani => "az",
            Lang::Belarusian => "be",
            Lang::Bulgarian => "bg",
            Lang::Bosnian => "bs",
            Lang::Catalan => "ca",
            Lang::Czech => "cz",
            Lang::German => "de",
            Lang::Greek => "el",
            Lang::English => "en",
            Lang::Spanish => "es",
            Lang::Estonian => "et",
            Lang::French => "fr",
            Lang::Croatian => "hr",
            Lang::Hungarian => "hu",
            Lang::Indonesian => "id",
            Lang::Italian => "it",
            Lang::Icelandic => "is",
            Lang::Georgian => "ka",
            Lang::Cornish => "kw",
            Lang::NorwegianBokmal => "nb",
            Lang::Dutch => "nl",
            Lang::Polish => "pl",
            Lang::Portugese => "pt",
            Lang::Russian => "ru",
            Lang::Slovak => "sk",
            Lang::Serbian => "sr",
            Lang::Swedish => "sv",
            Lang::Tetum => "tet",
            Lang::Turkish => "tr",
            Lang::Ukranian => "uk",
            Lang::IgpayAtinlay => "x-pig-latin",
            Lang::SimplifiedChinese => "zh",
            Lang::TraditionalChinese => "zh-tw",
        }
    }

    /// Every language, each once.
    pub fn all() -> (r: Vec<Lang>)
        ensures
            r@.len() == 34,
            forall|t: Lang| r@.contains(t),
    {
        let r = vec![
            Lang::Arabic,
            Lang::Azerbaijani,
            Lang::Belarusian,
            Lang::Bulgarian,
            Lang::Bosnian,
            Lang::Catalan,
            Lang::Czech,
            Lang::German,
            Lang::Greek,
            Lang::English,
            Lang::Spanish,
            Lang::Estonian,
            Lang::French,
            Lang::Croatian,
            Lang::Hungarian,
            Lang::Indonesian,
            Lang::Italian,
            Lang::Icelandic,
            Lang::Georgian,
            Lang::Cornish,
            Lang::NorwegianBokmal,
            Lang::Dutch,
            Lang::Polish,
            Lang::Portugese,
            Lang::Russian,
            Lang::Slovak,
            Lang::Serbian,
            Lang::Swedish,
            Lang::Tetum,
            Lang::Turkish,
            Lang::Ukranian,
            Lang::IgpayAtinlay,
            Lang::SimplifiedChinese,
            Lang::TraditionalChinese,
        ];
        assert forall|t: Lang| r@.contains(t) by {
            match t {
                Lang::Arabic => assert(r@[0] == t),
                Lang::Azerbaijani => assert(r@[1] == t),
                Lang::Belarusian => assert(r@[2] == t),
                Lang::Bulgarian => assert(r@[3] == t),
                Lang::Bosnian => assert(r@[4] == t),
                Lang::Catalan => assert(r@[5] == t),
                Lang::Czech => assert(r@[6] == t),
                Lang::German => assert(r@[7] == t),
                Lang::Greek => assert(r@[8] == t),
                Lang::English => assert(r@[9] == t),
                Lang::Spanish => assert(r@[10] == t),
                Lang::Estonian => assert(r@[11] == t),
                Lang::French => assert(r@[12] == t),
                Lang::Croatian => assert(r@[13] == t),
                Lang::Hungarian => assert(r@[14] == t),
                Lang::Indonesian => assert(r@[15] == t),
                Lang::Italian => assert(r@[16] == t),
                Lang::Icelandic => assert(r@[17] == t),
                Lang::Georgian => assert(r@[18] == t),
                Lang::Cornish => assert(r@[19] == t),
                Lang::NorwegianBokmal => assert(r@[20] == t),
                Lang::Dutch => assert(r@[21] == t),
                Lang::Polish => assert(r@[22] == t),
                Lang::Portugese => assert(r@[23] == t),
                Lang::Russian => assert(r@[24] == t),
                Lang::Slovak => assert(r@[25] == t),
                Lang::Serbian => assert(r@[26] == t),
                Lang::Swedish => assert(r@[27] == t),
                Lang::Tetum => assert(r@[28] == t),
                Lang::Turkish => assert(r@[29] == t),
                Lang::Ukranian => assert(r@[30] == t),
                Lang::IgpayAtinlay => assert(r@[31] == t),
                Lang::SimplifiedChinese => assert(r@[32] == t),
                Lang::TraditionalChinese => assert(r@[33] == t),
            }
        }
        r
    }

    /// The tag of a language is one to eleven characters long, none of them a comma.
    pub proof fn lemma_wire_plain(self)
        ensures
            1 <= self.wire().len() <= 11,
            forall|i: int| 0 <= i < self.wire().len() ==> self.wire()[i] != ',',
    {
        reveal_strlit("ar");
        assert("ar"@ =~= seq!['a', 'r']);
        reveal_strlit("az");
        assert("az"@ =~= seq!['a', 'z']);
        reveal_strlit("be");
        assert("be"@ =~= seq!['b', 'e']);
        reveal_strlit("bg");
        assert("bg"@ =~= seq!['b', 'g']);
        reveal_strlit("bs");
        assert("bs"@ =~= seq!['b', 's']);
        reveal_strlit("ca");
        assert("ca"@ =~= seq!['c', 'a']);
        reveal_strlit("cz");
        assert("cz"@ =~= seq!['c', 'z']);
        reveal_strlit("de");
        assert("de"@ =~= seq!['d', 'e']);
        reveal_strlit("el");
        assert("el"@ =~= seq!['e', 'l']);
        reveal_strlit("en");
        assert("en"@ =~= seq!['e', 'n']);
        reveal_strlit("es");
        assert("es"@ =~= seq!['e', 's']);
        reveal_strlit("et");
        assert("et"@ =~= seq!['e', 't']);
        reveal_strlit("fr");
        assert("fr"@ =~= seq!['f', 'r']);
        reveal_strlit("hr");
        assert("hr"@ =~= seq!['h', 'r']);
        reveal_strlit("hu");
        assert("hu"@ =~= seq!['h', 'u']);
        reveal_strlit("id");
        assert("id"@ =~= seq!['i', 'd']);
        reveal_strlit("it");
        assert("it"@ =~= seq!['i', 't']);
        reveal_strlit("is");
        assert("is"@ =~= seq!['i', 's']);
        reveal_strlit("ka");
        assert("ka"@ =~= seq!['k', 'a']);
        reveal_strlit("kw");
        assert("kw"@ =~= seq!['k', 'w']);
        reveal_strlit("nb");
        assert("nb"@ =~= seq!['n', 'b']);
        reveal_strlit("nl");
        assert("nl"@ =~= seq!['n', 'l']);
        reveal_strlit("pl");
        assert("pl"@ =~= seq!['p', 'l']);
        reveal_strlit("pt");
        assert("pt"@ =~= seq!['p', 't']);
        reveal_strlit("ru");
        assert("ru"@ =~= seq!['r', 'u']);
        reveal_strlit("sk");
        assert("sk"@ =~= seq!['s', 'k']);
        reveal_strlit("sr");
        assert("sr"@ =~= seq!['s', 'r']);
        reveal_strlit("sv");
        assert("sv"@ =~= seq!['s', 'v']);
        reveal_strlit("tet");
        assert("tet"@ =~= seq!['t', 'e', 't']);
        reveal_strlit("tr");
        assert("tr"@ =~= seq!['t', 'r']);
        reveal_strlit("uk");
        assert("uk"@ =~= seq!['u', 'k']);
        reveal_strlit("x-pig-latin");
        assert("x-pig-latin"@ =~= seq!['x', '-', 'p', 'i', 'g', '-', 'l', 'a', 't', 'i', 'n']);
        reveal_strlit("zh");
        assert("zh"@ =~= seq!['z', 'h']);
        reveal_strlit("zh-tw");
        assert("zh-tw"@ =~= seq!['z', 'h', '-', 't', 'w']);
    }
}

/// The system of measurement units of a response.
#[derive(Clone, Copy, Debug, PartialEq, Eq, Hash, Structural)]
pub enum Units {
    Auto,
    CA,
    UK,
    Imperial,
    SI,
}

impl Units {
    /// The tag that stands for this unit system on the wire.
    pub open spec fn wire(self) -> Seq<char> {
        match self {
            Units::Auto => "auto"@,
            Units::CA => "ca"@,
            Units::UK => "uk2"@,
            Units::Imperial => "us"@,
            Units::SI => "si"@,
        }
    }

    /// The wire tag of this unit system.
    pub fn as_str(&self) -> (r: &'static str)
        ensures
            r@ == self.wire(),
    {
        match self {
            Units::Auto => "auto",
            Units::CA => "ca",
            Units::UK => "uk2",
            Units::Imperial => "us",
            Units::SI => "si",
        }
    }

    /// Every unit system, each once.
    pub fn all() -> (r: Vec<Units>)
        ensures
            r@.len() == 5,
            forall|t: Units| r@.contains(t),
    {
        let r = vec![
            Units::Auto,
            Units::CA,
            Units::UK,
            Units::Imperial,
            Units::SI,
        ];
        assert forall|t: Units| r@.contains(t) by {
            match t {
                Units::Auto => assert(r@[0] == t),
                Units::CA => assert(r@[1] == t),
                Units::UK => assert(r@[2] == t),
                Units::Imperial => assert(r@[3] == t),
                Units::SI => assert(r@[4] == t),
            }
        }
        r
    }

    /// Reads a unit system from its wire tag.
    pub fn from_wire(s: &str) -> (r: Result<Units, UnrecognizedTag>)
        ensures
            match r {
                Ok(t) => t.wire() == s@,
                Err(e) => e.tag@ == s@ && forall|t: Units| t.wire() != s@,
            },
    {
        if same_text(s, "auto") {
            Ok(Units::Auto)
        } else if same_text(s, "ca") {
            Ok(Units::CA)
        } else if same_text(s, "uk2") {
            Ok(Units::UK)
        } else if same_text(s, "us") {
            Ok(Units::Imperial)
        } else if same_text(s, "si") {
            Ok(Units::SI)
        } else {
            Err(UnrecognizedTag { tag: s.to_owned() })
        }
    }

    /// No two unit systems share a wire tag, so reading back the tag of a unit system
    /// gives that unit system again.
    pub proof fn lemma_wire_injective(a: Units, b: Units)
        ensures
            a.wire() == b.wire() <==> a == b,
    {
        reveal_strlit("auto");
        assert("auto"@ =~= seq!['a', 'u', 't', 'o']);
        reveal_strlit("ca");
        assert("ca"@ =~= seq!['c', 'a']);
        reveal_strlit("uk2");
        assert("uk2"@ =~= seq!['u', 'k', '2']);
        reveal_strlit("us");
        assert("us"@ =~= seq!['u', 's']);
        reveal_strlit("si");
        assert("si"@ =~= seq!['s', 'i']);
    }

    /// The tag of a unit system is one to four characters long, none of them a comma.
    pub proof fn lemma_wire_plain(self)
        ensures
            1 <= self.wire().len() <= 4,
            forall|i: int| 0 <= i < self.wire().len() ==> self.wire()[i] != ',',
    {
        reveal_strlit("auto");
        assert("auto"@ =~= seq!['a', 'u', 't', 'o']);
        reveal_strlit("ca");
        assert("ca"@ =~= seq!['c', 'a']);
        reveal_strlit("uk2");
        assert("uk2"@ =~= seq!['u', 'k', '2']);
        reveal_strlit("us");
        assert("us"@ =~= seq!['u', 's']);
        reveal_strlit("si");
        assert("si"@ =~= seq!['s', 'i']);
    }
}

/// The severity of a weather alert.
#[derive(Clone, Copy, Debug, PartialEq, Eq, Hash, Structural)]
pub enum Severity {
    Advisory,
    Watch,
    Warning,
}

impl Severity {
    /// The tag that stands for this severity on the wire.
    pub open spec fn wire(self) -> Seq<char> {
        match self {
            Severity::Advisory => "advisory"@,
            Severity::Watch => "watch"@,
            Severity::Warning => "warning"@,
        }
    }

    /// The wire tag of this severity.
    pub fn as_str(&self) -> (r: &'static str)
        ensures
            r@ == self.wire(),
    {
        match self {
            Severity::Advisory => "advisory",
            Severity::Watch => "watch",
            Severity::Warning => "warning",
        }
    }

    /// Every severity, each once.
    pub fn all() -> (r: Vec<Severity>)
        ensures
            r@.len() == 3,
            forall|t: Severity| r@.contains(t),
    {
        let r = vec![
            Severity::Advisory,
            Severity::Watch,
            Severity::Warning,
        ];
        assert forall|t: Severity| r@.contains(t) by {
            match t {
                Severity::Advisory => assert(r@[0] == t),
                Severity::Watch => assert(r@[1] == t),
                Severity::Warning => assert(r@[2] == t),
            }
        }
        r
    }

    /// Reads a severity from its wire tag.
    pub fn from_wire(s: &str) -> (r: Result<Severity, UnrecognizedTag>)
        ensures
            match r {
                Ok(t) => t.wire() == s@,
                Err(e) => e.tag@ == s@ && forall|t: Severity| t.wire() != s@,
            },
    {
        if same_text(s, "advisory") {
            Ok(Severity::Advisory)
        } else if same_text(s, "watch") {
            Ok(Severity::Watch)
        } else if same_text(s, "warning") {
            Ok(Severity::Warning)
        } else {
            Err(UnrecognizedTag { tag: s.to_owned() })
        }
    }

    /// No two severitys share a wire tag, so reading back the tag of a severity
    /// gives that severity again.
    pub proof fn lemma_wire_injective(a: Severity, b: Severity)
        ensures
            a.wire() == b.wire() <==> a == b,
    {
        reveal_strlit("advisory");
        assert("advisory"@ =~= seq!['a', 'd', 'v', 'i', 's', 'o', 'r', 'y']);
        reveal_strlit("watch");
        assert("watch"@ =~= seq!['w', 'a', 't', 'c', 'h']);
        reveal_strlit("warning");
        assert("warning"@ =~= seq!['w', 'a', 'r', 'n', 'i', 'n', 'g']);
    }
}

} // verus!
