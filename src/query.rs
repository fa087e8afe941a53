//! The path and query of a request URL, and the calls that assemble them.

use vstd::prelude::*;

use crate::coordinate::Coordinate;
use crate::tags::{ExcludeBlock, ExtendBy, Lang, Units};
use crate::text::{decimal, lemma_decimal_len_u64, push_decimal};

verus! {

/// The endpoint that every request path starts with.
pub const FORECAST_URL: &'static str = "https://api.darksky.net/forecast";

/// The query key of the blocks that a request leaves out.
pub const EXCLUDE: &'static str = "exclude";

/// The query key of the extended time range.
pub const EXTEND: &'static str = "extend";

/// The query key of the language.
pub const LANG: &'static str = "lang";

/// The query key of the unit system.
pub const UNITS: &'static str = "units";

/// The most characters of API key that a request is built with. A URL keeps
/// its offsets in 32 bits, and each character may be written as twelve bytes.
pub const MAX_API_KEY_CHARS: usize = 0x0100_0000;

/// The most exclusions that a request is built with, for the same reason.
pub const MAX_EXCLUSIONS: usize = 0x0010_0000;

/// The most characters of the text that a URL is parsed from.
pub const MAX_URL_INPUT_CHARS: usize = 0x0200_0000;

/// The most characters of a query value.
pub const MAX_QUERY_VALUE_CHARS: usize = 0x0100_0000;

/// `parts` written one after another, with `sep` between each two.
pub open spec fn joined(parts: Seq<Seq<char>>, sep: Seq<char>) -> Seq<char>
    decreases parts.len(),
{
    if parts.len() == 0 {
        seq![]
    } else if parts.len() == 1 {
        parts[0]
    } else {
        joined(parts.drop_last(), sep) + sep + parts.last()
    }
}

/// The wire tags of `tags`, in order.
pub open spec fn exclude_tags(tags: Seq<ExcludeBlock>) -> Seq<Seq<char>> {
    tags.map_values(|t: ExcludeBlock| t.wire())
}

/// The query value that lists the blocks `tags` leave out: their wire tags,
/// in the order given, separated by commas.
pub open spec fn exclude_value(tags: Seq<ExcludeBlock>) -> Seq<char> {
    joined(exclude_tags(tags), seq![','])
}

/// The query parameter of an optional value: one pair where it is set, none
/// where it is not.
pub open spec fn optional_pair(key: Seq<char>, value: Option<Seq<char>>) -> Seq<(Seq<char>, Seq<char>)> {
    match value {
        Some(v) => seq![(key, v)],
        None => seq![],
    }
}

/// The query parameters of a request, in order: the excluded blocks where
/// there are any, then the extension, the language and the units where set.
pub open spec fn query_params(
    exclude: Seq<ExcludeBlock>,
    extend: Option<ExtendBy>,
    lang: Option<Lang>,
    units: Option<Units>,
) -> Seq<(Seq<char>, Seq<char>)> {
    (if exclude.len() == 0 {
        seq![]
    } else {
        seq![(EXCLUDE@, exclude_value(exclude))]
    }) + optional_pair(
        EXTEND@,
        match extend {
            Some(e) => Some(e.wire()),
            None => None,
        },
    ) + optional_pair(
        LANG@,
        match lang {
            Some(l) => Some(l.wire()),
            None => None,
        },
    ) + optional_pair(
        UNITS@,
        match units {
            Some(u) => Some(u.wire()),
            None => None,
        },
    )
}

/// The path of a current-conditions request: the endpoint, the API key, and
/// the latitude and longitude separated by a comma.
pub open spec fn forecast_path(api_key: Seq<char>, latitude: Coordinate, longitude: Coordinate) -> Seq<char> {
    FORECAST_URL@ + seq!['/'] + api_key + seq!['/'] + latitude.fixed_text() + seq![',']
        + longitude.fixed_text()
}

/// The path of a time machine request: that of a current-conditions request
/// followed by a comma and the time.
pub open spec fn time_machine_path(
    api_key: Seq<char>,
    latitude: Coordinate,
    longitude: Coordinate,
    time: u64,
) -> Seq<char> {
    forecast_path(api_key, latitude, longitude) + seq![','] + decimal(time as nat)
}

/// At most four query parameters, each with a key of at most sixteen
/// characters and a value of at most `MAX_QUERY_VALUE_CHARS`.
pub open spec fn params_fit(params: Seq<(Seq<char>, Seq<char>)>) -> bool {
    &&& params.len() <= 4
    &&& forall|i: int|
        0 <= i < params.len() ==> #[trigger] params[i].0.len() <= 16 && params[i].1.len()
            <= MAX_QUERY_VALUE_CHARS
}

/// The serialization of the URL parsed from `input` with `params` appended
/// to its query, or `None` where `input` is no absolute URL.
pub uninterp spec fn parsed_with_params(
    input: Seq<char>,
    params: Seq<(Seq<char>, Seq<char>)>,
) -> Option<Seq<char>>;

/// Relies on `url::Url::parse_with_params` (which reqwest re-exports as
/// `reqwest::Url`): it parses `input` as an absolute URL, appends each pair
/// of `params`, form-encoded, to its query, and depends on its arguments
/// alone. Its offsets are 32-bit and it panics past them, hence the bounds.
#[verifier::external_body]
fn parse_with_params(input: &str, params: &Vec<(String, String)>) -> (r: Option<String>)
    requires
        input@.len() <= MAX_URL_INPUT_CHARS,
        params_fit(params.deep_view()),
    ensures
        r.deep_view() == parsed_with_params(input@, params.deep_view()),
{
    reqwest::Url::parse_with_params(input, params).ok().map(String::from)
}

/// Relies on `itertools::join`: it writes each part after the other, with
/// `sep` between each two.
#[verifier::external_body]
fn join(parts: &Vec<&str>, sep: &str) -> (r: String)
    ensures
        r@ == joined(parts.deep_view(), sep@),
{
    itertools::join(parts, sep)
}

/// Each part at most `k` characters long makes the joined text at most
/// `k + sep.len()` characters per part.
pub proof fn lemma_joined_len(parts: Seq<Seq<char>>, sep: Seq<char>, k: nat)
    requires
        forall|i: int| 0 <= i < parts.len() ==> #[trigger] parts[i].len() <= k,
    ensures
        joined(parts, sep).len() <= parts.len() * (k + sep.len()),
    decreases parts.len(),
{
    if parts.len() > 1 {
        let init = parts.drop_last();
        assert forall|i: int| 0 <= i < init.len() implies #[trigger] init[i].len() <= k by {
            assert(init[i] == parts[i]);
        }
        lemma_joined_len(init, sep, k);
        assert(parts.len() * (k + sep.len()) == init.len() * (k + sep.len()) + (k + sep.len()))
            by (nonlinear_arith)
            requires
                parts.len() == init.len() + 1,
        ;
    } else if parts.len() == 1 {
        assert(parts[0].len() <= k);
    }
}

/// The query value of `tags` is at most ten characters per tag.
pub proof fn lemma_exclude_value_len(tags: Seq<ExcludeBlock>)
    ensures
        exclude_value(tags).len() <= 10 * tags.len(),
{
    let parts = exclude_tags(tags);
    assert forall|i: int| 0 <= i < parts.len() implies #[trigger] parts[i].len() <= 9 by {
        tags[i].lemma_wire_plain();
        assert(parts[i] == tags[i].wire());
    }
    lemma_joined_len(parts, seq![','], 9);
    let sep = seq![','];
    assert(sep.len() == 1);
    assert(parts.len() == tags.len());
    assert(parts.len() * (9 + sep.len()) == 10 * tags.len()) by (nonlinear_arith)
        requires
            sep.len() == 1,
            parts.len() == tags.len(),
    ;
}

/// The query parameters of a request fit the bounds of a URL.
proof fn lemma_query_params_fit(
    exclude: Seq<ExcludeBlock>,
    extend: Option<ExtendBy>,
    lang: Option<Lang>,
    units: Option<Units>,
)
    requires
        exclude.len() <= MAX_EXCLUSIONS,
    ensures
        params_fit(query_params(exclude, extend, lang, units)),
{
    reveal_strlit("exclude");
    reveal_strlit("extend");
    reveal_strlit("lang");
    reveal_strlit("units");
    lemma_exclude_value_len(exclude);
    let a = if exclude.len() == 0 {
        seq![]
    } else {
        seq![(EXCLUDE@, exclude_value(exclude))]
    };
    let b = optional_pair(
        EXTEND@,
        match extend {
            Some(e) => Some(e.wire()),
            None => None,
        },
    );
    let c = optional_pair(
        LANG@,
        match lang {
            Some(l) => Some(l.wire()),
            None => None,
        },
    );
    let d = optional_pair(
        UNITS@,
        match units {
            Some(u) => Some(u.wire()),
            None => None,
        },
    );
    if let Some(e) = extend {
        e.lemma_wire_plain();
    }
    if let Some(l) = lang {
        l.lemma_wire_plain();
    }
    if let Some(u) = units {
        u.lemma_wire_plain();
    }
    assert(EXCLUDE@.len() == 7);
    assert(EXTEND@.len() == 6);
    assert(LANG@.len() == 4);
    assert(UNITS@.len() == 5);
    assert(params_fit(a));
    assert(params_fit(b));
    assert(params_fit(c));
    assert(params_fit(d));
    let q = query_params(exclude, extend, lang, units);
    assert(q == a + b + c + d);
    assert forall|i: int| 0 <= i < q.len() implies #[trigger] q[i].0.len() <= 16 && q[i].1.len()
        <= MAX_QUERY_VALUE_CHARS by {
        if i < a.len() {
            assert(q[i] == a[i]);
        } else if i < a.len() + b.len() {
            assert(q[i] == b[i - a.len()]);
        } else if i < a.len() + b.len() + c.len() {
            assert(q[i] == c[i - a.len() - b.len()]);
        } else {
            assert(q[i] == d[i - a.len() - b.len() - c.len()]);
        }
    }
}

/// The query value that lists the blocks `exclude` leaves out.
pub fn exclude_text(exclude: &Vec<ExcludeBlock>) -> (r: String)
    ensures
        r@ == exclude_value(exclude@),
{
    let mut parts: Vec<&str> = Vec::new();
    let mut i: usize = 0;
    while i < exclude.len()
        invariant
            i <= exclude@.len(),
            parts.deep_view() == exclude_tags(exclude@.subrange(0, i as int)),
        decreases exclude@.len() - i,
    {
        let tag = exclude[i].as_str();
        let ghost prev = parts.deep_view();
        parts.push(tag);
        assert(parts.deep_view() =~= prev.push(tag@));
        assert(exclude_tags(exclude@.subrange(0, i + 1)) =~= exclude_tags(
            exclude@.subrange(0, i as int),
        ).push(exclude@[i as int].wire()));
        i = i + 1;
    }
    assert(exclude@.subrange(0, i as int) =~= exclude@);
    proof {
        reveal_strlit(",");
    }
    assert(","@ =~= seq![',']);
    join(&parts, ",")
}

/// Appends the query parameter of an optional value to `pairs`.
fn push_optional(pairs: &mut Vec<(String, String)>, key: &str, value: Option<&str>)
    ensures
        final(pairs).deep_view() == old(pairs).deep_view() + optional_pair(
            key@,
            match value {
                Some(v) => Some(v@),
                None => None,
            },
        ),
{
    match value {
        Some(v) => {
            pairs.push((key.to_owned(), v.to_owned()));
            assert(final(pairs).deep_view() =~= old(pairs).deep_view() + seq![(key@, v@)]);
        },
        None => {
            assert(final(pairs).deep_view() =~= old(pairs).deep_view());
        },
    }
}

/// The query parameters of a request, in order.
pub fn query_pairs(
    exclude: &Vec<ExcludeBlock>,
    extend: Option<ExtendBy>,
    lang: Option<Lang>,
    units: Option<Units>,
) -> (r: Vec<(String, String)>)
    ensures
        r.deep_view() == query_params(exclude@, extend, lang, units),
{
    let mut pairs: Vec<(String, String)> = Vec::new();
    if exclude.len() > 0 {
        let value = exclude_text(exclude);
        pairs.push((EXCLUDE.to_owned(), value));
    }
    assert(pairs.deep_view() =~= (if exclude@.len() == 0 {
        seq![]
    } else {
        seq![(EXCLUDE@, exclude_value(exclude@))]
    }));
    push_optional(
        &mut pairs,
        EXTEND,
        match extend {
            Some(e) => Some(e.as_str()),
            None => None,
        },
    );
    push_optional(
        &mut pairs,
        LANG,
        match lang {
            Some(l) => Some(l.as_str()),
            None => None,
        },
    );
    push_optional(
        &mut pairs,
        UNITS,
        match units {
            Some(u) => Some(u.as_str()),
            None => None,
        },
    );
    pairs
}

/// The path of a current-conditions request.
pub fn forecast_path_text(api_key: &str, latitude: &Coordinate, longitude: &Coordinate) -> (r: String)
    ensures
        r@ == forecast_path(api_key@, *latitude, *longitude),
{
    let mut r = FORECAST_URL.to_owned();
    r.append("/");
    r.append(api_key);
    r.append("/");
    latitude.write_fixed(&mut r);
    r.append(",");
    longitude.write_fixed(&mut r);
    proof {
        reveal_strlit("/");
        reveal_strlit(",");
    }
    assert(r@ =~= forecast_path(api_key@, *latitude, *longitude));
    r
}

/// The path of a time machine request.
pub fn time_machine_path_text(
    api_key: &str,
    latitude: &Coordinate,
    longitude: &Coordinate,
    time: u64,
) -> (r: String)
    ensures
        r@ == time_machine_path(api_key@, *latitude, *longitude, time),
{
    let mut r = forecast_path_text(api_key, latitude, longitude);
    r.append(",");
    push_decimal(&mut r, time);
    proof {
        reveal_strlit(",");
    }
    assert(r@ =~= time_machine_path(api_key@, *latitude, *longitude, time));
    r
}

/// Joining two non-empty runs of parts one after the other gives the
/// joined first run, the separator, and the joined second run.
pub proof fn lemma_joined_append(a: Seq<Seq<char>>, b: Seq<Seq<char>>, sep: Seq<char>)
    requires
        a.len() > 0,
        b.len() > 0,
    ensures
        joined(a + b, sep) == joined(a, sep) + sep + joined(b, sep),
    decreases b.len(),
{
    if b.len() == 1 {
        assert((a + b).drop_last() =~= a);
        assert((a + b).last() == b[0]);
    } else {
        assert((a + b).drop_last() =~= a + b.drop_last());
        assert((a + b).last() == b.last());
        lemma_joined_append(a, b.drop_last(), sep);
        assert(joined(a + b, sep) =~= joined(a, sep) + sep + joined(b, sep));
    }
}

/// A join of non-empty parts starts with the first character of the first
/// part and ends with the last character of the last part.
pub proof fn lemma_joined_edges(parts: Seq<Seq<char>>, sep: Seq<char>)
    requires
        parts.len() > 0,
        forall|i: int| 0 <= i < parts.len() ==> #[trigger] parts[i].len() > 0,
    ensures
        joined(parts, sep).len() > 0,
        joined(parts, sep)[0] == parts[0][0],
        joined(parts, sep).last() == parts.last().last(),
    decreases parts.len(),
{
    if parts.len() > 1 {
        let init = parts.drop_last();
        assert forall|i: int| 0 <= i < init.len() implies #[trigger] init[i].len() > 0 by {
            assert(init[i] == parts[i]);
        }
        lemma_joined_edges(init, sep);
        assert(parts.last().len() > 0);
    }
}

/// Blocks added after others are listed after them: the query value of
/// two runs of blocks is the value of the first run, a comma, and the value
/// of the second.
pub proof fn lemma_exclude_value_in_order(tags: Seq<ExcludeBlock>, more: Seq<ExcludeBlock>)
    requires
        tags.len() > 0,
        more.len() > 0,
    ensures
        exclude_value(tags + more) == exclude_value(tags) + seq![','] + exclude_value(more),
{
    assert(exclude_tags(tags + more) =~= exclude_tags(tags) + exclude_tags(more));
    lemma_joined_append(exclude_tags(tags), exclude_tags(more), seq![',']);
}

/// The query value of blocks neither starts nor ends with a comma, and
/// it lists one tag per block: each tag is followed by a comma, except the
/// last.
pub proof fn lemma_exclude_value_shape(tags: Seq<ExcludeBlock>)
    requires
        tags.len() > 0,
    ensures
        exclude_value(tags).len() > 0,
        exclude_value(tags)[0] != ',',
        exclude_value(tags).last() != ',',
        tags.len() == 1 ==> exclude_value(tags) == tags[0].wire(),
        tags.len() > 1 ==> exclude_value(tags) == exclude_value(tags.drop_last()) + seq![',']
            + tags.last().wire(),
{
    let parts = exclude_tags(tags);
    assert forall|i: int| 0 <= i < parts.len() implies #[trigger] parts[i].len() > 0 by {
        tags[i].lemma_wire_plain();
    }
    lemma_joined_edges(parts, seq![',']);
    tags[0].lemma_wire_plain();
    tags.last().lemma_wire_plain();
    assert(parts[0] == tags[0].wire());
    assert(parts.last() == tags.last().wire());
    if tags.len() > 1 {
        assert(parts.drop_last() =~= exclude_tags(tags.drop_last()));
    }
}

/// A request with no optional parameter has no query parameter.
pub proof fn lemma_no_options_no_query()
    ensures
        query_params(Seq::<ExcludeBlock>::empty(), None, None, None)
            == Seq::<(Seq<char>, Seq<char>)>::empty(),
{
    assert(query_params(Seq::<ExcludeBlock>::empty(), None, None, None)
        =~= Seq::<(Seq<char>, Seq<char>)>::empty());
}

/// The URL of a current-conditions request: its path, followed by its
/// query parameters; `None` where the path does not parse as a URL.
pub fn forecast_url(
    api_key: &str,
    latitude: &Coordinate,
    longitude: &Coordinate,
    exclude: &Vec<ExcludeBlock>,
    extend: Option<ExtendBy>,
    lang: Option<Lang>,
    units: Option<Units>,
) -> (r: Option<String>)
    requires
        api_key@.len() <= MAX_API_KEY_CHARS,
        exclude@.len() <= MAX_EXCLUSIONS,
    ensures
        r.deep_view() == parsed_with_params(
            forecast_path(api_key@, *latitude, *longitude),
            query_params(exclude@, extend, lang, units),
        ),
{
    let path = forecast_path_text(api_key, latitude, longitude);
    let pairs = query_pairs(exclude, extend, lang, units);
    proof {
        lemma_forecast_path_len(api_key@, *latitude, *longitude);
        lemma_query_params_fit(exclude@, extend, lang, units);
    }
    parse_with_params(path.as_str(), &pairs)
}

/// The URL of a time machine request: its path, followed by its query
/// parameters; `None` where the path does not parse as a URL.
pub fn time_machine_url(
    api_key: &str,
    latitude: &Coordinate,
    longitude: &Coordinate,
    time: u64,
    exclude: &Vec<ExcludeBlock>,
    lang: Option<Lang>,
    units: Option<Units>,
) -> (r: Option<String>)
    requires
        api_key@.len() <= MAX_API_KEY_CHARS,
        exclude@.len() <= MAX_EXCLUSIONS,
    ensures
        r.deep_view() == parsed_with_params(
            time_machine_path(api_key@, *latitude, *longitude, time),
            query_params(exclude@, None, lang, units),
        ),
{
    let path = time_machine_path_text(api_key, latitude, longitude, time);
    let pairs = query_pairs(exclude, None, lang, units);
    proof {
        lemma_forecast_path_len(api_key@, *latitude, *longitude);
        lemma_decimal_len_u64(time);
        lemma_query_params_fit(exclude@, None, lang, units);
    }
    parse_with_params(path.as_str(), &pairs)
}

/// The path of a current-conditions request is at most 112 characters
/// longer than its API key.
proof fn lemma_forecast_path_len(api_key: Seq<char>, latitude: Coordinate, longitude: Coordinate)
    ensures
        forecast_path(api_key, latitude, longitude).len() <= api_key.len() + 112,
{
    reveal_strlit("https://api.darksky.net/forecast");
    assert(FORECAST_URL@.len() == 32);
    latitude.lemma_fixed_text_len();
    longitude.lemma_fixed_text_len();
}

} // verus!
