use crate::client::{Client, Request};
use crate::json::{
    holds_key, is_snake_case, item_views, lemma_keys_of_concat, lemma_keys_of_optional,
    member_views, optional_int, optional_member, optional_string, optional_text, text_views, Json,
    JsonView, Member,
};
use vstd::prelude::*;
use vstd::string::StringExecFns;

verus! {

/// The type of a metric.
#[derive(Debug, Clone, Copy, PartialEq, Eq, Structural)]
pub enum Type {
    Count,
    Gauge,
    Rate,
}

impl Type {
    /// The name under which the service knows this metric type.
    pub open spec fn name(self) -> Seq<char> {
        match self {
            Type::Count => "count"@,
            Type::Gauge => "gauge"@,
            Type::Rate => "rate"@,
        }
    }

    pub fn as_str(&self) -> (name: &'static str)
        ensures
            name@ == self.name(),
    {
        match self {
            Type::Count => "count",
            Type::Gauge => "gauge",
            Type::Rate => "rate",
        }
    }

    /// The JSON string that holds this metric type's name.
    pub fn to_json(&self) -> (doc: Json)
        ensures
            doc@ == JsonView::Str(self.name()),
    {
        Json::string(self.as_str())
    }
}

/// One measurement: a value at a time.
///
/// The value is a binary64 floating-point number, held as its IEEE 754 bit
/// pattern.
#[derive(Debug, Clone, Copy)]
pub struct Point {
    // POSIX time in seconds.
    timestamp: u64,
    value_bits: u64,
}

/// The contents of a point.
pub struct PointView {
    pub timestamp: u64,
    pub value_bits: u64,
}

impl PointView {
    /// The document that the service receives for this point: the array of
    /// the timestamp and the value, both as numbers, in this order. It is
    /// never an object.
    pub open spec fn json(self) -> JsonView {
        JsonView::Array(
            seq![JsonView::Int(self.timestamp as int), JsonView::Float(self.value_bits)],
        )
    }
}

impl View for Point {
    type V = PointView;

    closed spec fn view(&self) -> PointView {
        PointView { timestamp: self.timestamp, value_bits: self.value_bits }
    }
}

impl Point {
    /// The point at `timestamp` whose value has the bit pattern `value_bits`.
    pub fn new(timestamp: u64, value_bits: u64) -> (point: Self)
        ensures
            point@ == (PointView { timestamp, value_bits }),
    {
        Self { timestamp, value_bits }
    }

    /// The document that the service receives for this point.
    pub fn to_json(&self) -> (doc: Json)
        ensures
            doc@ == self@.json(),
    {
        let mut items: Vec<Json> = Vec::new();
        items.push(Json::UInt(self.timestamp));
        items.push(Json::Float(self.value_bits));
        assert(item_views(items@) =~= self@.json()->Array_0);
        Json::array(items)
    }
}

/// The contents of `points`, element by element.
pub open spec fn point_views(points: Seq<Point>) -> Seq<PointView> {
    Seq::new(points.len(), |i: int| points[i]@)
}

/// A named, typed, tagged sequence of points that is submitted together.
#[derive(Debug, Clone)]
pub struct Serie {
    // The name of the host that produced the metric.
    host: Option<String>,
    // For a rate or a count, the corresponding interval.
    interval: Option<i64>,
    // The name of the timeseries.
    metric: String,
    points: Vec<Point>,
    tags: Vec<String>,
    dtype: Type,
}

/// The contents of a serie.
pub struct SerieView {
    pub host: Option<Seq<char>>,
    pub interval: Option<i64>,
    pub metric: Seq<char>,
    pub points: Seq<PointView>,
    pub tags: Seq<Seq<char>>,
    pub dtype: Type,
}

impl SerieView {
    /// The serie of this name and type, without host, interval, points or
    /// tags.
    pub open spec fn new(metric: Seq<char>, dtype: Type) -> SerieView {
        SerieView {
            host: None,
            interval: None,
            metric,
            points: Seq::empty(),
            tags: Seq::empty(),
            dtype,
        }
    }

    pub open spec fn set_host(self, host: Seq<char>) -> SerieView {
        SerieView { host: Some(host), ..self }
    }

    pub open spec fn set_interval(self, interval: i64) -> SerieView {
        SerieView { interval: Some(interval), ..self }
    }

    pub open spec fn set_points(self, points: Seq<PointView>) -> SerieView {
        SerieView { points, ..self }
    }

    pub open spec fn add_point(self, point: PointView) -> SerieView {
        SerieView { points: self.points.push(point), ..self }
    }

    pub open spec fn set_tags(self, tags: Seq<Seq<char>>) -> SerieView {
        SerieView { tags, ..self }
    }

    pub open spec fn add_tag(self, tag: Seq<char>) -> SerieView {
        SerieView { tags: self.tags.push(tag), ..self }
    }

    /// The serie after `points` were added one by one, first to last.
    pub open spec fn add_points(self, points: Seq<PointView>) -> SerieView
        decreases points.len(),
    {
        if points.len() == 0 {
            self
        } else {
            self.add_points(points.drop_last()).add_point(points.last())
        }
    }

    /// The serie after `tags` were added one by one, first to last.
    pub open spec fn add_tags(self, tags: Seq<Seq<char>>) -> SerieView
        decreases tags.len(),
    {
        if tags.len() == 0 {
            self
        } else {
            self.add_tags(tags.drop_last()).add_tag(tags.last())
        }
    }

    /// The points as an array of their documents, in order.
    pub open spec fn points_json(self) -> JsonView {
        JsonView::Array(Seq::new(self.points.len(), |i: int| self.points[i].json()))
    }

    /// The document that the service receives for this serie: an object of
    /// the host and the interval where they are set, then the metric's name,
    /// the points, the tags and, under the key `type`, the metric's type.
    /// The tags are written even where there is none.
    pub open spec fn json(self) -> JsonView {
        JsonView::Object(
            optional_member("host"@, JsonView::optional_string(self.host)) + optional_member(
                "interval"@,
                JsonView::optional_int(self.interval),
            ) + seq![
                ("metric"@, JsonView::Str(self.metric)),
                ("points"@, self.points_json()),
                ("tags"@, JsonView::strings(self.tags)),
                ("type"@, JsonView::Str(self.dtype.name())),
            ],
        )
    }
}

impl View for Serie {
    type V = SerieView;

    closed spec fn view(&self) -> SerieView {
        SerieView {
            host: optional_text(self.host),
            interval: self.interval,
            metric: self.metric@,
            points: point_views(self.points@),
            tags: text_views(self.tags@),
            dtype: self.dtype,
        }
    }
}

impl Serie {
    pub fn new(metric: &str, dtype: Type) -> (serie: Self)
        ensures
            serie@ == SerieView::new(metric@, dtype),
    {
        let serie = Self {
            host: None,
            interval: None,
            metric: String::from_str(metric),
            points: Vec::new(),
            tags: Vec::new(),
            dtype,
        };
        assert(serie@.points =~= Seq::empty());
        assert(serie@.tags =~= Seq::empty());
        serie
    }

    pub fn set_host(self, host: &str) -> (serie: Self)
        ensures
            serie@ == self@.set_host(host@),
    {
        let mut serie = self;
        serie.host = Some(String::from_str(host));
        serie
    }

    pub fn set_interval(self, interval: i64) -> (serie: Self)
        ensures
            serie@ == self@.set_interval(interval),
    {
        let mut serie = self;
        serie.interval = Some(interval);
        serie
    }

    pub fn set_points(self, points: Vec<Point>) -> (serie: Self)
        ensures
            serie@ == self@.set_points(point_views(points@)),
    {
        let mut serie = self;
        serie.points = points;
        serie
    }

    pub fn add_point(self, point: Point) -> (serie: Self)
        ensures
            serie@ == self@.add_point(point@),
    {
        let mut serie = self;
        serie.points.push(point);
        assert(serie@.points =~= self@.points.push(point@));
        serie
    }

    pub fn set_tags(self, tags: Vec<String>) -> (serie: Self)
        ensures
            serie@ == self@.set_tags(text_views(tags@)),
    {
        let mut serie = self;
        serie.tags = tags;
        serie
    }

    pub fn add_tag(self, tag: String) -> (serie: Self)
        ensures
            serie@ == self@.add_tag(tag@),
    {
        let mut serie = self;
        serie.tags.push(tag);
        assert(serie@.tags =~= self@.tags.push(tag@));
        serie
    }

    /// The document that the service receives for this serie.
    pub fn to_json(&self) -> (doc: Json)
        ensures
            doc@ == self@.json(),
    {
        let mut points: Vec<Json> = Vec::new();
        let mut i: usize = 0;
        while i < self.points.len()
            invariant
                i <= self.points.len(),
                points@.len() == i,
                forall|k: int| 0 <= k < i ==> (#[trigger] points@[k])@ == self.points@[k]@.json(),
            decreases self.points.len() - i,
        {
            points.push(self.points[i].to_json());
            i += 1;
        }
        assert(item_views(points@) =~= self@.points_json()->Array_0);

        let mut members: Vec<Member> = Vec::new();
        assert(member_views(members@) =~= Seq::empty());
        Member::push_optional(&mut members, "host", optional_string(&self.host));
        Member::push_optional(&mut members, "interval", optional_int(&self.interval));
        let ghost optional = members@;
        members.push(Member::new("metric", Json::Str(self.metric.clone())));
        members.push(Member::new("points", Json::array(points)));
        members.push(Member::new("tags", Json::strings(&self.tags)));
        members.push(Member::new("type", self.dtype.to_json()));
        assert(member_views(members@) =~= member_views(optional) + seq![
            ("metric"@, JsonView::Str(self.metric@)),
            ("points"@, self@.points_json()),
            ("tags"@, JsonView::strings(self@.tags)),
            ("type"@, JsonView::Str(self.dtype.name())),
        ]);
        Json::object(members)
    }
}

/// The contents of `series`, element by element.
pub open spec fn serie_views(series: Seq<Serie>) -> Seq<SerieView> {
    Seq::new(series.len(), |i: int| series[i]@)
}

/// The document that submits `series`: an object whose one member, under the
/// key `series`, is the array of their documents, in order.
pub open spec fn series_json(series: Seq<SerieView>) -> JsonView {
    JsonView::Object(
        seq![("series"@, JsonView::Array(Seq::new(series.len(), |i: int| series[i].json())))],
    )
}

impl Client {
    /// The request that submits `series`. Nothing about the series is
    /// checked.
    pub fn post_metrics(&self, series: &[Serie]) -> (request: Request)
        ensures
            request@ == self@.request("/api/v1/series"@, series_json(serie_views(series@))),
    {
        let mut items: Vec<Json> = Vec::new();
        let mut i: usize = 0;
        while i < series.len()
            invariant
                i <= series.len(),
                items@.len() == i,
                forall|k: int| 0 <= k < i ==> (#[trigger] items@[k])@ == series@[k]@.json(),
            decreases series.len() - i,
        {
            items.push(series[i].to_json());
            i += 1;
        }
        let ghost documents = Seq::new(series@.len(), |i: int| serie_views(series@)[i].json());
        assert(item_views(items@) =~= documents);
        let mut members: Vec<Member> = Vec::new();
        members.push(Member::new("series", Json::array(items)));
        assert(member_views(members@) =~= seq![("series"@, JsonView::Array(documents))]);
        self.post("/api/v1/series", Json::object(members))
    }
}

/// Every metric type is written in lower case with underscores.
pub proof fn lemma_type_snake_case(dtype: Type)
    ensures
        is_snake_case(dtype.name()),
{
    reveal_strlit("count");
    reveal_strlit("gauge");
    reveal_strlit("rate");
}

/// A point is written as the two-element array of its timestamp and its
/// value, both numbers.
pub proof fn lemma_point_json(point: PointView)
    ensures
        point.json() is Array,
        point.json()->Array_0.len() == 2,
        point.json()->Array_0[0] == JsonView::Int(point.timestamp as int),
        point.json()->Array_0[1] == JsonView::Float(point.value_bits),
{
}

/// The tags of a serie are always written: a serie without tags has the
/// member `tags` with an empty array as its value.
pub proof fn lemma_tags_always_written(serie: SerieView)
    ensures
        serie.json().has_key("tags"@),
        serie.json().has_member("tags"@, JsonView::strings(serie.tags)),
        serie.tags.len() == 0 ==> serie.json().has_member(
            "tags"@,
            JsonView::Array(Seq::empty()),
        ),
{
    let members = serie.json().members();
    let at = members.len() - 2;
    assert(members[at] == ("tags"@, JsonView::strings(serie.tags)));
    if serie.tags.len() == 0 {
        assert(JsonView::strings(serie.tags)->Array_0 =~= Seq::empty());
    }
}

/// Adding points one by one gives the same points as setting them at once.
pub proof fn lemma_add_points(serie: SerieView, points: Seq<PointView>)
    ensures
        serie.add_points(points) == serie.set_points(serie.points + points),
    decreases points.len(),
{
    if points.len() == 0 {
        assert(serie.points + points =~= serie.points);
    } else {
        lemma_add_points(serie, points.drop_last());
        assert((serie.points + points.drop_last()).push(points.last()) =~= serie.points + points);
    }
}

/// Adding tags one by one gives the same tags as setting them at once.
pub proof fn lemma_add_tags(serie: SerieView, tags: Seq<Seq<char>>)
    ensures
        serie.add_tags(tags) == serie.set_tags(serie.tags + tags),
    decreases tags.len(),
{
    if tags.len() == 0 {
        assert(serie.tags + tags =~= serie.tags);
    } else {
        lemma_add_tags(serie, tags.drop_last());
        assert((serie.tags + tags.drop_last()).push(tags.last()) =~= serie.tags + tags);
    }
}

/// A serie built step by step (points and tags added one by one, then the
/// host set) is the serie that holds these contents from the start, and so
/// both are written as the same document.
pub proof fn lemma_incremental_build(
    metric: Seq<char>,
    dtype: Type,
    points: Seq<PointView>,
    tags: Seq<Seq<char>>,
    host: Seq<char>,
)
    ensures
        SerieView::new(metric, dtype).add_points(points).add_tags(tags).set_host(host) == (
        SerieView { host: Some(host), interval: None, metric, points, tags, dtype }),
        SerieView::new(metric, dtype).add_points(points).add_tags(tags).set_host(host).json() == (
        SerieView { host: Some(host), interval: None, metric, points, tags, dtype }).json(),
{
    let start = SerieView::new(metric, dtype);
    lemma_add_points(start, points);
    lemma_add_tags(start.add_points(points), tags);
    assert(start.points + points =~= points);
    assert(start.tags + tags =~= tags);
}

/// The order in which different fields are filled does not matter: a step
/// on one field and a step on another give the same serie either way round.
pub proof fn lemma_steps_commute(
    serie: SerieView,
    point: PointView,
    tag: Seq<char>,
    host: Seq<char>,
    interval: i64,
)
    ensures
        serie.add_point(point).add_tag(tag) == serie.add_tag(tag).add_point(point),
        serie.add_point(point).set_host(host) == serie.set_host(host).add_point(point),
        serie.add_point(point).set_interval(interval) == serie.set_interval(interval).add_point(
            point,
        ),
        serie.add_tag(tag).set_host(host) == serie.set_host(host).add_tag(tag),
        serie.add_tag(tag).set_interval(interval) == serie.set_interval(interval).add_tag(tag),
        serie.set_host(host).set_interval(interval) == serie.set_interval(interval).set_host(host),
{
}

/// No member of a serie's document is `null`: a host or an interval that is
/// not set is left out.
pub proof fn lemma_serie_json_without_null(serie: SerieView)
    ensures
        forall|i: int|
            0 <= i < serie.json().members().len() ==> !((#[trigger] serie.json().members()[i]).1
                is Null),
{
}

/// The keys of a serie's document differ from one another: any two of them
/// differ in their length or in one of their first two characters.
proof fn lemma_serie_keys_differ()
    ensures
        "host"@.len() == 4 && "host"@[0] == 'h',
        "interval"@.len() == 8,
        "metric"@.len() == 6 && "metric"@[0] == 'm',
        "points"@.len() == 6 && "points"@[0] == 'p',
        "tags"@.len() == 4 && "tags"@[0] == 't' && "tags"@[1] == 'a',
        "type"@.len() == 4 && "type"@[0] == 't' && "type"@[1] == 'y',
{
    reveal_strlit("host");
    reveal_strlit("interval");
    reveal_strlit("metric");
    reveal_strlit("points");
    reveal_strlit("tags");
    reveal_strlit("type");
}

/// A key is written exactly where its field is set: the host and the
/// interval appear in the document if and only if they have a value, and
/// the metric's name, the points, the tags and the type always appear.
pub proof fn lemma_serie_keys(serie: SerieView)
    ensures
        serie.json().has_key("host"@) <==> serie.host is Some,
        serie.json().has_key("interval"@) <==> serie.interval is Some,
        serie.json().has_key("metric"@),
        serie.json().has_key("points"@),
        serie.json().has_key("tags"@),
        serie.json().has_key("type"@),
{
    lemma_serie_keys_differ();
    let host = optional_member("host"@, JsonView::optional_string(serie.host));
    let interval = optional_member("interval"@, JsonView::optional_int(serie.interval));
    let last = seq![
        ("metric"@, JsonView::Str(serie.metric)),
        ("points"@, serie.points_json()),
        ("tags"@, JsonView::strings(serie.tags)),
        ("type"@, JsonView::Str(serie.dtype.name())),
    ];
    lemma_keys_of_optional("host"@, JsonView::optional_string(serie.host));
    lemma_keys_of_optional("interval"@, JsonView::optional_int(serie.interval));
    lemma_keys_of_concat(host, interval);
    lemma_keys_of_concat(host + interval, last);
    assert(serie.json().members() == host + interval + last);
    assert forall|key: Seq<char>| #[trigger]
        holds_key(last, key) <==> key == "metric"@ || key == "points"@ || key == "tags"@ || key
            == "type"@ by {
        if key == "metric"@ {
            assert(last[0].0 == key);
        }
        if key == "points"@ {
            assert(last[1].0 == key);
        }
        if key == "tags"@ {
            assert(last[2].0 == key);
        }
        if key == "type"@ {
            assert(last[3].0 == key);
        }
    }
}

} // verus!
