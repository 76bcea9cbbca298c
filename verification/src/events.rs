use crate::client::{Client, Request};
use crate::json::{
    holds_key, is_snake_case, lemma_keys_of_concat, lemma_keys_of_optional, member_views,
    optional_int, optional_member, optional_string, optional_text, text_views, Json, JsonView,
    Member,
};
use vstd::prelude::*;

verus! {

/// The kind of alert an event stands for.
#[derive(Debug, Clone, Copy, PartialEq, Eq, Structural)]
pub enum AlertType {
    Error,
    Warning,
    Info,
    Success,
    UserUpdate,
    Recommendation,
    Snapshot,
}

impl AlertType {
    /// The name under which the service knows this alert type: lower case,
    /// words joined by an underscore.
    pub open spec fn name(self) -> Seq<char> {
        match self {
            AlertType::Error => "error"@,
            AlertType::Warning => "warning"@,
            AlertType::Info => "info"@,
            AlertType::Success => "success"@,
            AlertType::UserUpdate => "user_update"@,
            AlertType::Recommendation => "recommendation"@,
            AlertType::Snapshot => "snapshot"@,
        }
    }

    pub fn as_str(&self) -> (name: &'static str)
        ensures
            name@ == self.name(),
    {
        match self {
            AlertType::Error => "error",
            AlertType::Warning => "warning",
            AlertType::Info => "info",
            AlertType::Success => "success",
            AlertType::UserUpdate => "user_update",
            AlertType::Recommendation => "recommendation",
            AlertType::Snapshot => "snapshot",
        }
    }

    /// The JSON string that holds this alert type's name.
    pub fn to_json(&self) -> (doc: Json)
        ensures
            doc@ == JsonView::Str(self.name()),
    {
        Json::string(self.as_str())
    }
}

/// How urgent an event is.
#[derive(Debug, Clone, Copy, PartialEq, Eq, Structural)]
pub enum Priority {
    Normal,
    Low,
}

impl Priority {
    /// The name under which the service knows this priority.
    pub open spec fn name(self) -> Seq<char> {
        match self {
            Priority::Normal => "normal"@,
            Priority::Low => "low"@,
        }
    }

    pub fn as_str(&self) -> (name: &'static str)
        ensures
            name@ == self.name(),
    {
        match self {
            Priority::Normal => "normal",
            Priority::Low => "low",
        }
    }

    /// The JSON string that holds this priority's name.
    pub fn to_json(&self) -> (doc: Json)
        ensures
            doc@ == JsonView::Str(self.name()),
    {
        Json::string(self.as_str())
    }
}

/// An event to post to the stream.
///
/// The service limits the title to 100 characters and the text to 4000; the
/// caller keeps to these limits, nothing here enforces them.
#[derive(Debug)]
pub struct CreateEventPayload {
    // An arbitrary string to use for aggregation. If a key is given, all
    // events using that key are grouped together in the event stream.
    aggregation_key: Option<String>,
    alert_type: Option<AlertType>,
    // POSIX timestamp of the event.
    date_happened: Option<i64>,
    device_name: Option<String>,
    // Host name to associate with the event.
    host: Option<String>,
    priority: Option<Priority>,
    // Identifier of the parent event.
    related_event_id: Option<i64>,
    // The type of event being posted.
    source_type_name: Option<String>,
    tags: Vec<String>,
    // The body of the event, in markdown.
    text: String,
    title: String,
}

/// The contents of an event.
pub struct EventView {
    pub aggregation_key: Option<Seq<char>>,
    pub alert_type: Option<AlertType>,
    pub date_happened: Option<i64>,
    pub device_name: Option<Seq<char>>,
    pub host: Option<Seq<char>>,
    pub priority: Option<Priority>,
    pub related_event_id: Option<i64>,
    pub source_type_name: Option<Seq<char>>,
    pub tags: Seq<Seq<char>>,
    pub text: Seq<char>,
    pub title: Seq<char>,
}

impl EventView {
    /// The event with this title and text and nothing else.
    pub open spec fn new(title: Seq<char>, text: Seq<char>) -> EventView {
        EventView {
            aggregation_key: None,
            alert_type: None,
            date_happened: None,
            device_name: None,
            host: None,
            priority: None,
            related_event_id: None,
            source_type_name: None,
            tags: Seq::empty(),
            text,
            title,
        }
    }

    pub open spec fn set_aggregation_key(self, value: Seq<char>) -> EventView {
        EventView { aggregation_key: Some(value), ..self }
    }

    pub open spec fn set_alert_type(self, value: AlertType) -> EventView {
        EventView { alert_type: Some(value), ..self }
    }

    pub open spec fn set_date_happened(self, value: i64) -> EventView {
        EventView { date_happened: Some(value), ..self }
    }

    pub open spec fn set_device_name(self, value: Seq<char>) -> EventView {
        EventView { device_name: Some(value), ..self }
    }

    pub open spec fn set_host(self, value: Seq<char>) -> EventView {
        EventView { host: Some(value), ..self }
    }

    pub open spec fn set_priority(self, value: Priority) -> EventView {
        EventView { priority: Some(value), ..self }
    }

    pub open spec fn set_related_event_id(self, value: i64) -> EventView {
        EventView { related_event_id: Some(value), ..self }
    }

    pub open spec fn set_source_type_name(self, value: Seq<char>) -> EventView {
        EventView { source_type_name: Some(value), ..self }
    }

    pub open spec fn add_tag(self, value: Seq<char>) -> EventView {
        EventView { tags: self.tags.push(value), ..self }
    }

    pub open spec fn set_tags(self, tags: Seq<Seq<char>>) -> EventView {
        EventView { tags, ..self }
    }

    /// The name of the alert type as a JSON string, where one is set.
    pub open spec fn alert_type_json(self) -> Option<JsonView> {
        match self.alert_type {
            Some(alert_type) => Some(JsonView::Str(alert_type.name())),
            None => None,
        }
    }

    /// The name of the priority as a JSON string, where one is set.
    pub open spec fn priority_json(self) -> Option<JsonView> {
        match self.priority {
            Some(priority) => Some(JsonView::Str(priority.name())),
            None => None,
        }
    }

    /// The tags as an array of JSON strings, where there is any tag.
    pub open spec fn tags_json(self) -> Option<JsonView> {
        if self.tags.len() > 0 {
            Some(JsonView::strings(self.tags))
        } else {
            None
        }
    }

    /// The members that may be missing from the document, in the order in
    /// which they are written: one for each field that is set, one for the
    /// tags where there is any, none for the rest.
    pub open spec fn optional_members(self) -> Seq<(Seq<char>, JsonView)> {
        optional_member("aggregation_key"@, JsonView::optional_string(self.aggregation_key))
            + optional_member("alert_type"@, self.alert_type_json()) + optional_member(
            "date_happened"@,
            JsonView::optional_int(self.date_happened),
        ) + optional_member("device_name"@, JsonView::optional_string(self.device_name))
            + optional_member("host"@, JsonView::optional_string(self.host)) + optional_member(
            "priority"@,
            self.priority_json(),
        ) + optional_member("related_event_id"@, JsonView::optional_int(self.related_event_id))
            + optional_member("source_type_name"@, JsonView::optional_string(self.source_type_name))
            + optional_member("tags"@, self.tags_json())
    }

    /// The document that the service receives for this event: an object of
    /// the optional members that are present, then the text and the title.
    pub open spec fn json(self) -> JsonView {
        JsonView::Object(
            self.optional_members() + seq![
                ("text"@, JsonView::Str(self.text)),
                ("title"@, JsonView::Str(self.title)),
            ],
        )
    }
}

impl View for CreateEventPayload {
    type V = EventView;

    closed spec fn view(&self) -> EventView {
        EventView {
            aggregation_key: optional_text(self.aggregation_key),
            alert_type: self.alert_type,
            date_happened: self.date_happened,
            device_name: optional_text(self.device_name),
            host: optional_text(self.host),
            priority: self.priority,
            related_event_id: self.related_event_id,
            source_type_name: optional_text(self.source_type_name),
            tags: text_views(self.tags@),
            text: self.text@,
            title: self.title@,
        }
    }
}

impl CreateEventPayload {
    pub fn new(title: String, text: String) -> (event: Self)
        ensures
            event@ == EventView::new(title@, text@),
    {
        let event = Self {
            aggregation_key: None,
            alert_type: None,
            date_happened: None,
            device_name: None,
            host: None,
            priority: None,
            related_event_id: None,
            source_type_name: None,
            tags: Vec::new(),
            title,
            text,
        };
        assert(event@.tags =~= Seq::empty());
        event
    }

    pub fn set_aggregation_key(self, value: String) -> (event: Self)
        ensures
            event@ == self@.set_aggregation_key(value@),
    {
        let mut event = self;
        event.aggregation_key = Some(value);
        event
    }

    pub fn set_alert_type(self, value: AlertType) -> (event: Self)
        ensures
            event@ == self@.set_alert_type(value),
    {
        let mut event = self;
        event.alert_type = Some(value);
        event
    }

    pub fn set_date_happened(self, value: i64) -> (event: Self)
        ensures
            event@ == self@.set_date_happened(value),
    {
        let mut event = self;
        event.date_happened = Some(value);
        event
    }

    pub fn set_device_name(self, value: String) -> (event: Self)
        ensures
            event@ == self@.set_device_name(value@),
    {
        let mut event = self;
        event.device_name = Some(value);
        event
    }

    pub fn set_host(self, value: String) -> (event: Self)
        ensures
            event@ == self@.set_host(value@),
    {
        let mut event = self;
        event.host = Some(value);
        event
    }

    pub fn set_priority(self, value: Priority) -> (event: Self)
        ensures
            event@ == self@.set_priority(value),
    {
        let mut event = self;
        event.priority = Some(value);
        event
    }

    pub fn set_related_event_id(self, value: i64) -> (event: Self)
        ensures
            event@ == self@.set_related_event_id(value),
    {
        let mut event = self;
        event.related_event_id = Some(value);
        event
    }

    pub fn set_source_type_name(self, value: String) -> (event: Self)
        ensures
            event@ == self@.set_source_type_name(value@),
    {
        let mut event = self;
        event.source_type_name = Some(value);
        event
    }

    pub fn add_tag(self, value: String) -> (event: Self)
        ensures
            event@ == self@.add_tag(value@),
    {
        let mut event = self;
        event.tags.push(value);
        assert(event@.tags =~= self@.tags.push(value@));
        event
    }

    pub fn set_tags(self, tags: Vec<String>) -> (event: Self)
        ensures
            event@ == self@.set_tags(text_views(tags@)),
    {
        let mut event = self;
        event.tags = tags;
        event
    }

    /// The document that the service receives for this event.
    pub fn to_json(&self) -> (doc: Json)
        ensures
            doc@ == self@.json(),
    {
        let alert_type = match &self.alert_type {
            Some(alert_type) => Some(alert_type.to_json()),
            None => None,
        };
        let priority = match &self.priority {
            Some(priority) => Some(priority.to_json()),
            None => None,
        };
        let tags = if self.tags.len() > 0 {
            Some(Json::strings(&self.tags))
        } else {
            None
        };
        let mut members: Vec<Member> = Vec::new();
        assert(member_views(members@) =~= Seq::empty());
        Member::push_optional(
            &mut members,
            "aggregation_key",
            optional_string(&self.aggregation_key),
        );
        Member::push_optional(&mut members, "alert_type", alert_type);
        Member::push_optional(&mut members, "date_happened", optional_int(&self.date_happened));
        Member::push_optional(&mut members, "device_name", optional_string(&self.device_name));
        Member::push_optional(&mut members, "host", optional_string(&self.host));
        Member::push_optional(&mut members, "priority", priority);
        Member::push_optional(
            &mut members,
            "related_event_id",
            optional_int(&self.related_event_id),
        );
        Member::push_optional(
            &mut members,
            "source_type_name",
            optional_string(&self.source_type_name),
        );
        Member::push_optional(&mut members, "tags", tags);
        assert(member_views(members@) =~= self@.optional_members());
        let ghost optional = members@;
        members.push(Member::new("text", Json::Str(self.text.clone())));
        members.push(Member::new("title", Json::Str(self.title.clone())));
        assert(member_views(members@) =~= member_views(optional) + seq![
            ("text"@, JsonView::Str(self.text@)),
            ("title"@, JsonView::Str(self.title@)),
        ]);
        Json::object(members)
    }
}

impl Client {
    /// The request that posts `event` to the stream.
    pub fn post_event(&self, event: &CreateEventPayload) -> (request: Request)
        ensures
            request@ == self@.request("/api/v1/events"@, event@.json()),
    {
        self.post("/api/v1/events", event.to_json())
    }
}

/// Every alert type is written in lower case with underscores.
pub proof fn lemma_alert_type_snake_case(alert_type: AlertType)
    ensures
        is_snake_case(alert_type.name()),
{
    reveal_strlit("error");
    reveal_strlit("warning");
    reveal_strlit("info");
    reveal_strlit("success");
    reveal_strlit("user_update");
    reveal_strlit("recommendation");
    reveal_strlit("snapshot");
}

/// Every priority is written in lower case with underscores.
pub proof fn lemma_priority_snake_case(priority: Priority)
    ensures
        is_snake_case(priority.name()),
{
    reveal_strlit("normal");
    reveal_strlit("low");
}

/// An event without any optional field and without tags is written as the
/// object of its text and its title and nothing else: no other key appears,
/// not even with a `null`.
pub proof fn lemma_bare_event_json(event: EventView)
    requires
        event.aggregation_key is None,
        event.alert_type is None,
        event.date_happened is None,
        event.device_name is None,
        event.host is None,
        event.priority is None,
        event.related_event_id is None,
        event.source_type_name is None,
        event.tags.len() == 0,
    ensures
        event.json() == JsonView::Object(
            seq![("text"@, JsonView::Str(event.text)), ("title"@, JsonView::Str(event.title))],
        ),
        event.json().keys() == seq!["text"@, "title"@],
{
    assert(event.optional_members() =~= Seq::empty());
    assert(event.json().members() =~= seq![
        ("text"@, JsonView::Str(event.text)),
        ("title"@, JsonView::Str(event.title)),
    ]);
    assert(event.json().keys() =~= seq!["text"@, "title"@]);
}

/// A new event has no optional field and no tags, so it is written as the
/// object of its text and its title alone.
pub proof fn lemma_new_event_json(title: Seq<char>, text: Seq<char>)
    ensures
        EventView::new(title, text).json() == JsonView::Object(
            seq![("text"@, JsonView::Str(text)), ("title"@, JsonView::Str(title))],
        ),
{
    lemma_bare_event_json(EventView::new(title, text));
}

/// No member of an event's document is `null`: a field that is not set is
/// left out.
pub proof fn lemma_event_json_without_null(event: EventView)
    ensures
        forall|i: int|
            0 <= i < event.json().members().len() ==> !((#[trigger] event.json().members()[i]).1
                is Null),
{
}

/// The keys of an event's document differ from one another: any two of them
/// differ in their length or in one of their first two characters.
proof fn lemma_event_keys_differ()
    ensures
        "aggregation_key"@.len() == 15 && "aggregation_key"@[0] == 'a',
        "alert_type"@.len() == 10 && "alert_type"@[0] == 'a',
        "date_happened"@.len() == 13 && "date_happened"@[0] == 'd',
        "device_name"@.len() == 11 && "device_name"@[0] == 'd',
        "host"@.len() == 4 && "host"@[0] == 'h',
        "priority"@.len() == 8 && "priority"@[0] == 'p',
        "related_event_id"@.len() == 16 && "related_event_id"@[0] == 'r',
        "source_type_name"@.len() == 16 && "source_type_name"@[0] == 's',
        "tags"@.len() == 4 && "tags"@[0] == 't' && "tags"@[1] == 'a',
        "text"@.len() == 4 && "text"@[0] == 't' && "text"@[1] == 'e',
        "title"@.len() == 5 && "title"@[0] == 't',
{
    reveal_strlit("aggregation_key");
    reveal_strlit("alert_type");
    reveal_strlit("date_happened");
    reveal_strlit("device_name");
    reveal_strlit("host");
    reveal_strlit("priority");
    reveal_strlit("related_event_id");
    reveal_strlit("source_type_name");
    reveal_strlit("tags");
    reveal_strlit("text");
    reveal_strlit("title");
}

/// A key is written exactly where its field is set: the key of an optional
/// field appears in the document if and only if the field has a value, the
/// tags appear if and only if there is one, and the text and the title
/// always appear.
pub proof fn lemma_event_keys(event: EventView)
    ensures
        event.json().has_key("aggregation_key"@) <==> event.aggregation_key is Some,
        event.json().has_key("alert_type"@) <==> event.alert_type is Some,
        event.json().has_key("date_happened"@) <==> event.date_happened is Some,
        event.json().has_key("device_name"@) <==> event.device_name is Some,
        event.json().has_key("host"@) <==> event.host is Some,
        event.json().has_key("priority"@) <==> event.priority is Some,
        event.json().has_key("related_event_id"@) <==> event.related_event_id is Some,
        event.json().has_key("source_type_name"@) <==> event.source_type_name is Some,
        event.json().has_key("tags"@) <==> event.tags.len() > 0,
        event.json().has_key("text"@),
        event.json().has_key("title"@),
{
    lemma_event_keys_differ();
    let aggregation_key = optional_member(
        "aggregation_key"@,
        JsonView::optional_string(event.aggregation_key),
    );
    let alert_type = optional_member("alert_type"@, event.alert_type_json());
    let date_happened = optional_member(
        "date_happened"@,
        JsonView::optional_int(event.date_happened),
    );
    let device_name = optional_member("device_name"@, JsonView::optional_string(event.device_name));
    let host = optional_member("host"@, JsonView::optional_string(event.host));
    let priority = optional_member("priority"@, event.priority_json());
    let related_event_id = optional_member(
        "related_event_id"@,
        JsonView::optional_int(event.related_event_id),
    );
    let source_type_name = optional_member(
        "source_type_name"@,
        JsonView::optional_string(event.source_type_name),
    );
    let tags = optional_member("tags"@, event.tags_json());
    let last = seq![("text"@, JsonView::Str(event.text)), ("title"@, JsonView::Str(event.title))];
    lemma_keys_of_optional("aggregation_key"@, JsonView::optional_string(event.aggregation_key));
    lemma_keys_of_optional("alert_type"@, event.alert_type_json());
    lemma_keys_of_optional("date_happened"@, JsonView::optional_int(event.date_happened));
    lemma_keys_of_optional("device_name"@, JsonView::optional_string(event.device_name));
    lemma_keys_of_optional("host"@, JsonView::optional_string(event.host));
    lemma_keys_of_optional("priority"@, event.priority_json());
    lemma_keys_of_optional("related_event_id"@, JsonView::optional_int(event.related_event_id));
    lemma_keys_of_optional("source_type_name"@, JsonView::optional_string(event.source_type_name));
    lemma_keys_of_optional("tags"@, event.tags_json());
    let upto2 = aggregation_key + alert_type;
    let upto3 = upto2 + date_happened;
    let upto4 = upto3 + device_name;
    let upto5 = upto4 + host;
    let upto6 = upto5 + priority;
    let upto7 = upto6 + related_event_id;
    let upto8 = upto7 + source_type_name;
    let upto9 = upto8 + tags;
    lemma_keys_of_concat(aggregation_key, alert_type);
    lemma_keys_of_concat(upto2, date_happened);
    lemma_keys_of_concat(upto3, device_name);
    lemma_keys_of_concat(upto4, host);
    lemma_keys_of_concat(upto5, priority);
    lemma_keys_of_concat(upto6, related_event_id);
    lemma_keys_of_concat(upto7, source_type_name);
    lemma_keys_of_concat(upto8, tags);
    lemma_keys_of_concat(upto9, last);
    assert(event.json().members() == upto9 + last);
    assert forall|key: Seq<char>| #[trigger]
        holds_key(last, key) <==> key == "text"@ || key == "title"@ by {
        if key == "text"@ {
            assert(last[0].0 == key);
        }
        if key == "title"@ {
            assert(last[1].0 == key);
        }
    }
}

} // verus!
