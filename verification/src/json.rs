use vstd::prelude::*;
use vstd::string::StringExecFns;

verus! {

/// The mathematical value of a JSON document.
///
/// Integers are unbounded here, whichever machine type held them. A
/// floating-point number is identified by its IEEE 754 binary64 bit pattern.
/// The members of an object keep the order in which they were written.
pub enum JsonView {
    Null,
    Bool(bool),
    Int(int),
    Float(u64),
    Str(Seq<char>),
    Array(Seq<JsonView>),
    Object(Seq<(Seq<char>, JsonView)>),
}

impl JsonView {
    /// The members of an object, in order; no members for any other value.
    pub open spec fn members(self) -> Seq<(Seq<char>, JsonView)> {
        match self {
            JsonView::Object(members) => members,
            _ => Seq::empty(),
        }
    }

    /// The keys of an object, in order.
    pub open spec fn keys(self) -> Seq<Seq<char>> {
        Seq::new(self.members().len(), |i: int| self.members()[i].0)
    }

    /// Whether some member of the object is written under `key`.
    pub open spec fn has_key(self, key: Seq<char>) -> bool {
        holds_key(self.members(), key)
    }

    /// Whether the object holds the member `key: value`.
    pub open spec fn has_member(self, key: Seq<char>, value: JsonView) -> bool {
        exists|i: int| 0 <= i < self.members().len() && #[trigger] self.members()[i] == (key, value)
    }

    /// The array of strings that holds `texts`, in order.
    pub open spec fn strings(texts: Seq<Seq<char>>) -> JsonView {
        JsonView::Array(Seq::new(texts.len(), |i: int| JsonView::Str(texts[i])))
    }

    /// The string `text`, where there is one.
    pub open spec fn optional_string(text: Option<Seq<char>>) -> Option<JsonView> {
        match text {
            Some(text) => Some(JsonView::Str(text)),
            None => None,
        }
    }

    /// The integer `number`, where there is one.
    pub open spec fn optional_int(number: Option<i64>) -> Option<JsonView> {
        match number {
            Some(number) => Some(JsonView::Int(number as int)),
            None => None,
        }
    }
}

/// Whether one of `members` is written under `key`.
pub open spec fn holds_key(members: Seq<(Seq<char>, JsonView)>, key: Seq<char>) -> bool {
    exists|i: int| 0 <= i < members.len() && (#[trigger] members[i]).0 == key
}

/// The member `key: value` alone where there is a value, and no member where
/// there is none: an absent value leaves no trace, not even a `null`.
pub open spec fn optional_member(key: Seq<char>, value: Option<JsonView>) -> Seq<
    (Seq<char>, JsonView),
> {
    match value {
        Some(value) => seq![(key, value)],
        None => Seq::empty(),
    }
}

/// Whether `name` is written in lower case with underscores: it is not empty
/// and holds nothing but the letters `a` to `z` and `_`.
pub open spec fn is_snake_case(name: Seq<char>) -> bool {
    &&& name.len() > 0
    &&& forall|i: int| 0 <= i < name.len() ==> ('a' <= #[trigger] name[i] <= 'z' || name[i] == '_')
}

/// The value of `doc`, where there is one.
pub open spec fn optional_view(doc: Option<Json>) -> Option<JsonView> {
    match doc {
        Some(doc) => Some(doc@),
        None => None,
    }
}

/// The contents of `text`, where there is one.
pub open spec fn optional_text(text: Option<String>) -> Option<Seq<char>> {
    match text {
        Some(text) => Some(text@),
        None => None,
    }
}

/// One `key: value` member of a JSON object.
#[derive(Debug)]
pub struct Member {
    pub key: String,
    pub value: Json,
}

/// A JSON document held in memory.
///
/// `Float` holds the IEEE 754 binary64 bit pattern of the number.
#[derive(Debug)]
pub enum Json {
    Null,
    Bool(bool),
    Int(i64),
    UInt(u64),
    Float(u64),
    Str(String),
    Array(Vec<Json>),
    Object(Vec<Member>),
}

impl View for Json {
    type V = JsonView;

    open spec fn view(&self) -> JsonView
        decreases self, 0nat,
    {
        match self {
            Json::Null => JsonView::Null,
            Json::Bool(b) => JsonView::Bool(*b),
            Json::Int(n) => JsonView::Int(*n as int),
            Json::UInt(n) => JsonView::Int(*n as int),
            Json::Float(bits) => JsonView::Float(*bits),
            Json::Str(s) => JsonView::Str(s@),
            Json::Array(items) => JsonView::Array(Json::leading_items(items, items.len() as nat)),
            Json::Object(members) => JsonView::Object(
                Json::leading_members(members, members.len() as nat),
            ),
        }
    }
}

impl View for Member {
    type V = (Seq<char>, JsonView);

    open spec fn view(&self) -> (Seq<char>, JsonView) {
        (self.key@, self.value@)
    }
}

/// The values of `items`, element by element.
pub open spec fn item_views(items: Seq<Json>) -> Seq<JsonView> {
    Seq::new(items.len(), |i: int| items[i]@)
}

/// The keys and values of `members`, element by element.
pub open spec fn member_views(members: Seq<Member>) -> Seq<(Seq<char>, JsonView)> {
    Seq::new(members.len(), |i: int| members[i]@)
}

impl Json {
    /// The values of the first `n` of `items`, in order.
    pub open spec fn leading_items(items: &Vec<Json>, n: nat) -> Seq<JsonView>
        decreases items, n,
    {
        if 0 < n <= items.len() {
            Json::leading_items(items, (n - 1) as nat).push(items[n - 1].view())
        } else {
            Seq::empty()
        }
    }

    /// The keys and values of the first `n` of `members`, in order.
    pub open spec fn leading_members(members: &Vec<Member>, n: nat) -> Seq<(Seq<char>, JsonView)>
        decreases members, n,
    {
        if 0 < n <= members.len() {
            Json::leading_members(members, (n - 1) as nat).push(
                (members[n - 1].key@, members[n - 1].value.view()),
            )
        } else {
            Seq::empty()
        }
    }

    /// The array that holds `items` in order.
    pub fn array(items: Vec<Json>) -> (doc: Json)
        ensures
            doc@ == JsonView::Array(item_views(items@)),
    {
        proof {
            lemma_array_view(items);
        }
        Json::Array(items)
    }

    /// The object that holds `members` in order.
    pub fn object(members: Vec<Member>) -> (doc: Json)
        ensures
            doc@ == JsonView::Object(member_views(members@)),
    {
        proof {
            lemma_object_view(members);
        }
        Json::Object(members)
    }

    /// The string `text`.
    pub fn string(text: &str) -> (doc: Json)
        ensures
            doc@ == JsonView::Str(text@),
    {
        Json::Str(String::from_str(text))
    }

    /// The array of strings that holds a copy of each of `texts`, in order.
    pub fn strings(texts: &Vec<String>) -> (doc: Json)
        ensures
            doc@ == JsonView::strings(text_views(texts@)),
    {
        let mut items: Vec<Json> = Vec::new();
        let mut i: usize = 0;
        while i < texts.len()
            invariant
                i <= texts.len(),
                items@.len() == i,
                forall|k: int| 0 <= k < i ==> (#[trigger] items@[k])@ == JsonView::Str(texts@[k]@),
            decreases texts.len() - i,
        {
            items.push(Json::Str(texts[i].clone()));
            i += 1;
        }
        assert(item_views(items@) =~= JsonView::strings(text_views(texts@))->Array_0);
        Json::array(items)
    }
}

impl Member {
    /// The member `key: value`.
    pub fn new(key: &str, value: Json) -> (member: Member)
        ensures
            member@ == (key@, value@),
    {
        Member { key: String::from_str(key), value }
    }

    /// Appends the member `key: value` to `members` where there is a value,
    /// and leaves `members` as it is where there is none.
    pub fn push_optional(members: &mut Vec<Member>, key: &str, value: Option<Json>)
        ensures
            member_views(final(members)@) == member_views(old(members)@) + optional_member(
                key@,
                optional_view(value),
            ),
    {
        match value {
            Some(value) => {
                members.push(Member::new(key, value));
                assert(member_views(members@) =~= member_views(old(members)@) + seq![
                    (key@, value@),
                ]);
            },
            None => {
                assert(member_views(members@) =~= member_views(old(members)@) + Seq::empty());
            },
        }
    }
}

/// A copy of `text` as a JSON string, where there is one.
pub fn optional_string(text: &Option<String>) -> (doc: Option<Json>)
    ensures
        optional_view(doc) == JsonView::optional_string(optional_text(*text)),
{
    match text {
        Some(text) => Some(Json::Str(text.clone())),
        None => None,
    }
}

/// `number` as a JSON integer, where there is one.
pub fn optional_int(number: &Option<i64>) -> (doc: Option<Json>)
    ensures
        optional_view(doc) == JsonView::optional_int(*number),
{
    match number {
        Some(number) => Some(Json::Int(*number)),
        None => None,
    }
}

/// The contents of `texts`, element by element.
pub open spec fn text_views(texts: Seq<String>) -> Seq<Seq<char>> {
    Seq::new(texts.len(), |i: int| texts[i]@)
}

proof fn lemma_leading_items(items: &Vec<Json>, n: nat)
    requires
        n <= items.len(),
    ensures
        Json::leading_items(items, n) == item_views(items@.take(n as int)),
    decreases n,
{
    let longer = items@.take(n as int);
    if n > 0 {
        lemma_leading_items(items, (n - 1) as nat);
        let shorter = items@.take(n - 1);
        let pushed = item_views(shorter).push(items@[n - 1]@);
        assert(Json::leading_items(items, n) == pushed);
        assert forall|i: int| 0 <= i < n implies #[trigger] item_views(longer)[i] == pushed[i] by {
            if i < n - 1 {
                assert(shorter[i] == longer[i]);
            }
        }
    }
    assert(Json::leading_items(items, n) =~= item_views(longer));
}

proof fn lemma_leading_members(members: &Vec<Member>, n: nat)
    requires
        n <= members.len(),
    ensures
        Json::leading_members(members, n) == member_views(members@.take(n as int)),
    decreases n,
{
    let longer = members@.take(n as int);
    if n > 0 {
        lemma_leading_members(members, (n - 1) as nat);
        let shorter = members@.take(n - 1);
        let pushed = member_views(shorter).push(members@[n - 1]@);
        assert(Json::leading_members(members, n) == pushed);
        assert forall|i: int| 0 <= i < n implies #[trigger] member_views(longer)[i]
            == pushed[i] by {
            if i < n - 1 {
                assert(shorter[i] == longer[i]);
            }
        }
    }
    assert(Json::leading_members(members, n) =~= member_views(longer));
}

/// The value of an array is the sequence of the values of its items.
pub proof fn lemma_array_view(items: Vec<Json>)
    ensures
        Json::Array(items)@ == JsonView::Array(item_views(items@)),
{
    lemma_leading_items(&items, items.len() as nat);
    assert(items@.take(items.len() as int) =~= items@);
}

/// The value of an object is the sequence of the keys and values of its
/// members.
pub proof fn lemma_object_view(members: Vec<Member>)
    ensures
        Json::Object(members)@ == JsonView::Object(member_views(members@)),
{
    lemma_leading_members(&members, members.len() as nat);
    assert(members@.take(members.len() as int) =~= members@);
}

/// A key is held by two runs of members put together exactly when one of the
/// two holds it.
pub proof fn lemma_keys_of_concat(
    front: Seq<(Seq<char>, JsonView)>,
    back: Seq<(Seq<char>, JsonView)>,
)
    ensures
        forall|key: Seq<char>| #[trigger]
            holds_key(front + back, key) <==> holds_key(front, key) || holds_key(back, key),
{
    let both = front + back;
    assert forall|key: Seq<char>| #[trigger]
        holds_key(both, key) <==> holds_key(front, key) || holds_key(back, key) by {
        if holds_key(front, key) {
            let i = choose|i: int| 0 <= i < front.len() && (#[trigger] front[i]).0 == key;
            assert(both[i] == front[i]);
        }
        if holds_key(back, key) {
            let i = choose|i: int| 0 <= i < back.len() && (#[trigger] back[i]).0 == key;
            assert(both[front.len() + i] == back[i]);
        }
        if holds_key(both, key) {
            let i = choose|i: int| 0 <= i < both.len() && (#[trigger] both[i]).0 == key;
            if i < front.len() {
                assert(front[i] == both[i]);
            } else {
                assert(back[i - front.len()] == both[i]);
            }
        }
    }
}

/// An optional member holds its own key where it has a value, and no key at
/// all where it has none.
pub proof fn lemma_keys_of_optional(name: Seq<char>, value: Option<JsonView>)
    ensures
        forall|key: Seq<char>| #[trigger]
            holds_key(optional_member(name, value), key) <==> value is Some && key == name,
{
    let members = optional_member(name, value);
    assert forall|key: Seq<char>| #[trigger]
        holds_key(members, key) <==> value is Some && key == name by {
        if value is Some && key == name {
            assert(members[0].0 == key);
        }
    }
}

} // verus!
