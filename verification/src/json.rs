//! JSON documents and the schemas that describe their shape.
use vstd::prelude::*;

verus! {

/// A JSON document. Numbers outside the range of `i64`, and fractions, are all `Number`.
#[derive(Debug)]
pub enum Json {
    Null,
    Bool(bool),
    Integer(i64),
    Number,
    Text(String),
    Array(Vec<Json>),
    /// Key and value pairs; of two pairs with one key the later one counts.
    Object(Vec<(String, Json)>),
}

/// What a JSON document says.
pub enum JsonModel {
    Null,
    Bool(bool),
    Integer(i64),
    Number,
    Text(Seq<char>),
    Array(Seq<JsonModel>),
    Object(Map<Seq<char>, JsonModel>),
}

impl Json {
    /// What the document says.
    pub open spec fn model(self) -> JsonModel
        decreases self,
    {
        match self {
            Json::Null => JsonModel::Null,
            Json::Bool(b) => JsonModel::Bool(b),
            Json::Integer(n) => JsonModel::Integer(n),
            Json::Number => JsonModel::Number,
            Json::Text(text) => JsonModel::Text(text@),
            Json::Array(items) => JsonModel::Array(items_model(items@)),
            Json::Object(entries) => JsonModel::Object(entries_model(entries@)),
        }
    }
}

/// What the items of an array say, in order.
pub open spec fn items_model(items: Seq<Json>) -> Seq<JsonModel>
    decreases items,
{
    if items.len() == 0 {
        Seq::empty()
    } else {
        items_model(items.subrange(0, items.len() - 1)).push(items[items.len() - 1].model())
    }
}

/// What the entries of an object say; later entries replace earlier ones.
pub open spec fn entries_model(entries: Seq<(String, Json)>) -> Map<Seq<char>, JsonModel>
    decreases entries,
{
    if entries.len() == 0 {
        Map::empty()
    } else {
        entries_model(entries.subrange(0, entries.len() - 1)).insert(
            entries[entries.len() - 1].0@,
            entries[entries.len() - 1].1.model(),
        )
    }
}

/// The schema `{"type": kind}`.
pub open spec fn plain_schema(kind: Seq<char>) -> JsonModel {
    JsonModel::Object(Map::empty().insert("type"@, JsonModel::Text(kind)))
}

/// The schema that describes a document: the kind of each value, for an array the schema of
/// its first item, for an object the schema of each property.
pub open spec fn schema_of(value: JsonModel) -> JsonModel
    decreases value,
{
    match value {
        JsonModel::Null => plain_schema("null"@),
        JsonModel::Bool(_) => plain_schema("boolean"@),
        JsonModel::Integer(_) => plain_schema("integer"@),
        JsonModel::Number => plain_schema("number"@),
        JsonModel::Text(_) => plain_schema("string"@),
        JsonModel::Array(items) => JsonModel::Object(
            Map::empty().insert("type"@, JsonModel::Text("array"@)).insert(
                "items"@,
                if items.len() > 0 {
                    schema_of(items[0])
                } else {
                    JsonModel::Object(Map::empty())
                },
            ),
        ),
        JsonModel::Object(map) => JsonModel::Object(
            Map::empty().insert("type"@, JsonModel::Text("object"@)).insert(
                "properties"@,
                JsonModel::Object(
                    Map::new(
                        |key: Seq<char>| map.contains_key(key),
                        |key: Seq<char>|
                            if map.contains_key(key) {
                                schema_of(map[key])
                            } else {
                                arbitrary()
                            },
                    ),
                ),
            ),
        ),
    }
}

/// The schemas of the properties of an object.
pub open spec fn property_schemas(map: Map<Seq<char>, JsonModel>) -> Map<Seq<char>, JsonModel> {
    Map::new(|key: Seq<char>| map.contains_key(key), |key: Seq<char>| schema_of(map[key]))
}

/// The schema of an object lists the schema of each of its properties and nothing else.
pub proof fn lemma_object_schema(map: Map<Seq<char>, JsonModel>)
    ensures
        schema_of(JsonModel::Object(map)) == JsonModel::Object(
            Map::empty().insert("type"@, JsonModel::Text("object"@)).insert(
                "properties"@,
                JsonModel::Object(property_schemas(map)),
            ),
        ),
{
    let top = schema_of(JsonModel::Object(map))->Object_0;
    assert(top["properties"@]->Object_0 =~= property_schemas(map));
    assert(top =~= Map::empty().insert("type"@, JsonModel::Text("object"@)).insert(
        "properties"@,
        JsonModel::Object(property_schemas(map)),
    ));
}

/// A schema document: objects whose leaves are texts.
#[derive(Debug)]
pub enum Schema {
    Text(String),
    Object(Vec<(String, Schema)>),
}

impl Schema {
    /// What the schema document says.
    pub open spec fn model(self) -> JsonModel
        decreases self,
    {
        match self {
            Schema::Text(text) => JsonModel::Text(text@),
            Schema::Object(entries) => JsonModel::Object(properties_model(entries@)),
        }
    }
}

/// What the entries of a schema object say; later entries replace earlier ones.
pub open spec fn properties_model(entries: Seq<(String, Schema)>) -> Map<Seq<char>, JsonModel>
    decreases entries,
{
    if entries.len() == 0 {
        Map::empty()
    } else {
        properties_model(entries.subrange(0, entries.len() - 1)).insert(
            entries[entries.len() - 1].0@,
            entries[entries.len() - 1].1.model(),
        )
    }
}

proof fn lemma_properties_push(entries: Seq<(String, Schema)>, entry: (String, Schema))
    ensures
        properties_model(entries.push(entry)) == properties_model(entries).insert(
            entry.0@,
            entry.1.model(),
        ),
{
    assert(entries.push(entry).subrange(0, entries.len() as int) == entries);
}

/// The schema `{"type": kind}`.
fn plain(kind: &str) -> (r: Schema)
    ensures
        r.model() == plain_schema(kind@),
{
    let mut entries: Vec<(String, Schema)> = Vec::new();
    let entry = ("type".to_owned(), Schema::Text(kind.to_owned()));
    proof {
        lemma_properties_push(entries@, entry);
    }
    entries.push(entry);
    Schema::Object(entries)
}

/// The schema `{"type": kind, key: inner}`.
fn compound(kind: &str, key: &str, inner: Schema) -> (r: Schema)
    ensures
        r.model() == JsonModel::Object(
            Map::empty().insert("type"@, JsonModel::Text(kind@)).insert(key@, inner.model()),
        ),
{
    let mut entries: Vec<(String, Schema)> = Vec::new();
    let first = ("type".to_owned(), Schema::Text(kind.to_owned()));
    let second = (key.to_owned(), inner);
    proof {
        lemma_properties_push(entries@, first);
        lemma_properties_push(entries@.push(first), second);
    }
    entries.push(first);
    entries.push(second);
    Schema::Object(entries)
}

/// The schema that describes `value`.
pub fn create_schema(value: &Json) -> (r: Schema)
    ensures
        r.model() == schema_of(value.model()),
    decreases value,
{
    match value {
        Json::Null => plain("null"),
        Json::Bool(_) => plain("boolean"),
        Json::Integer(_) => plain("integer"),
        Json::Number => plain("number"),
        Json::Text(_) => plain("string"),
        Json::Array(items) => {
            proof {
                lemma_items(items@);
            }
            let inner = if items.len() > 0 {
                create_schema(&items[0])
            } else {
                Schema::Object(Vec::new())
            };
            compound("array", "items", inner)
        },
        Json::Object(entries) => {
            let mut properties: Vec<(String, Schema)> = Vec::new();
            let mut i: usize = 0;
            proof {
                assert(property_schemas(Map::empty()) =~= Map::empty());
            }
            while i < entries.len()
                invariant
                    i <= entries@.len(),
                    value is Object,
                    value->Object_0 == *entries,
                    properties_model(properties@) == property_schemas(
                        entries_model(entries@.subrange(0, i as int)),
                    ),
                decreases entries@.len() - i,
            {
                proof {
                    assert(decreases_to!(value => value->Object_0));
                    assert(decreases_to!(*entries => entries[i as int]));
                    assert(decreases_to!(entries[i as int] => entries[i as int].1));
                }
                let property = (entries[i].0.clone(), create_schema(&entries[i].1));
                proof {
                    let before = entries_model(entries@.subrange(0, i as int));
                    let upto = entries@.subrange(0, i + 1);
                    assert(upto.subrange(0, i as int) == entries@.subrange(0, i as int));
                    lemma_properties_push(properties@, property);
                    assert(property_schemas(
                        before.insert(entries@[i as int].0@, entries@[i as int].1.model()),
                    ) =~= property_schemas(before).insert(
                        entries@[i as int].0@,
                        schema_of(entries@[i as int].1.model()),
                    ));
                }
                properties.push(property);
                i = i + 1;
            }
            proof {
                assert(entries@.subrange(0, entries@.len() as int) == entries@);
                lemma_object_schema(entries_model(entries@));
            }
            compound("object", "properties", Schema::Object(properties))
        },
    }
}

/// `items_model` keeps the number and order of the items.
proof fn lemma_items(items: Seq<Json>)
    ensures
        items_model(items).len() == items.len(),
        forall|i: int| 0 <= i < items.len() ==> #[trigger] items_model(items)[i] == items[i].model(),
    decreases items,
{
    if items.len() > 0 {
        lemma_items(items.subrange(0, items.len() - 1));
    }
}

/// A parsed JSON value of `serde_json`.
#[verifier::external_type_specification]
#[verifier::external_body]
pub struct ExValue(serde_json::Value);

/// What a `serde_json::Value` holds.
pub uninterp spec fn json_of(value: serde_json::Value) -> JsonModel;

/// The document that `serde_json5::from_str` reads from a JSON5 text, if it is one.
pub uninterp spec fn json5_document(text: Seq<char>) -> Option<JsonModel>;

/// The text that `serde_json::Value::to_string` writes for a document.
pub uninterp spec fn json_text(value: JsonModel) -> Seq<char>;

/// One level of a `serde_json::Value`. A number comes with its value if it fits `i64`.
pub enum JsonNode<'a> {
    Null,
    Bool(bool),
    Number(Option<i64>),
    Text(&'a String),
    Array(Vec<&'a serde_json::Value>),
    Object(Vec<(&'a String, &'a serde_json::Value)>),
}

/// What the entries of an object say.
pub open spec fn value_entries_model(entries: Seq<(Seq<char>, JsonModel)>) -> Map<
    Seq<char>,
    JsonModel,
>
    decreases entries.len(),
{
    if entries.len() == 0 {
        Map::empty()
    } else {
        value_entries_model(entries.drop_last()).insert(entries.last().0, entries.last().1)
    }
}

impl<'a> JsonNode<'a> {
    /// What the node says, given what the values below it hold.
    pub open spec fn model(self) -> JsonModel {
        match self {
            JsonNode::Null => JsonModel::Null,
            JsonNode::Bool(b) => JsonModel::Bool(b),
            JsonNode::Number(Some(n)) => JsonModel::Integer(n),
            JsonNode::Number(None) => JsonModel::Number,
            JsonNode::Text(text) => JsonModel::Text(text@),
            JsonNode::Array(items) => JsonModel::Array(
                items@.map_values(|item: &serde_json::Value| json_of(*item)),
            ),
            JsonNode::Object(entries) => JsonModel::Object(
                value_entries_model(
                    entries@.map_values(
                        |entry: (&String, &serde_json::Value)| (entry.0@, json_of(*entry.1)),
                    ),
                ),
            ),
        }
    }

    /// The keys of an object are pairwise distinct.
    pub open spec fn distinct_keys(self) -> bool {
        self matches JsonNode::Object(entries) ==> forall|i: int, j: int|
            0 <= i < j < entries@.len() ==> (#[trigger] entries@[i]).0@ != (
            #[trigger] entries@[j]).0@
    }
}

/// `serde_json5::from_str` reads a JSON5 text. A value that it hands back is the document that
/// the text denotes. Nothing is claimed when it hands back none: besides malformed text, a
/// nesting too deep for the remaining stack is refused too.
#[verifier::external_body]
fn parse_json5(text: &str) -> (r: Option<serde_json::Value>)
    ensures
        r matches Some(value) ==> json5_document(text@) == Some(json_of(value)),
{
    serde_json5::from_str::<serde_json::Value>(text).ok()
}

/// Matching on a `serde_json::Value` shows its outermost level; `Number::as_i64` gives a number
/// that fits `i64`. The entries of a `serde_json::Map` have distinct keys.
#[verifier::external_body]
fn json_node(value: &serde_json::Value) -> (r: JsonNode<'_>)
    ensures
        r.model() == json_of(*value),
        r.distinct_keys(),
{
    match value {
        serde_json::Value::Null => JsonNode::Null,
        serde_json::Value::Bool(b) => JsonNode::Bool(*b),
        serde_json::Value::Number(n) => JsonNode::Number(n.as_i64()),
        serde_json::Value::String(text) => JsonNode::Text(text),
        serde_json::Value::Array(items) => JsonNode::Array(items.iter().collect()),
        serde_json::Value::Object(map) => JsonNode::Object(map.iter().collect()),
    }
}

/// `serde_json::Value::from` turns a text into a JSON string.
#[verifier::external_body]
fn value_of_text(text: &str) -> (r: serde_json::Value)
    ensures
        json_of(r) == JsonModel::Text(text@),
{
    serde_json::Value::from(text)
}

/// `serde_json::Map` collects entries into a JSON object; later entries replace earlier ones.
#[verifier::external_body]
fn value_of_entries(entries: Vec<(String, serde_json::Value)>) -> (r: serde_json::Value)
    ensures
        json_of(r) == JsonModel::Object(
            value_entries_model(
                entries@.map_values(|entry: (String, serde_json::Value)| (entry.0@, json_of(entry.1))),
            ),
        ),
{
    serde_json::Value::Object(entries.into_iter().collect())
}

/// No number of the document is outside the range of `i64` or a fraction.
pub open spec fn is_exact(value: JsonModel) -> bool
    decreases value,
{
    match value {
        JsonModel::Number => false,
        JsonModel::Array(items) => forall|i: int| 0 <= i < items.len() ==> is_exact(items[i]),
        JsonModel::Object(map) => forall|key: Seq<char>|
            map.contains_key(key) ==> is_exact(#[trigger] map[key]),
        _ => true,
    }
}

/// `serde_json::Value::to_string` writes a value as compact JSON, object keys in order of their
/// bytes. Nothing is claimed of a value with a number that the model does not pin down.
#[verifier::external_body]
fn value_to_string(value: &serde_json::Value) -> (r: String)
    ensures
        is_exact(json_of(*value)) ==> r@ == json_text(json_of(*value)),
{
    value.to_string()
}

/// The document that `value` holds.
fn document(value: &serde_json::Value) -> (r: Json)
    ensures
        r.model() == json_of(*value),
    decreases json_of(*value),
{
    match json_node(value) {
        JsonNode::Null => Json::Null,
        JsonNode::Bool(b) => Json::Bool(b),
        JsonNode::Number(Some(n)) => Json::Integer(n),
        JsonNode::Number(None) => Json::Number,
        JsonNode::Text(text) => Json::Text(text.clone()),
        JsonNode::Array(nodes) => {
            let ghost models = nodes@.map_values(|item: &serde_json::Value| json_of(*item));
            let mut items: Vec<Json> = Vec::new();
            let mut i: usize = 0;
            while i < nodes.len()
                invariant
                    i <= nodes@.len(),
                    json_of(*value) is Array,
                    json_of(*value)->Array_0 == models,
                    models == nodes@.map_values(|item: &serde_json::Value| json_of(*item)),
                    items_model(items@) == models.take(i as int),
                decreases nodes@.len() - i,
            {
                proof {
                    assert(models[i as int] == json_of(*nodes@[i as int]));
                    assert(decreases_to!(json_of(*value) => json_of(*value)->Array_0));
                    assert(decreases_to!(models => models[i as int]));
                }
                let item = document(nodes[i]);
                proof {
                    assert(items@.push(item).subrange(0, items@.len() as int) == items@);
                    assert(models.take(i + 1) == models.take(i as int).push(models[i as int]));
                }
                items.push(item);
                i = i + 1;
            }
            assert(models.take(models.len() as int) == models);
            Json::Array(items)
        },
        JsonNode::Object(nodes) => {
            let ghost models = nodes@.map_values(
                |entry: (&String, &serde_json::Value)| (entry.0@, json_of(*entry.1)),
            );
            let mut entries: Vec<(String, Json)> = Vec::new();
            let mut i: usize = 0;
            proof {
                assert forall|k: int, l: int| 0 <= k < l < models.len() implies (
                #[trigger] models[k]).0 != (#[trigger] models[l]).0 by {
                    assert(models[k].0 == nodes@[k].0@);
                    assert(models[l].0 == nodes@[l].0@);
                }
            }
            while i < nodes.len()
                invariant
                    i <= nodes@.len(),
                    json_of(*value) is Object,
                    json_of(*value)->Object_0 == value_entries_model(models),
                    models == nodes@.map_values(
                        |entry: (&String, &serde_json::Value)| (entry.0@, json_of(*entry.1)),
                    ),
                    forall|k: int, l: int|
                        0 <= k < l < models.len() ==> (#[trigger] models[k]).0 != (
                        #[trigger] models[l]).0,
                    entries_model(entries@) == value_entries_model(models.take(i as int)),
                decreases nodes@.len() - i,
            {
                proof {
                    let map = json_of(*value)->Object_0;
                    lemma_value_entry(models, i as int);
                    lemma_value_entries_finite(models);
                    assert(models[i as int].1 == json_of(*nodes@[i as int].1));
                    assert(decreases_to!(json_of(*value) => json_of(*value)->Object_0));
                    assert(decreases_to!(map => map[models[i as int].0]));
                }
                let entry = (nodes[i].0.clone(), document(nodes[i].1));
                proof {
                    assert(entries@.push(entry).subrange(0, entries@.len() as int) == entries@);
                    assert(models.take(i + 1).drop_last() == models.take(i as int));
                    assert(models.take(i + 1).last() == models[i as int]);
                }
                entries.push(entry);
                i = i + 1;
            }
            assert(models.take(models.len() as int) == models);
            Json::Object(entries)
        },
    }
}

/// With distinct keys every entry is found under its key.
proof fn lemma_value_entry(entries: Seq<(Seq<char>, JsonModel)>, i: int)
    requires
        0 <= i < entries.len(),
        forall|k: int, l: int|
            0 <= k < l < entries.len() ==> (#[trigger] entries[k]).0 != (#[trigger] entries[l]).0,
    ensures
        value_entries_model(entries).contains_key(entries[i].0),
        value_entries_model(entries)[entries[i].0] == entries[i].1,
    decreases entries.len(),
{
    if i < entries.len() - 1 {
        assert(entries.drop_last()[i] == entries[i]);
        assert forall|k: int, l: int| 0 <= k < l < entries.drop_last().len() implies (
        #[trigger] entries.drop_last()[k]).0 != (#[trigger] entries.drop_last()[l]).0 by {
            assert(entries.drop_last()[k] == entries[k]);
            assert(entries.drop_last()[l] == entries[l]);
        }
        lemma_value_entry(entries.drop_last(), i);
    }
}

proof fn lemma_value_entries_finite(entries: Seq<(Seq<char>, JsonModel)>)
    ensures
        value_entries_model(entries).dom().finite(),
    decreases entries.len(),
{
    if entries.len() > 0 {
        lemma_value_entries_finite(entries.drop_last());
    }
}

/// The document that a value holds, if there is a value.
pub fn document_of(parsed: Option<serde_json::Value>) -> (r: Option<Json>)
    ensures
        match parsed {
            Some(value) => r is Some && r->Some_0.model() == json_of(value),
            None => r is None,
        },
{
    match parsed {
        Some(value) => Some(document(&value)),
        None => None,
    }
}

/// `serde_json5::from_str` was asked about the text and handed this back.
pub closed spec fn handed_back(text: &str, parsed: Option<serde_json::Value>) -> bool {
    call_ensures(parse_json5, (text,), parsed)
}

/// The JSON5 reader was asked about the text, and this is the document that it handed back, or that
/// it handed back none.
pub open spec fn reads(text: &str, r: Option<Json>) -> bool {
    exists|parsed: Option<serde_json::Value>| #[trigger]
        handed_back(text, parsed) && match parsed {
            Some(value) => r is Some && r->Some_0.model() == json_of(value),
            None => r is None,
        }
}

/// The document that a JSON5 text denotes; none if the text could not be read. Whether a text that
/// could be read is read depends on the stack that is left, so success is not promised; but none
/// is returned only if the reader handed back none. `document_of` says what is made of a text that
/// was read.
pub fn read_json5(text: &str) -> (r: Option<Json>)
    ensures
        r matches Some(json) ==> json5_document(text@) == Some(json.model()),
        reads(text, r),
{
    let reader = parse_json5;
    let parsed = reader(text);
    assert(handed_back(text, parsed));
    document_of(parsed)
}

impl Schema {
    fn to_value(&self) -> (r: serde_json::Value)
        ensures
            json_of(r) == self.model(),
        decreases self,
    {
        match self {
            Schema::Text(text) => value_of_text(text.as_str()),
            Schema::Object(entries) => {
                let mut values: Vec<(String, serde_json::Value)> = Vec::new();
                let mut i: usize = 0;
                proof {
                    assert(values@.map_values(
                        |entry: (String, serde_json::Value)| (entry.0@, json_of(entry.1)),
                    ) =~= Seq::empty());
                }
                while i < entries.len()
                    invariant
                        i <= entries@.len(),
                        self is Object,
                        self->Object_0 == *entries,
                        value_entries_model(
                            values@.map_values(
                                |entry: (String, serde_json::Value)| (entry.0@, json_of(entry.1)),
                            ),
                        ) == properties_model(entries@.subrange(0, i as int)),
                    decreases entries@.len() - i,
                {
                    proof {
                        assert(decreases_to!(self => self->Object_0));
                        assert(decreases_to!(*entries => entries[i as int]));
                        assert(decreases_to!(entries[i as int] => entries[i as int].1));
                    }
                    let entry = (entries[i].0.clone(), entries[i].1.to_value());
                    proof {
                        let view = |entry: (String, serde_json::Value)|
                            (entry.0@, json_of(entry.1));
                        let models = values@.map_values(view);
                        assert(values@.push(entry).map_values(view) =~= models.push(view(entry)));
                        assert(models.push(view(entry)).drop_last() =~= models);
                        assert(entries@.subrange(0, i + 1).subrange(0, i as int)
                            == entries@.subrange(0, i as int));
                    }
                    values.push(entry);
                    i = i + 1;
                }
                assert(entries@.subrange(0, entries@.len() as int) == entries@);
                value_of_entries(values)
            },
        }
    }

    /// The schema as compact JSON.
    pub fn to_text(&self) -> (r: String)
        ensures
            r@ == json_text(self.model()),
    {
        proof {
            lemma_schema_exact(*self);
        }
        value_to_string(&self.to_value())
    }
}

proof fn lemma_schema_exact(schema: Schema)
    ensures
        is_exact(schema.model()),
    decreases schema,
{
    if schema is Object {
        let entries = schema->Object_0;
        let map = properties_model(entries@);
        assert(decreases_to!(schema => schema->Object_0));
        assert(decreases_to!(entries => entries@));
        lemma_properties_exact(entries@);
        assert(schema.model() == JsonModel::Object(map));
        assert forall|key: Seq<char>| map.contains_key(key) implies is_exact(#[trigger] map[key]) by {}
        assert(is_exact(JsonModel::Object(map)));
    }
}

proof fn lemma_properties_exact(entries: Seq<(String, Schema)>)
    ensures
        forall|key: Seq<char>|
            properties_model(entries).contains_key(key) ==> is_exact(
                #[trigger] properties_model(entries)[key],
            ),
    decreases entries,
{
    if entries.len() > 0 {
        let init = entries.subrange(0, entries.len() - 1);
        let last = entries[entries.len() - 1];
        lemma_properties_exact(init);
        lemma_schema_exact(last.1);
        assert(properties_model(entries) == properties_model(init).insert(last.0@, last.1.model()));
    } else {
        assert(properties_model(entries) == Map::<Seq<char>, JsonModel>::empty());
    }
}

/// A schema says of what kind a value is, whatever the value is.
pub proof fn lemma_kinds(b: bool, n: i64, text: Seq<char>)
    ensures
        schema_of(JsonModel::Null) == kind_schema("null"@),
        schema_of(JsonModel::Bool(b)) == kind_schema("boolean"@),
        schema_of(JsonModel::Integer(n)) == kind_schema("integer"@),
        schema_of(JsonModel::Number) == kind_schema("number"@),
        schema_of(JsonModel::Text(text)) == kind_schema("string"@),
{
    assert(kind_schema("null"@)->Object_0 =~= schema_of(JsonModel::Null)->Object_0);
    assert(kind_schema("boolean"@)->Object_0 =~= schema_of(JsonModel::Bool(b))->Object_0);
    assert(kind_schema("integer"@)->Object_0 =~= schema_of(JsonModel::Integer(n))->Object_0);
    assert(kind_schema("number"@)->Object_0 =~= schema_of(JsonModel::Number)->Object_0);
    assert(kind_schema("string"@)->Object_0 =~= schema_of(JsonModel::Text(text))->Object_0);
}

/// An object with the one entry `type`.
pub open spec fn kind_schema(kind: Seq<char>) -> JsonModel {
    JsonModel::Object(map!["type"@ => JsonModel::Text(kind)])
}

/// The schema of an array says so, and describes the items by the first one; of an empty array it
/// says nothing of items.
pub proof fn lemma_array_schema(items: Seq<JsonModel>)
    ensures
        schema_of(JsonModel::Array(items)) is Object,
        ({
            let entries = schema_of(JsonModel::Array(items))->Object_0;
            &&& entries.dom() == set!["type"@, "items"@]
            &&& entries["type"@] == JsonModel::Text("array"@)
            &&& items.len() > 0 ==> entries["items"@] == schema_of(items[0])
            &&& items.len() == 0 ==> entries["items"@] == JsonModel::Object(Map::empty())
        }),
{
    reveal_strlit("type");
    reveal_strlit("items");
    assert("type"@.len() != "items"@.len());
    assert(schema_of(JsonModel::Array(items))->Object_0.dom() =~= set!["type"@, "items"@]);
}

/// The schema of an object says so, and describes exactly its properties, each by its own schema.
pub proof fn lemma_properties_schema(map: Map<Seq<char>, JsonModel>, key: Seq<char>)
    ensures
        schema_of(JsonModel::Object(map)) is Object,
        ({
            let entries = schema_of(JsonModel::Object(map))->Object_0;
            let properties = entries["properties"@]->Object_0;
            &&& entries.dom() == set!["type"@, "properties"@]
            &&& entries["type"@] == JsonModel::Text("object"@)
            &&& entries["properties"@] is Object
            &&& properties.contains_key(key) <==> map.contains_key(key)
            &&& map.contains_key(key) ==> properties[key] == schema_of(map[key])
        }),
{
    reveal_strlit("type");
    reveal_strlit("properties");
    assert("type"@.len() != "properties"@.len());
    lemma_object_schema(map);
    assert(schema_of(JsonModel::Object(map))->Object_0.dom() =~= set!["type"@, "properties"@]);
}

proof fn lemma_handed_back(text: &str, parsed: Option<serde_json::Value>)
    requires
        handed_back(text, parsed),
    ensures
        call_ensures(parse_json5, (text,), parsed),
{
}

/// What is read of a text is what the reader handed back for it: a document exactly if it handed
/// back a value, and that value's document.
pub proof fn lemma_reader_decides(text: &str, r: Option<Json>)
    requires
        reads(text, r),
    ensures
        r is None ==> handed_back(text, None),
        r is Some ==> exists|value: serde_json::Value|
            #![trigger json_of(value)]
            handed_back(text, Some(value)) && r->Some_0.model() == json_of(value),
{
    let parsed = choose|parsed: Option<serde_json::Value>| #[trigger]
        handed_back(text, parsed) && match parsed {
            Some(value) => r is Some && r->Some_0.model() == json_of(value),
            None => r is None,
        };
    if parsed is Some {
        assert(json_of(parsed->Some_0) == r->Some_0.model());
    }
}

/// The schema of a document names the kind of the document.
pub proof fn lemma_schemas_are_made(value: &Json, r: Schema)
    requires
        call_ensures(create_schema, (value,), r),
    ensures
        r.model() is Object,
        r.model()->Object_0.contains_key("type"@),
        r.model()->Object_0["type"@] == JsonModel::Text(
            match value.model() {
                JsonModel::Null => "null"@,
                JsonModel::Bool(_) => "boolean"@,
                JsonModel::Integer(_) => "integer"@,
                JsonModel::Number => "number"@,
                JsonModel::Text(_) => "string"@,
                JsonModel::Array(_) => "array"@,
                JsonModel::Object(_) => "object"@,
            },
        ),
{
    match value.model() {
        JsonModel::Bool(b) => lemma_kinds(b, 0, seq![]),
        JsonModel::Integer(n) => lemma_kinds(true, n, seq![]),
        JsonModel::Text(text) => lemma_kinds(true, 0, text),
        JsonModel::Array(items) => lemma_array_schema(items),
        JsonModel::Object(map) => lemma_properties_schema(map, seq![]),
        _ => lemma_kinds(true, 0, seq![]),
    }
}

/// There is a document exactly if there is a value, and it says what the value says.
pub proof fn lemma_documents(parsed: Option<serde_json::Value>, r: Option<Json>)
    requires
        call_ensures(document_of, (parsed,), r),
    ensures
        r is Some <==> parsed is Some,
        r is Some ==> r->Some_0.model() == json_of(parsed->Some_0),
{
}

/// A text is read exactly if the JSON5 reader hands back a value for it.
pub proof fn lemma_texts_are_read(text: &str, r: Option<Json>)
    requires
        call_ensures(read_json5, (text,), r),
    ensures
        r is None ==> handed_back(text, None),
        r is Some ==> exists|value: serde_json::Value|
            #![trigger json_of(value)]
            handed_back(text, Some(value)) && r->Some_0.model() == json_of(value),
        r is Some ==> json5_document(text@) == Some(r->Some_0.model()),
{
    lemma_reader_decides(text, r);
}

} // verus!
