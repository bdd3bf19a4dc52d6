//! What a recording says of a topic: its schema and how its messages are encoded.
use vstd::prelude::*;

use crate::json::{create_schema, read_json5, Json};
use crate::text::{join_texts, replace_char, same_text, split, utf8_text};

verus! {

/// How the messages of a topic are recorded.
pub struct ChannelDescriptor {
    pub topic: String,
    pub schema: Option<SchemaDescriptor>,
    pub message_encoding: MessageEncoding,
}

/// The schema of a topic.
pub struct SchemaDescriptor {
    pub encoding: SchemaEncoding,
    pub content: Option<SchemaDescriptorContent>,
}

/// A schema's name and text.
pub struct SchemaDescriptorContent {
    pub name: String,
    pub data: String,
}

/// The language that a schema is written in.
#[derive(Debug, Clone, Copy, PartialEq, Eq, Structural)]
pub enum SchemaEncoding {
    Ros2Msg,
    JsonSchema,
}

/// How messages are serialized.
#[derive(Debug, Clone, Copy, PartialEq, Eq, Structural)]
pub enum MessageEncoding {
    Cdr,
    Json,
}

impl SchemaEncoding {
    /// The registered name of the encoding.
    pub open spec fn name(self) -> Seq<char> {
        match self {
            SchemaEncoding::Ros2Msg => "ros2msg"@,
            SchemaEncoding::JsonSchema => "jsonschema"@,
        }
    }

    /// The registered name of the encoding.
    pub fn as_str(self) -> (r: &'static str)
        ensures
            r@ == self.name(),
    {
        match self {
            SchemaEncoding::Ros2Msg => "ros2msg",
            SchemaEncoding::JsonSchema => "jsonschema",
        }
    }
}

impl MessageEncoding {
    /// The registered name of the encoding.
    pub open spec fn name(self) -> Seq<char> {
        match self {
            MessageEncoding::Cdr => "cdr"@,
            MessageEncoding::Json => "json"@,
        }
    }

    /// The registered name of the encoding.
    pub fn as_str(self) -> (r: &'static str)
        ensures
            r@ == self.name(),
    {
        match self {
            MessageEncoding::Cdr => "cdr",
            MessageEncoding::Json => "json",
        }
    }
}

/// The parts of a schema, as texts.
pub struct SchemaModel {
    pub encoding: SchemaEncoding,
    pub content: Option<(Seq<char>, Seq<char>)>,
}

/// The parts of a descriptor, as texts.
pub struct DescriptorModel {
    pub topic: Seq<char>,
    pub schema: Option<SchemaModel>,
    pub message_encoding: MessageEncoding,
}

impl View for SchemaDescriptor {
    type V = SchemaModel;

    open spec fn view(&self) -> SchemaModel {
        SchemaModel {
            encoding: self.encoding,
            content: match self.content {
                Some(content) => Some((content.name@, content.data@)),
                None => None,
            },
        }
    }
}

impl View for ChannelDescriptor {
    type V = DescriptorModel;

    open spec fn view(&self) -> DescriptorModel {
        DescriptorModel {
            topic: self.topic@,
            schema: match self.schema {
                Some(schema) => Some(schema@),
                None => None,
            },
            message_encoding: self.message_encoding,
        }
    }
}

/// The media type that an encoding names: what stands before the first semicolon.
pub open spec fn mime_of(encoding: Seq<char>) -> Seq<char> {
    crate::text::pieces(encoding, ';')[0]
}

/// The schema that an encoding names: what stands between the first two semicolons.
pub open spec fn mime_schema_of(encoding: Seq<char>) -> Option<Seq<char>> {
    let parts = crate::text::pieces(encoding, ';');
    if parts.len() > 1 {
        Some(parts[1])
    } else {
        None
    }
}

/// The relative path of the file that holds a message schema `package.name`.
pub open spec fn schema_file(schema: Seq<char>) -> Option<Seq<char>> {
    let parts = crate::text::pieces(schema, '.');
    if parts.len() > 1 {
        Some(parts[0] + "/"@ + parts[1] + ".msg"@)
    } else {
        None
    }
}

/// A directory tree that `include_dir` has built into the program.
#[verifier::external_type_specification]
#[verifier::external_body]
pub struct ExDir<'a>(include_dir::Dir<'a>);

/// The bytes of the file that `include_dir::Dir::get_file` finds under a path.
pub uninterp spec fn embedded_contents(
    dir: include_dir::Dir<'static>,
    path: Seq<char>,
) -> Option<Seq<u8>>;

/// `include_dir::Dir::get_file` looks a file up by its path in a tree that never changes;
/// `File::contents` gives its bytes.
#[verifier::external_body]
fn embedded_file(dir: &include_dir::Dir<'static>, path: &str) -> (r: Option<Vec<u8>>)
    ensures
        match r {
            Some(bytes) => embedded_contents(*dir, path@) == Some(bytes@),
            None => embedded_contents(*dir, path@) is None,
        },
{
    dir.get_file(path).map(|file| file.contents().to_vec())
}

/// Where message schemas come from.
pub enum SchemaSource<'a> {
    /// The tree that is built into the program.
    Embedded(&'a include_dir::Dir<'static>),
    /// What reading the schema file from a directory gave: its text, or none if that failed.
    Directory(Option<String>),
}

/// Why a message schema could not be had.
#[derive(Debug, Clone, Copy, PartialEq, Eq, Structural)]
pub enum SchemaError {
    /// The schema's name does not have the form `package.name`.
    MissingName,
    /// The file could not be read.
    Unreadable,
    /// No such file is built into the program.
    NotFound,
    /// The file does not hold UTF-8 text.
    NotText,
}

/// What loading a schema from `source` gives.
pub open spec fn loaded_schema(schema: Seq<char>, source: SchemaSource<'_>) -> Result<
    Seq<char>,
    SchemaError,
> {
    match schema_file(schema) {
        None => Err(SchemaError::MissingName),
        Some(path) => match source {
            SchemaSource::Directory(Some(text)) => Ok(text@),
            SchemaSource::Directory(None) => Err(SchemaError::Unreadable),
            SchemaSource::Embedded(dir) => match embedded_contents(*dir, path) {
                None => Err(SchemaError::NotFound),
                Some(bytes) => if vstd::utf8::valid_utf8(bytes) {
                    Ok(vstd::utf8::decode_utf8(bytes))
                } else {
                    Err(SchemaError::NotText)
                },
            },
        },
    }
}

/// Splits `text` at every `sep` into texts that can be indexed.
fn parts_of(text: &str, sep: char) -> (r: Vec<String>)
    ensures
        r@.len() == crate::text::pieces(text@, sep).len(),
        r@.len() > 0,
        forall|i: int| 0 <= i < r@.len() ==> (#[trigger] r@[i])@ == crate::text::pieces(text@, sep)[i],
{
    let r = split(text, sep);
    assert forall|i: int| 0 <= i < r@.len() implies (#[trigger] r@[i])@ == crate::text::pieces(
        text@,
        sep,
    )[i] by {
        assert(r@.map_values(|s: String| s@)[i] == r@[i]@);
    }
    assert(r@.map_values(|s: String| s@).len() == r@.len());
    r
}

/// The relative path of the file that holds the message schema `schema`.
pub fn schema_file_path(schema: &str) -> (r: Option<String>)
    ensures
        match r {
            Some(path) => schema_file(schema@) == Some(path@),
            None => schema_file(schema@) is None,
        },
{
    let parts = parts_of(schema, '.');
    if parts.len() > 1 {
        let package = join_texts(parts[0].as_str(), "/");
        let stem = join_texts(package.as_str(), parts[1].as_str());
        Some(join_texts(stem.as_str(), ".msg"))
    } else {
        None
    }
}

/// The schema file that a descriptor for `encoding` needs, as a path relative to the schema
/// directory. Only CDR messages with a schema name need one.
pub fn needed_schema_file(encoding: &str) -> (r: Option<String>)
    ensures
        match r {
            Some(path) => mime_of(encoding@) == "application/cdr"@ && (mime_schema_of(
                encoding@,
            ) matches Some(schema) && schema_file(schema) == Some(path@)),
            None => mime_of(encoding@) != "application/cdr"@ || (mime_schema_of(
                encoding@,
            ) matches Some(schema) ==> schema_file(schema) is None),
        },
{
    let parts = parts_of(encoding, ';');
    if same_text(parts[0].as_str(), "application/cdr") && parts.len() > 1 {
        schema_file_path(parts[1].as_str())
    } else {
        None
    }
}

/// Whether a descriptor for `encoding` depends on the payload of the first message.
pub fn needs_payload(encoding: &str) -> (r: bool)
    ensures
        r == (mime_of(encoding@) == "application/json"@),
{
    let parts = parts_of(encoding, ';');
    same_text(parts[0].as_str(), "application/json")
}

/// The text of the message schema `schema`.
pub fn load_cdr_schema(schema: &str, source: SchemaSource<'_>) -> (r: Result<String, SchemaError>)
    ensures
        match r {
            Ok(text) => loaded_schema(schema@, source) == Ok::<Seq<char>, SchemaError>(text@),
            Err(error) => loaded_schema(schema@, source) == Err::<Seq<char>, SchemaError>(error),
        },
{
    match schema_file_path(schema) {
        None => Err(SchemaError::MissingName),
        Some(path) => match source {
            SchemaSource::Directory(Some(text)) => Ok(text),
            SchemaSource::Directory(None) => Err(SchemaError::Unreadable),
            SchemaSource::Embedded(dir) => match embedded_file(dir, path.as_str()) {
                None => Err(SchemaError::NotFound),
                Some(bytes) => match utf8_text(bytes.as_slice()) {
                    Some(text) => Ok(text),
                    None => Err(SchemaError::NotText),
                },
            },
        },
    }
}

/// The descriptor of a topic with CDR messages whose schema is `name` with text `data`.
pub open spec fn cdr_descriptor(
    topic: Seq<char>,
    name: Seq<char>,
    data: Seq<char>,
) -> DescriptorModel {
    DescriptorModel {
        topic,
        schema: Some(SchemaModel { encoding: SchemaEncoding::Ros2Msg, content: Some((name, data)) }),
        message_encoding: MessageEncoding::Cdr,
    }
}

/// The name of the schema of JSON messages: the one that the encoding gives, else the topic with
/// dots for slashes.
pub open spec fn json_schema_name(topic: Seq<char>, mime_schema: Option<Seq<char>>) -> Seq<char> {
    match mime_schema {
        Some(name) => name,
        None => topic.map_values(
            |c: char|
                if c == '/' {
                    '.'
                } else {
                    c
                },
        ),
    }
}

/// The descriptor of a topic with JSON messages like `value`.
pub open spec fn json_descriptor(
    topic: Seq<char>,
    mime_schema: Option<Seq<char>>,
    value: crate::json::JsonModel,
) -> DescriptorModel {
    DescriptorModel {
        topic,
        schema: Some(
            SchemaModel {
                encoding: SchemaEncoding::JsonSchema,
                content: Some(
                    (
                        json_schema_name(topic, mime_schema),
                        crate::json::json_text(crate::json::schema_of(value)),
                    ),
                ),
            },
        ),
        message_encoding: MessageEncoding::Json,
    }
}

/// What the first message on a topic says of the topic. A CDR topic has a descriptor exactly if
/// its schema can be loaded. A JSON topic has none unless the payload is UTF-8 text that reads as
/// a JSON5 object. Any other topic has none.
pub open spec fn describes(
    topic: Seq<char>,
    encoding: Seq<char>,
    payload: Seq<u8>,
    source: SchemaSource<'_>,
    r: Option<ChannelDescriptor>,
) -> bool {
    if mime_of(encoding) == "application/cdr"@ {
        match mime_schema_of(encoding) {
            Some(name) => match loaded_schema(name, source) {
                Ok(data) => r is Some && r->Some_0@ == cdr_descriptor(topic, name, data),
                Err(_) => r is None,
            },
            None => r is None,
        }
    } else if mime_of(encoding) == "application/json"@ {
        &&& r is Some ==> {
            &&& vstd::utf8::valid_utf8(payload)
            &&& crate::json::json5_document(vstd::utf8::decode_utf8(payload)) matches Some(value)
            &&& value is Object
            &&& r->Some_0@ == json_descriptor(topic, mime_schema_of(encoding), value)
        }
        &&& vstd::utf8::valid_utf8(payload) ==> exists|text: &str, read: Option<Json>|
            {
                &&& text@ == vstd::utf8::decode_utf8(payload)
                &&& #[trigger] call_ensures(read_json5, (text,), read)
                &&& r is Some <==> read is Some && read->Some_0.model() is Object
            }
    } else {
        r is None
    }
}

/// Only for JSON messages a descriptor depends on the payload.
pub proof fn lemma_payload_matters_for_json_only(
    topic: Seq<char>,
    encoding: Seq<char>,
    first: Seq<u8>,
    second: Seq<u8>,
    source: SchemaSource<'_>,
    r: Option<ChannelDescriptor>,
)
    requires
        mime_of(encoding) != "application/json"@,
    ensures
        describes(topic, encoding, first, source, r) == describes(
            topic,
            encoding,
            second,
            source,
            r,
        ),
{
}

impl ChannelDescriptor {
    /// The descriptor of a topic whose first message is the JSON document `value`. Only objects
    /// are recorded.
    pub fn for_json(topic: &str, mime_schema: Option<&str>, value: &Json) -> (r: Option<Self>)
        ensures
            match r {
                Some(descriptor) => value.model() is Object && descriptor@ == json_descriptor(
                    topic@,
                    match mime_schema {
                        Some(name) => Some(name@),
                        None => None,
                    },
                    value.model(),
                ),
                None => !(value.model() is Object),
            },
    {
        match value {
            Json::Object(_) => {},
            _ => {
                return None;
            },
        }
        let name = match mime_schema {
            Some(name) => name.to_owned(),
            None => replace_char(topic, '/', '.'),
        };
        let data = create_schema(value).to_text();
        Some(
            ChannelDescriptor {
                topic: topic.to_owned(),
                schema: Some(
                    SchemaDescriptor {
                        encoding: SchemaEncoding::JsonSchema,
                        content: Some(SchemaDescriptorContent { name, data }),
                    },
                ),
                message_encoding: MessageEncoding::Json,
            },
        )
    }

    /// The descriptor of a topic, judged by the encoding and the payload of its first message.
    /// Whether a JSON text that could be read is read depends on the stack that is left; if it is
    /// read, the topic has a descriptor exactly if the text is an object.
    pub fn new(topic: &str, encoding: &str, payload: &[u8], source: SchemaSource<'_>) -> (r: Option<
        Self,
    >)
        ensures
            describes(topic@, encoding@, payload@, source, r),
    {
        let parts = parts_of(encoding, ';');
        proof {
            reveal_strlit("application/cdr");
            reveal_strlit("application/json");
            assert("application/cdr"@.len() != "application/json"@.len());
        }
        if same_text(parts[0].as_str(), "application/cdr") {
            if parts.len() > 1 {
                match load_cdr_schema(parts[1].as_str(), source) {
                    Ok(data) => Some(
                        ChannelDescriptor {
                            topic: topic.to_owned(),
                            schema: Some(
                                SchemaDescriptor {
                                    encoding: SchemaEncoding::Ros2Msg,
                                    content: Some(
                                        SchemaDescriptorContent { name: parts[1].clone(), data },
                                    ),
                                },
                            ),
                            message_encoding: MessageEncoding::Cdr,
                        },
                    ),
                    Err(_) => None,
                }
            } else {
                None
            }
        } else if same_text(parts[0].as_str(), "application/json") {
            match utf8_text(payload) {
                None => None,
                Some(text) => {
                    let text = text.as_str();
                    let reader = read_json5;
                    let read = reader(text);
                    assert(call_ensures(read_json5, (text,), read));
                    match &read {
                        None => None,
                        Some(value) => if parts.len() > 1 {
                            ChannelDescriptor::for_json(topic, Some(parts[1].as_str()), value)
                        } else {
                            ChannelDescriptor::for_json(topic, None, value)
                        },
                    }
                },
            }
        } else {
            None
        }
    }
}

/// The names under which encodings are registered.
pub proof fn lemma_encoding_names()
    ensures
        SchemaEncoding::Ros2Msg.name() == "ros2msg"@,
        SchemaEncoding::JsonSchema.name() == "jsonschema"@,
        MessageEncoding::Cdr.name() == "cdr"@,
        MessageEncoding::Json.name() == "json"@,
        MessageEncoding::Cdr.name() != MessageEncoding::Json.name(),
        SchemaEncoding::Ros2Msg.name() != SchemaEncoding::JsonSchema.name(),
{
    reveal_strlit("ros2msg");
    reveal_strlit("jsonschema");
    reveal_strlit("cdr");
    reveal_strlit("json");
    assert("cdr"@.len() != "json"@.len());
    assert("ros2msg"@.len() != "jsonschema"@.len());
}

/// An encoding names its media type in front, and after a semicolon its schema; what follows
/// another semicolon does not matter.
pub proof fn lemma_encoding_parts(mime: Seq<char>, schema: Seq<char>, rest: Seq<char>)
    requires
        !mime.contains(';'),
        !schema.contains(';'),
    ensures
        mime_of(mime) == mime,
        mime_schema_of(mime) is None,
        mime_of(mime + seq![';'] + schema) == mime,
        mime_schema_of(mime + seq![';'] + schema) == Some(schema),
        mime_of(mime + seq![';'] + (schema + seq![';'] + rest)) == mime,
        mime_schema_of(mime + seq![';'] + (schema + seq![';'] + rest)) == Some(schema),
{
    crate::text::lemma_pieces(mime, ';', schema);
    crate::text::lemma_pieces(mime, ';', schema + seq![';'] + rest);
    crate::text::lemma_pieces(schema, ';', rest);
}

/// The schema `package.name` stands in the file `package/name.msg`; a further dot and what follows
/// it do not matter, and a name without a dot stands nowhere.
pub proof fn lemma_schema_file(package: Seq<char>, name: Seq<char>, rest: Seq<char>)
    requires
        !package.contains('.'),
        !name.contains('.'),
    ensures
        schema_file(package) is None,
        schema_file(package + seq!['.'] + name) == Some(package + "/"@ + name + ".msg"@),
        schema_file(package + seq!['.'] + (name + seq!['.'] + rest)) == Some(
            package + "/"@ + name + ".msg"@,
        ),
{
    crate::text::lemma_pieces(package, '.', name);
    crate::text::lemma_pieces(package, '.', name + seq!['.'] + rest);
    crate::text::lemma_pieces(name, '.', rest);
}

/// A schema comes from the directory if there is one, as the text of its file; else from the file
/// that is built into the program, if that is there and is text. It comes from nowhere else, and a
/// name without a dot has none.
pub proof fn lemma_schema_sources(
    package: Seq<char>,
    name: Seq<char>,
    read: Option<String>,
    dir: &include_dir::Dir<'static>,
)
    requires
        !package.contains('.'),
        !name.contains('.'),
    ensures
        ({
            let schema = package + seq!['.'] + name;
            let built_in = embedded_contents(*dir, package + "/"@ + name + ".msg"@);
            let loaded = loaded_schema(schema, SchemaSource::Embedded(dir));
            &&& loaded_schema(schema, SchemaSource::Directory(read)) is Ok <==> read is Some
            &&& read is Some ==> loaded_schema(schema, SchemaSource::Directory(read))->Ok_0
                == read->Some_0@
            &&& loaded is Ok <==> built_in is Some && vstd::utf8::valid_utf8(built_in->Some_0)
            &&& loaded is Ok ==> loaded->Ok_0 == vstd::utf8::decode_utf8(built_in->Some_0)
            &&& loaded_schema(package, SchemaSource::Directory(read)) is Err
            &&& loaded_schema(package, SchemaSource::Embedded(dir)) is Err
        }),
{
    lemma_schema_file(package, name, seq![]);
}

/// A topic with CDR messages has a descriptor exactly if its encoding names a schema and that can
/// be loaded. The descriptor is for the topic, says that messages are CDR, and holds the schema
/// under the name that the encoding gives, as a ROS 2 message definition. The payload does not
/// matter.
pub proof fn lemma_cdr_topics(
    topic: Seq<char>,
    schema: Seq<char>,
    payload: Seq<u8>,
    source: SchemaSource<'_>,
    r: Option<ChannelDescriptor>,
)
    requires
        !schema.contains(';'),
        describes(topic, "application/cdr"@ + seq![';'] + schema, payload, source, r),
    ensures
        r is Some <==> loaded_schema(schema, source) is Ok,
        r is Some ==> {
            let descriptor = r->Some_0;
            &&& descriptor.topic@ == topic
            &&& descriptor.message_encoding == MessageEncoding::Cdr
            &&& descriptor.schema is Some
            &&& descriptor.schema->Some_0.encoding == SchemaEncoding::Ros2Msg
            &&& descriptor.schema->Some_0.content is Some
            &&& descriptor.schema->Some_0.content->Some_0.name@ == schema
            &&& descriptor.schema->Some_0.content->Some_0.data@ == loaded_schema(
                schema,
                source,
            )->Ok_0
        },
{
    reveal_strlit("application/cdr");
    lemma_encoding_parts("application/cdr"@, schema, seq![]);
    assert(mime_of("application/cdr"@ + seq![';'] + schema) == "application/cdr"@);
    assert(r is Some ==> r->Some_0@.schema == Some(r->Some_0.schema->Some_0@));
}

/// A topic with JSON messages has a descriptor exactly if the payload is UTF-8 text that the JSON5
/// reader turns into an object: there is none only if the bytes are no text, if the reader, asked
/// about that very text, handed back no value, or if the value that it handed back is no object.
pub proof fn lemma_json_objects_are_described(
    topic: Seq<char>,
    encoding: Seq<char>,
    payload: Seq<u8>,
    source: SchemaSource<'_>,
    r: Option<ChannelDescriptor>,
)
    requires
        mime_of(encoding) == "application/json"@,
        describes(topic, encoding, payload, source, r),
    ensures
        r is None ==> !vstd::utf8::valid_utf8(payload) || exists|text: &str, read: Option<Json>|
            {
                &&& text@ == vstd::utf8::decode_utf8(payload)
                &&& #[trigger] call_ensures(read_json5, (text,), read)
                &&& read is None || !(read->Some_0.model() is Object)
            },
        r is Some ==> vstd::utf8::valid_utf8(payload) && exists|text: &str, read: Option<Json>|
            {
                &&& text@ == vstd::utf8::decode_utf8(payload)
                &&& #[trigger] call_ensures(read_json5, (text,), read)
                &&& read is Some && read->Some_0.model() is Object
            },
{
    reveal_strlit("application/cdr");
    reveal_strlit("application/json");
    assert("application/cdr"@.len() != "application/json"@.len());
}

/// The descriptor of a topic with JSON messages is for the topic, says that messages are JSON, and
/// holds the schema of the document under the name that the encoding gives; without one the name is
/// the topic with a dot for each slash.
pub proof fn lemma_json_descriptor(
    topic: Seq<char>,
    encoding: Seq<char>,
    payload: Seq<u8>,
    source: SchemaSource<'_>,
    r: Option<ChannelDescriptor>,
    i: int,
)
    requires
        mime_of(encoding) == "application/json"@,
        describes(topic, encoding, payload, source, r),
        r is Some,
    ensures
        ({
            let descriptor = r->Some_0;
            let name = descriptor.schema->Some_0.content->Some_0.name@;
            let document = crate::json::json5_document(vstd::utf8::decode_utf8(payload));
            &&& descriptor.topic@ == topic
            &&& descriptor.message_encoding == MessageEncoding::Json
            &&& descriptor.schema is Some
            &&& descriptor.schema->Some_0.encoding == SchemaEncoding::JsonSchema
            &&& descriptor.schema->Some_0.content is Some
            &&& document is Some
            &&& descriptor.schema->Some_0.content->Some_0.data@ == crate::json::json_text(
                crate::json::schema_of(document->Some_0),
            )
            &&& mime_schema_of(encoding) is Some ==> name == mime_schema_of(encoding)->Some_0
            &&& mime_schema_of(encoding) is None ==> name.len() == topic.len()
            &&& mime_schema_of(encoding) is None && 0 <= i < topic.len() ==> name[i] == (
            if topic[i] == '/' {
                '.'
            } else {
                topic[i]
            })
        }),
{
    reveal_strlit("application/cdr");
    reveal_strlit("application/json");
    assert("application/cdr"@.len() != "application/json"@.len());
    assert(r->Some_0@.schema == Some(r->Some_0.schema->Some_0@));
}

/// Topics with any other encoding, and CDR topics without a schema, have no descriptor.
pub proof fn lemma_other_topics_have_none(
    topic: Seq<char>,
    encoding: Seq<char>,
    payload: Seq<u8>,
    source: SchemaSource<'_>,
    r: Option<ChannelDescriptor>,
)
    requires
        describes(topic, encoding, payload, source, r),
    ensures
        mime_of(encoding) != "application/cdr"@ && mime_of(encoding) != "application/json"@
            ==> r is None,
        mime_of(encoding) == "application/cdr"@ && mime_schema_of(encoding) is None ==> r is None,
        mime_of(encoding) == "application/json"@ && !vstd::utf8::valid_utf8(payload) ==> r is None,
{
    reveal_strlit("application/cdr");
    reveal_strlit("application/json");
    assert("application/cdr"@.len() != "application/json"@.len());
}

/// Why a schema cannot be had: its name has no dot, its file in the directory could not be read, no
/// such file is built in, or that file is no text.
pub proof fn lemma_schema_errors(
    package: Seq<char>,
    name: Seq<char>,
    dir: &include_dir::Dir<'static>,
    read: Option<String>,
)
    requires
        !package.contains('.'),
        !name.contains('.'),
    ensures
        ({
            let schema = package + seq!['.'] + name;
            let built_in = embedded_contents(*dir, package + "/"@ + name + ".msg"@);
            let loaded = loaded_schema(schema, SchemaSource::Embedded(dir));
            &&& loaded_schema(package, SchemaSource::Directory(read)) == Err::<
                Seq<char>,
                SchemaError,
            >(SchemaError::MissingName)
            &&& loaded_schema(package, SchemaSource::Embedded(dir)) == Err::<
                Seq<char>,
                SchemaError,
            >(SchemaError::MissingName)
            &&& loaded_schema(schema, SchemaSource::Directory(None)) == Err::<
                Seq<char>,
                SchemaError,
            >(SchemaError::Unreadable)
            &&& built_in is None ==> loaded == Err::<Seq<char>, SchemaError>(SchemaError::NotFound)
            &&& built_in is Some && !vstd::utf8::valid_utf8(built_in->Some_0) ==> loaded == Err::<
                Seq<char>,
                SchemaError,
            >(SchemaError::NotText)
        }),
{
    lemma_schema_file(package, name, seq![]);
}

/// The first message on a topic describes it like this. With JSON messages there is a descriptor
/// exactly if the payload is UTF-8 text and the reader, asked about that very text, hands back an
/// object, whatever the size of the payload. With CDR messages there is one exactly if the schema
/// that the encoding names can be had. Otherwise there is none.
pub proof fn lemma_topics_are_described(
    topic: &str,
    encoding: &str,
    payload: &[u8],
    source: SchemaSource<'_>,
    r: Option<ChannelDescriptor>,
)
    requires
        call_ensures(ChannelDescriptor::new, (topic, encoding, payload, source), r),
    ensures
        mime_of(encoding@) == "application/json"@ && vstd::utf8::valid_utf8(payload@) ==> exists|
            text: &str,
            read: Option<Json>,
        |
            {
                &&& text@ == vstd::utf8::decode_utf8(payload@)
                &&& #[trigger] call_ensures(read_json5, (text,), read)
                &&& r is Some <==> read is Some && read->Some_0.model() is Object
            },
        mime_of(encoding@) == "application/json"@ && !vstd::utf8::valid_utf8(payload@) ==> r
            is None,
        mime_of(encoding@) == "application/cdr"@ ==> (r is Some <==> mime_schema_of(encoding@)
            is Some && loaded_schema(mime_schema_of(encoding@)->Some_0, source) is Ok),
        mime_of(encoding@) != "application/cdr"@ && mime_of(encoding@) != "application/json"@ ==> r
            is None,
        r is Some ==> {
            &&& r->Some_0.topic@ == topic@
            &&& r->Some_0.message_encoding == MessageEncoding::Json <==> mime_of(encoding@)
                == "application/json"@
            &&& r->Some_0.message_encoding == MessageEncoding::Cdr <==> mime_of(encoding@)
                == "application/cdr"@
            &&& r->Some_0.schema is Some && r->Some_0.schema->Some_0.content is Some
            &&& r->Some_0.schema->Some_0.encoding == SchemaEncoding::JsonSchema <==> mime_of(
                encoding@,
            ) == "application/json"@
            &&& mime_schema_of(encoding@) is Some
                ==> r->Some_0.schema->Some_0.content->Some_0.name@ == mime_schema_of(
                encoding@,
            )->Some_0
        },
{
    reveal_strlit("application/cdr");
    reveal_strlit("application/json");
    assert("application/cdr"@.len() != "application/json"@.len());
    if r is Some {
        assert(r->Some_0.schema is Some ==> r->Some_0@.schema == Some(r->Some_0.schema->Some_0@));
    }
}

/// Only for JSON messages the payload is asked for.
pub proof fn lemma_payloads_needed(encoding: &str, r: bool, rest: Seq<char>)
    requires
        call_ensures(needs_payload, (encoding,), r),
    ensures
        encoding@ == "application/json"@ ==> r,
        encoding@ == "application/json"@ + seq![';'] + rest ==> r,
        r ==> "application/json"@.is_prefix_of(encoding@),
{
    reveal_strlit("application/json");
    let mime = "application/json"@;
    crate::text::lemma_pieces(mime, ';', rest);
    if r {
        crate::text::lemma_position(encoding@, ';');
        assert(encoding@.take(crate::text::position(encoding@, ';')) == mime);
    }
}

/// A file is looked for exactly if messages are CDR and the name of their schema has a dot.
pub proof fn lemma_files_needed(encoding: &str, r: Option<String>)
    requires
        call_ensures(needed_schema_file, (encoding,), r),
    ensures
        r is Some <==> mime_of(encoding@) == "application/cdr"@ && mime_schema_of(encoding@) is Some
            && schema_file(mime_schema_of(encoding@)->Some_0) is Some,
        r is Some ==> schema_file(mime_schema_of(encoding@)->Some_0) == Some(r->Some_0@),
{
}

/// A document describes a topic with JSON messages exactly if it is an object.
pub proof fn lemma_objects_describe(
    topic: &str,
    mime_schema: Option<&str>,
    value: &Json,
    r: Option<ChannelDescriptor>,
    i: int,
)
    requires
        call_ensures(ChannelDescriptor::for_json, (topic, mime_schema, value), r),
    ensures
        r is Some <==> value.model() is Object,
        r is Some ==> {
            let content = r->Some_0.schema->Some_0.content->Some_0;
            &&& r->Some_0.topic@ == topic@
            &&& r->Some_0.message_encoding == MessageEncoding::Json
            &&& r->Some_0.schema is Some
            &&& r->Some_0.schema->Some_0.encoding == SchemaEncoding::JsonSchema
            &&& r->Some_0.schema->Some_0.content is Some
            &&& content.data@ == crate::json::json_text(crate::json::schema_of(value.model()))
            &&& mime_schema is Some ==> content.name@ == mime_schema->Some_0@
            &&& mime_schema is None ==> content.name@.len() == topic@.len()
            &&& mime_schema is None && 0 <= i < topic@.len() ==> content.name@[i] == (if topic@[i]
                == '/' {
                '.'
            } else {
                topic@[i]
            })
        },
{
    if r is Some {
        assert(r->Some_0.schema is Some ==> r->Some_0@.schema == Some(r->Some_0.schema->Some_0@));
    }
}

/// A schema comes from the file that its name tells of, in the directory or built in.
pub proof fn lemma_schemas_are_loaded(
    schema: &str,
    source: SchemaSource<'_>,
    r: Result<String, SchemaError>,
)
    requires
        call_ensures(load_cdr_schema, (schema, source), r),
    ensures
        r is Err && r->Err_0 is MissingName <==> schema_file(schema@) is None,
        schema_file(schema@) is Some && source is Directory ==> {
            &&& r is Ok <==> source->Directory_0 is Some
            &&& r is Ok ==> r->Ok_0@ == source->Directory_0->Some_0@
        },
        schema_file(schema@) is Some && source is Embedded ==> {
            let built_in = embedded_contents(*source->Embedded_0, schema_file(schema@)->Some_0);
            &&& r is Ok <==> built_in is Some && vstd::utf8::valid_utf8(built_in->Some_0)
            &&& r is Ok ==> r->Ok_0@ == vstd::utf8::decode_utf8(built_in->Some_0)
        },
{
}

} // verus!
