//! The wire frames: an envelope of three fields, and the chat message that a
//! `message` envelope carries, itself written as JSON, in its `data` field.

use vstd::prelude::*;
use vstd::string::*;
use crate::json::{
    lemma_array_items, parse, parsed_document, quote, string_literal, Json, JsonValue,
};
use crate::text::same_text;

verus! {

/// The kinds of envelope that this client knows.
#[derive(Clone, Copy, Debug, PartialEq, Eq, Structural)]
pub enum MsgTypes {
    Users,
    Register,
    Message,
}

/// The wire unit: `{"messageType": .., "dataArray": .., "data": ..}`.
#[derive(Clone, Debug, PartialEq, Eq)]
pub struct WebSocketMessage {
    pub message_type: MsgTypes,
    pub data_array: Option<Vec<String>>,
    pub data: Option<String>,
}

/// A chat message: `{"from": .., "message": ..}`.
#[derive(Clone, Debug, PartialEq, Eq)]
pub struct MessageData {
    pub from: String,
    pub message: String,
}

/// Why a text is no frame.
#[derive(Clone, Copy, Debug, PartialEq, Eq, Structural)]
pub enum DecodeError {
    /// The text is not JSON.
    Syntax,
    /// The text is JSON of another shape than the frame's.
    Shape,
}

/// An envelope as a mathematical value.
pub ghost struct Envelope {
    pub message_type: MsgTypes,
    pub data_array: Option<Seq<Seq<char>>>,
    pub data: Option<Seq<char>>,
}

/// A chat message as a mathematical value.
pub ghost struct ChatMessage {
    pub from: Seq<char>,
    pub message: Seq<char>,
}

/// The texts that a list of strings holds.
pub open spec fn texts(list: Seq<String>) -> Seq<Seq<char>> {
    Seq::new(list.len(), |i: int| list[i]@)
}

impl View for WebSocketMessage {
    type V = Envelope;

    open spec fn view(&self) -> Envelope {
        Envelope {
            message_type: self.message_type,
            data_array: match self.data_array {
                Some(list) => Some(texts(list@)),
                None => None,
            },
            data: match self.data {
                Some(text) => Some(text@),
                None => None,
            },
        }
    }
}

impl View for MessageData {
    type V = ChatMessage;

    open spec fn view(&self) -> ChatMessage {
        ChatMessage { from: self.from@, message: self.message@ }
    }
}

// ---------------------------------------------------------------------------
// Writing
// ---------------------------------------------------------------------------

/// The tag that stands for a kind on the wire.
pub open spec fn kind_tag(kind: MsgTypes) -> Seq<char> {
    match kind {
        MsgTypes::Users => "users"@,
        MsgTypes::Register => "register"@,
        MsgTypes::Message => "message"@,
    }
}

/// An optional string on the wire: its literal, or `null`.
pub open spec fn encoded_text(text: Option<Seq<char>>) -> Seq<char> {
    match text {
        Some(t) => string_literal(t),
        None => "null"@,
    }
}

/// The literals of `items`, separated by commas.
pub open spec fn encoded_items(items: Seq<Seq<char>>) -> Seq<char>
    decreases items.len(),
{
    if items.len() == 0 {
        Seq::empty()
    } else if items.len() == 1 {
        string_literal(items[0])
    } else {
        encoded_items(items.drop_last()) + ","@ + string_literal(items.last())
    }
}

/// An optional list of strings on the wire: an array of literals, or `null`.
pub open spec fn encoded_list(list: Option<Seq<Seq<char>>>) -> Seq<char> {
    match list {
        Some(items) => "["@ + encoded_items(items) + "]"@,
        None => "null"@,
    }
}

/// The frame of an envelope: its three fields in their fixed order, without
/// white space.
pub open spec fn encoded_envelope(envelope: Envelope) -> Seq<char> {
    "{\"messageType\":"@ + string_literal(kind_tag(envelope.message_type)) + ",\"dataArray\":"@
        + encoded_list(envelope.data_array) + ",\"data\":"@ + encoded_text(envelope.data) + "}"@
}

/// The text of a chat message, as a `message` envelope carries it.
pub open spec fn encoded_message(message: ChatMessage) -> Seq<char> {
    "{\"from\":"@ + string_literal(message.from) + ",\"message\":"@ + string_literal(
        message.message,
    ) + "}"@
}

impl MsgTypes {
    /// The tag that stands for the kind on the wire.
    pub fn tag(&self) -> (tag: &'static str)
        ensures
            tag@ == kind_tag(*self),
    {
        match self {
            MsgTypes::Users => "users",
            MsgTypes::Register => "register",
            MsgTypes::Message => "message",
        }
    }
}

fn write_text(out: &mut String, text: &Option<String>)
    ensures
        final(out)@ == old(out)@ + encoded_text(
            match *text {
                Some(t) => Some(t@),
                None => None,
            },
        ),
{
    match text {
        Some(t) => {
            let literal = quote(t.as_str());
            out.append(literal.as_str());
        },
        None => out.append("null"),
    }
}

fn write_items(out: &mut String, items: &Vec<String>)
    ensures
        final(out)@ == old(out)@ + encoded_items(texts(items@)),
{
    let ghost all = texts(items@);
    let ghost start = out@;
    let mut i: usize = 0;
    assert(all.take(0) =~= Seq::<Seq<char>>::empty());
    assert(out@ =~= start + encoded_items(all.take(0)));
    while i < items.len()
        invariant
            i <= items.len(),
            all == texts(items@),
            out@ == start + encoded_items(all.take(i as int)),
        decreases items.len() - i,
    {
        let ghost before = out@;
        let ghost done = all.take(i as int);
        let ghost next = all.take(i + 1);
        if i > 0 {
            out.append(",");
        }
        let literal = quote(items[i].as_str());
        out.append(literal.as_str());
        proof {
            assert(next.drop_last() =~= done);
            assert(next.last() == items@[i as int]@);
            if i == 0 {
                assert(done.len() == 0);
                assert(encoded_items(done) =~= Seq::<char>::empty());
                assert(next.len() == 1);
                assert(next[0] == next.last());
                assert(out@ =~= start + encoded_items(next));
            } else {
                assert(next.len() > 1);
                assert(out@ =~= start + encoded_items(next));
            }
        }
        i += 1;
    }
    assert(all.take(i as int) =~= all);
}

fn write_list(out: &mut String, list: &Option<Vec<String>>)
    ensures
        final(out)@ == old(out)@ + encoded_list(
            match *list {
                Some(items) => Some(texts(items@)),
                None => None,
            },
        ),
{
    let ghost start = out@;
    match list {
        Some(items) => {
            out.append("[");
            write_items(out, items);
            out.append("]");
            assert(out@ =~= start + ("["@ + encoded_items(texts(items@)) + "]"@));
        },
        None => out.append("null"),
    }
}

impl WebSocketMessage {
    /// Writes the envelope as a frame.
    pub fn encode(&self) -> (frame: String)
        ensures
            frame@ == encoded_envelope(self@),
    {
        let mut out: String = "{\"messageType\":".to_owned();
        let kind = quote(self.message_type.tag());
        out.append(kind.as_str());
        out.append(",\"dataArray\":");
        write_list(&mut out, &self.data_array);
        out.append(",\"data\":");
        write_text(&mut out, &self.data);
        out.append("}");
        assert(out@ =~= encoded_envelope(self@));
        out
    }
}

impl MessageData {
    /// Writes the message as the text that a `message` envelope carries.
    pub fn encode(&self) -> (text: String)
        ensures
            text@ == encoded_message(self@),
    {
        let mut out: String = "{\"from\":".to_owned();
        let from = quote(self.from.as_str());
        out.append(from.as_str());
        out.append(",\"message\":");
        let message = quote(self.message.as_str());
        out.append(message.as_str());
        out.append("}");
        assert(out@ =~= encoded_message(self@));
        out
    }
}

// ---------------------------------------------------------------------------
// Reading
// ---------------------------------------------------------------------------

/// The kind that a tag stands for; nothing for a tag outside the set.
pub open spec fn kind_of(tag: Seq<char>) -> Option<MsgTypes> {
    if tag == "users"@ {
        Some(MsgTypes::Users)
    } else if tag == "register"@ {
        Some(MsgTypes::Register)
    } else if tag == "message"@ {
        Some(MsgTypes::Message)
    } else {
        None
    }
}

/// A member that has to be a string.
pub open spec fn required_text(doc: JsonValue, key: Seq<char>) -> Result<Seq<char>, DecodeError> {
    match doc.field(key) {
        Some(JsonValue::Text(t)) => Ok(t),
        _ => Err(DecodeError::Shape),
    }
}

/// A member that is a string, or is `null` or absent.
pub open spec fn optional_text(doc: JsonValue, key: Seq<char>) -> Result<
    Option<Seq<char>>,
    DecodeError,
> {
    match doc.field(key) {
        None => Ok(None),
        Some(JsonValue::Null) => Ok(None),
        Some(JsonValue::Text(t)) => Ok(Some(t)),
        Some(_) => Err(DecodeError::Shape),
    }
}

/// Whether every item is a string.
pub open spec fn all_text(items: Seq<JsonValue>) -> bool {
    forall|i: int| 0 <= i < items.len() ==> (#[trigger] items[i]) is Text
}

/// The strings that the items are.
pub open spec fn item_texts(items: Seq<JsonValue>) -> Seq<Seq<char>> {
    Seq::new(items.len(), |i: int| items[i]->Text_0)
}

/// A member that is an array of strings, or is `null` or absent.
pub open spec fn optional_list(doc: JsonValue, key: Seq<char>) -> Result<
    Option<Seq<Seq<char>>>,
    DecodeError,
> {
    match doc.field(key) {
        None => Ok(None),
        Some(JsonValue::Null) => Ok(None),
        Some(JsonValue::Array(items)) => if all_text(items) {
            Ok(Some(item_texts(items)))
        } else {
            Err(DecodeError::Shape)
        },
        Some(_) => Err(DecodeError::Shape),
    }
}

/// The envelope that a document is. A document is an envelope where it is an
/// object whose `messageType` is a string, whose `dataArray` is an array of
/// strings, `null` or absent, and whose `data` is a string, `null` or absent;
/// other members are passed over. An envelope of a kind outside the set is
/// accepted and gives nothing.
pub open spec fn envelope_of(doc: JsonValue) -> Result<Option<Envelope>, DecodeError> {
    if !(doc is Object) {
        Err(DecodeError::Shape)
    } else {
        match required_text(doc, "messageType"@) {
            Err(e) => Err(e),
            Ok(tag) => match optional_list(doc, "dataArray"@) {
                Err(e) => Err(e),
                Ok(data_array) => match optional_text(doc, "data"@) {
                    Err(e) => Err(e),
                    Ok(data) => match kind_of(tag) {
                        Some(message_type) => Ok(Some(Envelope { message_type, data_array, data })),
                        None => Ok(None),
                    },
                },
            },
        }
    }
}

/// The chat message that a document is: an object whose `from` and `message`
/// are strings; other members are passed over.
pub open spec fn message_of(doc: JsonValue) -> Result<ChatMessage, DecodeError> {
    if !(doc is Object) {
        Err(DecodeError::Shape)
    } else {
        match required_text(doc, "from"@) {
            Err(e) => Err(e),
            Ok(from) => match required_text(doc, "message"@) {
                Err(e) => Err(e),
                Ok(message) => Ok(ChatMessage { from, message }),
            },
        }
    }
}

/// What a frame decodes to.
pub open spec fn decoded_envelope(frame: Seq<char>) -> Result<Option<Envelope>, DecodeError> {
    match parsed_document(frame) {
        Some(doc) => envelope_of(doc),
        None => Err(DecodeError::Syntax),
    }
}

/// What the text carried by a `message` envelope decodes to.
pub open spec fn decoded_message(text: Seq<char>) -> Result<ChatMessage, DecodeError> {
    match parsed_document(text) {
        Some(doc) => message_of(doc),
        None => Err(DecodeError::Syntax),
    }
}

/// Each kind's tag reads back as that kind.
pub proof fn lemma_kind_of_tag(kind: MsgTypes)
    ensures
        kind_of(kind_tag(kind)) == Some(kind),
{
    reveal_strlit("users");
    reveal_strlit("register");
    reveal_strlit("message");
    assert("users"@.len() == 5);
    assert("register"@.len() == 8);
    assert("message"@.len() == 7);
}

fn read_kind(tag: &str) -> (r: Option<MsgTypes>)
    ensures
        r == kind_of(tag@),
{
    if same_text(tag, "users") {
        Some(MsgTypes::Users)
    } else if same_text(tag, "register") {
        Some(MsgTypes::Register)
    } else if same_text(tag, "message") {
        Some(MsgTypes::Message)
    } else {
        None
    }
}

fn read_required_text(doc: &Json, key: &str) -> (r: Result<String, DecodeError>)
    ensures
        match r {
            Ok(t) => required_text(doc@, key@) == Ok::<Seq<char>, DecodeError>(t@),
            Err(e) => required_text(doc@, key@) == Err::<Seq<char>, DecodeError>(e),
        },
{
    match doc.field(key) {
        Some(Json::Text(t)) => Ok(t.clone()),
        _ => Err(DecodeError::Shape),
    }
}

fn read_optional_text(doc: &Json, key: &str) -> (r: Result<Option<String>, DecodeError>)
    ensures
        match r {
            Ok(Some(t)) => optional_text(doc@, key@) == Ok::<Option<Seq<char>>, DecodeError>(
                Some(t@),
            ),
            Ok(None) => optional_text(doc@, key@) == Ok::<Option<Seq<char>>, DecodeError>(None),
            Err(e) => optional_text(doc@, key@) == Err::<Option<Seq<char>>, DecodeError>(e),
        },
{
    match doc.field(key) {
        None => Ok(None),
        Some(Json::Null) => Ok(None),
        Some(Json::Text(t)) => Ok(Some(t.clone())),
        Some(_) => Err(DecodeError::Shape),
    }
}

fn read_items(items: &Vec<Json>) -> (r: Option<Vec<String>>)
    ensures
        match r {
            Some(list) => all_text(Json::Array(*items)@->Array_0) && texts(list@) == item_texts(
                Json::Array(*items)@->Array_0,
            ),
            None => !all_text(Json::Array(*items)@->Array_0),
        },
{
    let ghost values = Json::Array(*items)@->Array_0;
    proof {
        lemma_array_items(*items);
    }
    let mut list: Vec<String> = Vec::new();
    let mut i: usize = 0;
    while i < items.len()
        invariant
            i <= items.len(),
            values == Json::Array(*items)@->Array_0,
            values.len() == items@.len(),
            forall|k: int| 0 <= k < items@.len() ==> values[k] == (#[trigger] items@[k])@,
            list@.len() == i,
            forall|k: int| 0 <= k < i ==> (#[trigger] values[k]) is Text,
            forall|k: int| 0 <= k < i ==> (#[trigger] list@[k])@ == values[k]->Text_0,
        decreases items.len() - i,
    {
        match &items[i] {
            Json::Text(t) => {
                list.push(t.clone());
            },
            _ => {
                assert(values[i as int] == items@[i as int]@);
                assert(!(values[i as int] is Text));
                assert(!all_text(values));
                return None;
            },
        }
        i += 1;
    }
    assert(texts(list@) =~= item_texts(values));
    Some(list)
}

fn read_optional_list(doc: &Json, key: &str) -> (r: Result<Option<Vec<String>>, DecodeError>)
    ensures
        match r {
            Ok(Some(list)) => optional_list(doc@, key@) == Ok::<
                Option<Seq<Seq<char>>>,
                DecodeError,
            >(Some(texts(list@))),
            Ok(None) => optional_list(doc@, key@) == Ok::<Option<Seq<Seq<char>>>, DecodeError>(
                None,
            ),
            Err(e) => optional_list(doc@, key@) == Err::<Option<Seq<Seq<char>>>, DecodeError>(e),
        },
{
    match doc.field(key) {
        None => Ok(None),
        Some(Json::Null) => Ok(None),
        Some(Json::Array(items)) => match read_items(items) {
            Some(list) => Ok(Some(list)),
            None => Err(DecodeError::Shape),
        },
        Some(_) => Err(DecodeError::Shape),
    }
}

fn is_object(doc: &Json) -> (r: bool)
    ensures
        r == (doc@ is Object),
{
    match doc {
        Json::Object(_) => true,
        _ => false,
    }
}

impl WebSocketMessage {
    /// The envelope that a document is, where it is one of a known kind.
    pub fn from_json(doc: &Json) -> (r: Result<Option<WebSocketMessage>, DecodeError>)
        ensures
            match r {
                Ok(Some(envelope)) => envelope_of(doc@) == Ok::<Option<Envelope>, DecodeError>(
                    Some(envelope@),
                ),
                Ok(None) => envelope_of(doc@) == Ok::<Option<Envelope>, DecodeError>(None),
                Err(e) => envelope_of(doc@) == Err::<Option<Envelope>, DecodeError>(e),
            },
    {
        if !is_object(doc) {
            return Err(DecodeError::Shape);
        }
        let tag = match read_required_text(doc, "messageType") {
            Ok(tag) => tag,
            Err(e) => {
                return Err(e);
            },
        };
        let data_array = match read_optional_list(doc, "dataArray") {
            Ok(list) => list,
            Err(e) => {
                return Err(e);
            },
        };
        let data = match read_optional_text(doc, "data") {
            Ok(text) => text,
            Err(e) => {
                return Err(e);
            },
        };
        match read_kind(tag.as_str()) {
            Some(message_type) => Ok(Some(WebSocketMessage { message_type, data_array, data })),
            None => Ok(None),
        }
    }

    /// Reads a frame. `Ok(None)` is a well-formed frame of a kind that this
    /// client does not know: it is accepted, and there is nothing to do.
    pub fn decode(frame: &str) -> (r: Result<Option<WebSocketMessage>, DecodeError>)
        ensures
            match r {
                Ok(Some(envelope)) => decoded_envelope(frame@) == Ok::<
                    Option<Envelope>,
                    DecodeError,
                >(Some(envelope@)),
                Ok(None) => decoded_envelope(frame@) == Ok::<Option<Envelope>, DecodeError>(None),
                Err(e) => decoded_envelope(frame@) == Err::<Option<Envelope>, DecodeError>(e),
            },
    {
        match parse(frame) {
            Some(doc) => WebSocketMessage::from_json(&doc),
            None => Err(DecodeError::Syntax),
        }
    }
}

impl MessageData {
    /// The chat message that a document is.
    pub fn from_json(doc: &Json) -> (r: Result<MessageData, DecodeError>)
        ensures
            match r {
                Ok(message) => message_of(doc@) == Ok::<ChatMessage, DecodeError>(message@),
                Err(e) => message_of(doc@) == Err::<ChatMessage, DecodeError>(e),
            },
    {
        if !is_object(doc) {
            return Err(DecodeError::Shape);
        }
        let from = match read_required_text(doc, "from") {
            Ok(from) => from,
            Err(e) => {
                return Err(e);
            },
        };
        let message = match read_required_text(doc, "message") {
            Ok(message) => message,
            Err(e) => {
                return Err(e);
            },
        };
        Ok(MessageData { from, message })
    }

    /// Reads the text that a `message` envelope carries.
    pub fn decode(text: &str) -> (r: Result<MessageData, DecodeError>)
        ensures
            match r {
                Ok(message) => decoded_message(text@) == Ok::<ChatMessage, DecodeError>(message@),
                Err(e) => decoded_message(text@) == Err::<ChatMessage, DecodeError>(e),
            },
    {
        match parse(text) {
            Some(doc) => MessageData::from_json(&doc),
            None => Err(DecodeError::Syntax),
        }
    }
}

} // verus!
