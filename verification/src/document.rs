use crate::clock::Timestamp;
use crate::payload::{
    texts_view, DeviceInfo, DeviceInfoView, EntityCategory, HAConfigPayload, HAConfigView,
    Payload, PayloadValueType, PayloadValueView, PayloadView, StatePayload, StateView,
};
use std::collections::HashMap;
use vstd::prelude::*;

verus! {

/// A value of the wire format, before it is written out as text. A payload is
/// written without any tag: only the members of its document appear.
#[derive(Debug)]
pub enum JsonValue {
    Null,
    Bool(bool),
    Int(i64),
    UInt(u64),
    /// A single-precision number, as its IEEE 754 bit pattern.
    Float(u32),
    Text(String),
    /// An instant, written as an RFC 3339 date and time in UTC.
    Time(Timestamp),
    List(Vec<JsonValue>),
    /// An object whose members are written in this order.
    Object(Vec<Member>),
    /// An object of texts whose members have no order of their own.
    Table(HashMap<String, String>),
}

/// One member of an object: a key and its value.
#[derive(Debug)]
pub struct Member {
    pub key: String,
    pub value: JsonValue,
}

/// The mathematical counterpart of `JsonValue`.
pub enum JsonView {
    Null,
    Bool(bool),
    Int(i64),
    UInt(u64),
    Float(u32),
    Text(Seq<char>),
    Time(Timestamp),
    List(Seq<JsonView>),
    Object(Seq<(Seq<char>, JsonView)>),
    Table(Map<String, String>),
}

/// The mathematical value that a wire value stands for.
pub open spec fn json_view(v: JsonValue) -> JsonView
    decreases v,
{
    match v {
        JsonValue::Null => JsonView::Null,
        JsonValue::Bool(b) => JsonView::Bool(b),
        JsonValue::Int(n) => JsonView::Int(n),
        JsonValue::UInt(n) => JsonView::UInt(n),
        JsonValue::Float(bits) => JsonView::Float(bits),
        JsonValue::Text(s) => JsonView::Text(s@),
        JsonValue::Time(t) => JsonView::Time(t),
        JsonValue::List(items) => JsonView::List(
            Seq::new(
                items@.len(),
                |i: int|
                    if 0 <= i < items@.len() {
                        json_view(items@[i])
                    } else {
                        JsonView::Null
                    },
            ),
        ),
        JsonValue::Object(members) => JsonView::Object(
            Seq::new(
                members@.len(),
                |i: int|
                    if 0 <= i < members@.len() {
                        (members@[i].key@, json_view(members@[i].value))
                    } else {
                        (Seq::empty(), JsonView::Null)
                    },
            ),
        ),
        JsonValue::Table(m) => JsonView::Table(m@),
    }
}

impl View for JsonValue {
    type V = JsonView;

    open spec fn view(&self) -> JsonView {
        json_view(*self)
    }
}

/// The members that a list of members stands for, in order.
pub open spec fn members_view(members: Seq<Member>) -> Seq<(Seq<char>, JsonView)> {
    Seq::new(members.len(), |i: int| (members[i].key@, json_view(members[i].value)))
}

/// The view of an optional wire value.
pub open spec fn optional_view(o: Option<JsonValue>) -> Option<JsonView> {
    match o {
        Some(v) => Some(json_view(v)),
        None => None,
    }
}

/// The one member with this key and value.
pub open spec fn entry(key: Seq<char>, value: JsonView) -> Seq<(Seq<char>, JsonView)> {
    seq![(key, value)]
}

/// The member of an optional field: present where the field is set, left out
/// where it is not.
pub open spec fn optional(key: Seq<char>, value: Option<JsonView>) -> Seq<(Seq<char>, JsonView)> {
    match value {
        Some(v) => seq![(key, v)],
        None => Seq::empty(),
    }
}

/// An optional text as an optional wire value.
pub open spec fn text_json(o: Option<Seq<char>>) -> Option<JsonView> {
    match o {
        Some(t) => Some(JsonView::Text(t)),
        None => None,
    }
}

/// An optional truth value as an optional wire value.
pub open spec fn bool_json(o: Option<bool>) -> Option<JsonView> {
    match o {
        Some(b) => Some(JsonView::Bool(b)),
        None => None,
    }
}

/// An optional signed number as an optional wire value.
pub open spec fn int_json(o: Option<i32>) -> Option<JsonView> {
    match o {
        Some(n) => Some(JsonView::Int(n as i64)),
        None => None,
    }
}

/// An optional small unsigned number as an optional wire value.
pub open spec fn small_json(o: Option<u8>) -> Option<JsonView> {
    match o {
        Some(n) => Some(JsonView::UInt(n as u64)),
        None => None,
    }
}

/// The list of texts.
pub open spec fn text_list(items: Seq<Seq<char>>) -> JsonView {
    JsonView::List(items.map_values(|t: Seq<char>| JsonView::Text(t)))
}

/// An optional list of texts as an optional wire value.
pub open spec fn list_json(o: Option<Seq<Seq<char>>>) -> Option<JsonView> {
    match o {
        Some(items) => Some(text_list(items)),
        None => None,
    }
}

/// An optional attribute table as an optional wire value.
pub open spec fn table_json(o: Option<Map<String, String>>) -> Option<JsonView> {
    match o {
        Some(m) => Some(JsonView::Table(m)),
        None => None,
    }
}

/// The word that stands for an entity category on the wire.
pub open spec fn category_word(c: EntityCategory) -> Seq<char> {
    match c {
        EntityCategory::Config => "config"@,
        EntityCategory::Diagnostic => "diagnostic"@,
    }
}

/// An optional entity category as an optional wire value.
pub open spec fn category_json(o: Option<EntityCategory>) -> Option<JsonView> {
    match o {
        Some(c) => Some(JsonView::Text(category_word(c))),
        None => None,
    }
}

/// A measured value on the wire: the bare number, text or truth value, and
/// `null` for the absent value.
pub open spec fn value_json(v: PayloadValueView) -> JsonView {
    match v {
        PayloadValueView::Float(bits) => JsonView::Float(bits),
        PayloadValueView::Int(n) => JsonView::Int(n),
        PayloadValueView::Text(t) => JsonView::Text(t),
        PayloadValueView::Boolean(b) => JsonView::Bool(b),
        PayloadValueView::Null => JsonView::Null,
    }
}

/// The members of a device entry.
pub open spec fn device_members(d: DeviceInfoView) -> Seq<(Seq<char>, JsonView)> {
    entry("identifiers"@, text_list(d.identifiers)) + entry(
        "manufacturer"@,
        JsonView::Text(d.manufacturer),
    ) + entry("name"@, JsonView::Text(d.name)) + entry("model"@, JsonView::Text(d.model)) + entry(
        "sw_version"@,
        JsonView::Text(d.sw_version),
    )
}

/// The members that every discovery document has.
pub open spec fn required_members(c: HAConfigView) -> Seq<(Seq<char>, JsonView)> {
    entry("name"@, JsonView::Text(c.name)) + entry(
        "device"@,
        JsonView::Object(device_members(c.device)),
    ) + entry("unique_id"@, JsonView::Text(c.unique_id)) + entry(
        "entity_id"@,
        JsonView::Text(c.entity_id),
    ) + entry("state_topic"@, JsonView::Text(c.state_topic)) + entry(
        "expires_after"@,
        JsonView::UInt(c.expires_after),
    )
}

/// The members of a discovery document: those that every document has, then
/// one for each optional field that is set, in the order of the fields.
pub open spec fn discovery_members(c: HAConfigView) -> Seq<(Seq<char>, JsonView)> {
    required_members(c) + optional("entity_category"@, category_json(c.entity_category))
        + optional("command_topic"@, text_json(c.command_topic)) + optional(
        "payload_on"@,
        text_json(c.payload_on),
    ) + optional("payload_off"@, text_json(c.payload_off)) + optional(
        "state_class"@,
        text_json(c.state_class),
    ) + optional("device_class"@, text_json(c.device_class)) + optional(
        "unit_of_measurement"@,
        text_json(c.native_uom),
    ) + optional("options"@, list_json(c.options)) + optional(
        "value_template"@,
        text_json(c.value_template),
    ) + optional("suggested_display_precision"@, small_json(c.suggested_display_precision))
        + optional("assumed_state"@, bool_json(c.assumed_state)) + optional(
        "attribution"@,
        text_json(c.attribution),
    ) + optional("available"@, bool_json(c.available)) + optional(
        "entity_picture"@,
        text_json(c.entity_picture),
    ) + optional("extra_state_attributes"@, table_json(c.extra_state_attributes)) + optional(
        "has_entity_name"@,
        bool_json(c.has_entity_name),
    ) + optional("should_poll"@, bool_json(c.should_poll)) + optional(
        "translation_key"@,
        text_json(c.translation_key),
    ) + optional("payload_press"@, text_json(c.payload_press)) + optional("min"@, int_json(c.min))
        + optional("max"@, int_json(c.max)) + optional("mode"@, text_json(c.mode)) + optional(
        "step"@,
        int_json(c.step),
    ) + optional("icon"@, text_json(c.icon))
}

/// The members of a state document.
pub open spec fn state_members(s: StateView) -> Seq<(Seq<char>, JsonView)> {
    entry("value"@, value_json(s.value)) + optional("label"@, text_json(s.label)) + optional(
        "description"@,
        text_json(s.description),
    ) + optional("notes"@, text_json(s.notes)) + entry("last_seen"@, JsonView::Time(s.last_seen))
}

/// What a payload looks like on the wire: the document of the variant it
/// holds and nothing that names the variant; the empty marker is `null`.
pub open spec fn payload_document(p: PayloadView) -> JsonView {
    match p {
        PayloadView::Config(c) => JsonView::Object(discovery_members(c)),
        PayloadView::CurrentState(s) => JsonView::Object(state_members(s)),
        PayloadView::Empty => JsonView::Null,
    }
}

/// Appends the member `key: value`.
fn push_entry(members: &mut Vec<Member>, key: &str, value: JsonValue)
    ensures
        members_view(final(members)@) == members_view(old(members)@) + entry(key@, json_view(value)),
{
    members.push(Member { key: String::from_str(key), value });
    assert(members_view(members@) =~= members_view(old(members)@) + entry(key@, json_view(value)));
}

/// Appends the member of an optional field, if the field is set.
fn push_optional(members: &mut Vec<Member>, key: &str, value: Option<JsonValue>)
    ensures
        members_view(final(members)@) == members_view(old(members)@) + optional(
            key@,
            optional_view(value),
        ),
{
    match value {
        Some(v) => {
            members.push(Member { key: String::from_str(key), value: v });
            assert(members_view(members@) =~= members_view(old(members)@) + optional(
                key@,
                optional_view(value),
            ));
        },
        None => {
            assert(members_view(members@) =~= members_view(old(members)@) + optional(
                key@,
                optional_view(value),
            ));
        },
    }
}

/// Wraps a finished list of members into an object.
fn object(members: Vec<Member>) -> (v: JsonValue)
    ensures
        json_view(v) == JsonView::Object(members_view(members@)),
{
    let v = JsonValue::Object(members);
    assert(json_view(v)->Object_0 =~= members_view(members@));
    v
}

/// The wire value of a text.
fn text_value(text: &String) -> (v: JsonValue)
    ensures
        json_view(v) == JsonView::Text(text@),
{
    JsonValue::Text(text.clone())
}

/// The wire value of an optional text.
fn optional_text(o: &Option<String>) -> (v: Option<JsonValue>)
    ensures
        optional_view(v) == text_json(crate::payload::text_view(*o)),
{
    match o {
        Some(t) => Some(text_value(t)),
        None => None,
    }
}

/// The wire value of an optional truth value.
fn optional_bool(o: &Option<bool>) -> (v: Option<JsonValue>)
    ensures
        optional_view(v) == bool_json(*o),
{
    match o {
        Some(b) => Some(JsonValue::Bool(*b)),
        None => None,
    }
}

/// The wire value of an optional signed number.
fn optional_int(o: &Option<i32>) -> (v: Option<JsonValue>)
    ensures
        optional_view(v) == int_json(*o),
{
    match o {
        Some(n) => Some(JsonValue::Int(*n as i64)),
        None => None,
    }
}

/// The wire value of an optional small unsigned number.
fn optional_small(o: &Option<u8>) -> (v: Option<JsonValue>)
    ensures
        optional_view(v) == small_json(*o),
{
    match o {
        Some(n) => Some(JsonValue::UInt(*n as u64)),
        None => None,
    }
}

/// The wire value of an optional entity category.
fn optional_category(o: &Option<EntityCategory>) -> (v: Option<JsonValue>)
    ensures
        optional_view(v) == category_json(*o),
{
    match o {
        Some(EntityCategory::Config) => Some(JsonValue::Text(String::from_str("config"))),
        Some(EntityCategory::Diagnostic) => Some(JsonValue::Text(String::from_str("diagnostic"))),
        None => None,
    }
}

/// The wire value of a list of texts.
fn text_list_value(items: &Vec<String>) -> (v: JsonValue)
    ensures
        json_view(v) == text_list(texts_view(items@)),
{
    let mut out: Vec<JsonValue> = Vec::new();
    let mut i: usize = 0;
    while i < items.len()
        invariant
            0 <= i <= items.len(),
            out@.len() == i,
            forall|k: int| 0 <= k < i ==> json_view(#[trigger] out@[k]) == JsonView::Text(items@[k]@),
        decreases items.len() - i,
    {
        out.push(text_value(&items[i]));
        i = i + 1;
    }
    let v = JsonValue::List(out);
    assert(json_view(v)->List_0 =~= texts_view(items@).map_values(|t: Seq<char>| JsonView::Text(t)));
    v
}

/// The wire value of an optional list of texts.
fn optional_list(o: &Option<Vec<String>>) -> (v: Option<JsonValue>)
    ensures
        optional_view(v) == list_json(crate::payload::list_view(*o)),
{
    match o {
        Some(items) => Some(text_list_value(items)),
        None => None,
    }
}

/// The wire value of an optional attribute table.
fn optional_table(o: &Option<HashMap<String, String>>) -> (v: Option<JsonValue>)
    ensures
        optional_view(v) == table_json(crate::payload::attributes_view(*o)),
{
    match o {
        Some(m) => Some(JsonValue::Table(m.clone())),
        None => None,
    }
}

/// The wire value of a measured value.
fn measured_value(value: &PayloadValueType) -> (v: JsonValue)
    ensures
        json_view(v) == value_json(value@),
{
    match value {
        PayloadValueType::Float(bits) => JsonValue::Float(*bits),
        PayloadValueType::Int(n) => JsonValue::Int(*n),
        PayloadValueType::String(t) => text_value(t),
        PayloadValueType::Boolean(b) => JsonValue::Bool(*b),
        PayloadValueType::Null => JsonValue::Null,
    }
}

impl DeviceInfo {
    /// The device entry as it goes on the wire.
    pub fn document(&self) -> (v: JsonValue)
        ensures
            json_view(v) == JsonView::Object(device_members(self@)),
    {
        let mut members: Vec<Member> = Vec::new();
        assert(members_view(members@) =~= Seq::empty());
        push_entry(&mut members, "identifiers", text_list_value(&self.identifiers));
        push_entry(&mut members, "manufacturer", text_value(&self.manufacturer));
        push_entry(&mut members, "name", text_value(&self.name));
        push_entry(&mut members, "model", text_value(&self.model));
        push_entry(&mut members, "sw_version", text_value(&self.sw_version));
        assert(members_view(members@) =~= device_members(self@));
        object(members)
    }
}

impl HAConfigPayload {
    /// The discovery document as it goes on the wire: a field that is not set
    /// has no member at all.
    pub fn document(&self) -> (v: JsonValue)
        ensures
            json_view(v) == JsonView::Object(discovery_members(self@)),
    {
        let mut members: Vec<Member> = Vec::new();
        assert(members_view(members@) =~= Seq::empty());
        push_entry(&mut members, "name", text_value(&self.name));
        push_entry(&mut members, "device", self.device.document());
        push_entry(&mut members, "unique_id", text_value(&self.unique_id));
        push_entry(&mut members, "entity_id", text_value(&self.entity_id));
        push_entry(&mut members, "state_topic", text_value(&self.state_topic));
        push_entry(&mut members, "expires_after", JsonValue::UInt(self.expires_after));
        assert(members_view(members@) =~= required_members(self@));
        push_optional(&mut members, "entity_category", optional_category(&self.entity_category));
        push_optional(&mut members, "command_topic", optional_text(&self.command_topic));
        push_optional(&mut members, "payload_on", optional_text(&self.payload_on));
        push_optional(&mut members, "payload_off", optional_text(&self.payload_off));
        push_optional(&mut members, "state_class", optional_text(&self.state_class));
        push_optional(&mut members, "device_class", optional_text(&self.device_class));
        push_optional(&mut members, "unit_of_measurement", optional_text(&self.native_uom));
        push_optional(&mut members, "options", optional_list(&self.options));
        push_optional(&mut members, "value_template", optional_text(&self.value_template));
        push_optional(
            &mut members,
            "suggested_display_precision",
            optional_small(&self.suggested_display_precision),
        );
        push_optional(&mut members, "assumed_state", optional_bool(&self.assumed_state));
        push_optional(&mut members, "attribution", optional_text(&self.attribution));
        push_optional(&mut members, "available", optional_bool(&self.available));
        push_optional(&mut members, "entity_picture", optional_text(&self.entity_picture));
        push_optional(
            &mut members,
            "extra_state_attributes",
            optional_table(&self.extra_state_attributes),
        );
        push_optional(&mut members, "has_entity_name", optional_bool(&self.has_entity_name));
        push_optional(&mut members, "should_poll", optional_bool(&self.should_poll));
        push_optional(&mut members, "translation_key", optional_text(&self.translation_key));
        push_optional(&mut members, "payload_press", optional_text(&self.payload_press));
        push_optional(&mut members, "min", optional_int(&self.min));
        push_optional(&mut members, "max", optional_int(&self.max));
        push_optional(&mut members, "mode", optional_text(&self.mode));
        push_optional(&mut members, "step", optional_int(&self.step));
        push_optional(&mut members, "icon", optional_text(&self.icon));
        object(members)
    }
}

impl StatePayload {
    /// The state reading as it goes on the wire.
    pub fn document(&self) -> (v: JsonValue)
        ensures
            json_view(v) == JsonView::Object(state_members(self@)),
    {
        let mut members: Vec<Member> = Vec::new();
        assert(members_view(members@) =~= Seq::empty());
        push_entry(&mut members, "value", measured_value(&self.value));
        push_optional(&mut members, "label", optional_text(&self.label));
        push_optional(&mut members, "description", optional_text(&self.description));
        push_optional(&mut members, "notes", optional_text(&self.notes));
        push_entry(&mut members, "last_seen", JsonValue::Time(self.last_seen));
        assert(members_view(members@) =~= state_members(self@));
        object(members)
    }
}

impl Payload {
    /// The payload as it goes on the wire: first the variant is chosen, then
    /// only that variant's document is written.
    pub fn document(&self) -> (v: JsonValue)
        ensures
            json_view(v) == payload_document(self@),
    {
        match self {
            Payload::Config(c) => c.document(),
            Payload::CurrentState(s) => s.document(),
            Payload::Empty => JsonValue::Null,
        }
    }
}

/// Whether a wire value holds no `null`, however deep.
pub open spec fn free_of_null(v: JsonView) -> bool
    decreases v,
{
    match v {
        JsonView::Null => false,
        JsonView::List(items) => forall|i: int|
            0 <= i < items.len() ==> free_of_null(#[trigger] items[i]),
        JsonView::Object(members) => forall|i: int|
            0 <= i < members.len() ==> free_of_null((#[trigger] members[i]).1),
        _ => true,
    }
}

/// Whether no member of a list of members holds a `null`, however deep.
#[verifier::opaque]
pub open spec fn members_free_of_null(members: Seq<(Seq<char>, JsonView)>) -> bool {
    forall|i: int| 0 <= i < members.len() ==> free_of_null((#[trigger] members[i]).1)
}

/// Whether a list of members has a member with this key.
#[verifier::opaque]
pub open spec fn has_key(members: Seq<(Seq<char>, JsonView)>, key: Seq<char>) -> bool {
    exists|i: int| 0 <= i < members.len() && (#[trigger] members[i]).0 == key
}

/// Whether `key` is the key of a member that every discovery document has.
pub open spec fn is_required_key(key: Seq<char>) -> bool {
    key == "name"@
        || key == "device"@
        || key == "unique_id"@
        || key == "entity_id"@
        || key == "state_topic"@
        || key == "expires_after"@
}

/// Whether `key` is the key of an optional field that is set in `c`.
pub open spec fn is_set_key(c: HAConfigView, key: Seq<char>) -> bool {
    (key == "entity_category"@ && c.entity_category is Some)
        || (key == "command_topic"@ && c.command_topic is Some)
        || (key == "payload_on"@ && c.payload_on is Some)
        || (key == "payload_off"@ && c.payload_off is Some)
        || (key == "state_class"@ && c.state_class is Some)
        || (key == "device_class"@ && c.device_class is Some)
        || (key == "unit_of_measurement"@ && c.native_uom is Some)
        || (key == "options"@ && c.options is Some)
        || (key == "value_template"@ && c.value_template is Some)
        || (key == "suggested_display_precision"@ && c.suggested_display_precision is Some)
        || (key == "assumed_state"@ && c.assumed_state is Some)
        || (key == "attribution"@ && c.attribution is Some)
        || (key == "available"@ && c.available is Some)
        || (key == "entity_picture"@ && c.entity_picture is Some)
        || (key == "extra_state_attributes"@ && c.extra_state_attributes is Some)
        || (key == "has_entity_name"@ && c.has_entity_name is Some)
        || (key == "should_poll"@ && c.should_poll is Some)
        || (key == "translation_key"@ && c.translation_key is Some)
        || (key == "payload_press"@ && c.payload_press is Some)
        || (key == "min"@ && c.min is Some)
        || (key == "max"@ && c.max is Some)
        || (key == "mode"@ && c.mode is Some)
        || (key == "step"@ && c.step is Some)
        || (key == "icon"@ && c.icon is Some)
}

/// One for a field that is set, nothing for one that is not.
pub open spec fn count<A>(field: Option<A>) -> nat {
    if field is Some {
        1
    } else {
        0
    }
}

/// The number of optional fields that are set in `c`.
pub open spec fn set_count(c: HAConfigView) -> nat {
    count(c.entity_category)
        + count(c.command_topic)
        + count(c.payload_on)
        + count(c.payload_off)
        + count(c.state_class)
        + count(c.device_class)
        + count(c.native_uom)
        + count(c.options)
        + count(c.value_template)
        + count(c.suggested_display_precision)
        + count(c.assumed_state)
        + count(c.attribution)
        + count(c.available)
        + count(c.entity_picture)
        + count(c.extra_state_attributes)
        + count(c.has_entity_name)
        + count(c.should_poll)
        + count(c.translation_key)
        + count(c.payload_press)
        + count(c.min)
        + count(c.max)
        + count(c.mode)
        + count(c.step)
        + count(c.icon)
}

/// A list of texts holds no `null`.
proof fn lemma_text_list_is_free_of_null(items: Seq<Seq<char>>)
    ensures
        free_of_null(text_list(items)),
{
    let list = items.map_values(|t: Seq<char>| JsonView::Text(t));
    assert forall|i: int| 0 <= i < list.len() implies free_of_null(#[trigger] list[i]) by {
        assert(list[i] == JsonView::Text(items[i]));
    }
}

/// What joining the member of one optional field to a list of members does
/// to its keys.
proof fn lemma_join_keys(
    front: Seq<(Seq<char>, JsonView)>,
    key: Seq<char>,
    value: Option<JsonView>,
    probe: Seq<char>,
)
    ensures
        has_key(front + optional(key, value), probe) <==> has_key(front, probe) || (key == probe
            && value is Some),
{
    reveal(has_key);
    let joined = front + optional(key, value);
    if has_key(front, probe) {
        let i = choose|i: int| 0 <= i < front.len() && (#[trigger] front[i]).0 == probe;
        assert(joined[i].0 == probe);
    }
    if key == probe && value is Some {
        assert(joined[front.len() as int].0 == probe);
    }
    if has_key(joined, probe) {
        let i = choose|i: int| 0 <= i < joined.len() && (#[trigger] joined[i]).0 == probe;
        if i < front.len() {
            assert(front[i].0 == probe);
        }
    }
}

/// The size of an optional field's member list.
pub open spec fn presence(value: Option<JsonView>) -> nat {
    if value is Some {
        1
    } else {
        0
    }
}

/// What joining the member of one optional field to a list of members does
/// to its size.
proof fn lemma_join_size(front: Seq<(Seq<char>, JsonView)>, key: Seq<char>, value: Option<JsonView>)
    ensures
        (front + optional(key, value)).len() == front.len() + presence(value),
{
}

/// Whether an optional wire value, where it is there, holds no `null`.
pub open spec fn optional_free_of_null(value: Option<JsonView>) -> bool {
    match value {
        Some(v) => free_of_null(v),
        None => true,
    }
}

/// Joining the member of one optional field to a list of members keeps it
/// free of `null`.
proof fn lemma_join_free(front: Seq<(Seq<char>, JsonView)>, key: Seq<char>, value: Option<JsonView>)
    requires
        members_free_of_null(front),
        optional_free_of_null(value),
    ensures
        members_free_of_null(front + optional(key, value)),
{
    reveal(members_free_of_null);
    let joined = front + optional(key, value);
    assert forall|i: int| 0 <= i < joined.len() implies free_of_null((#[trigger] joined[i]).1) by {
        if i < front.len() {
            assert(joined[i] == front[i]);
        }
    }
}

/// An object whose members hold no `null` holds none.
proof fn lemma_object_is_free_of_null(members: Seq<(Seq<char>, JsonView)>)
    requires
        members_free_of_null(members),
    ensures
        free_of_null(JsonView::Object(members)),
{
    reveal(members_free_of_null);
}

/// The keys, the size and the freedom of `null` of the members that every
/// discovery document has.
proof fn lemma_required_members(c: HAConfigView, probe: Seq<char>)
    ensures
        has_key(required_members(c), probe) <==> is_required_key(probe),
        required_members(c).len() == 6,
        members_free_of_null(required_members(c)),
{
    reveal(has_key);
    reveal(members_free_of_null);
    let m = required_members(c);
    assert(m.len() == 6);
    assert(m[0].0 == "name"@);
    assert(m[1].0 == "device"@);
    assert(m[2].0 == "unique_id"@);
    assert(m[3].0 == "entity_id"@);
    assert(m[4].0 == "state_topic"@);
    assert(m[5].0 == "expires_after"@);
    let d = device_members(c.device);
    assert(d.len() == 5);
    lemma_text_list_is_free_of_null(c.device.identifiers);
    assert(free_of_null(d[0].1));
    assert(free_of_null(d[1].1));
    assert(free_of_null(d[2].1));
    assert(free_of_null(d[3].1));
    assert(free_of_null(d[4].1));
    assert(free_of_null(JsonView::Object(d)));
    assert(free_of_null(m[0].1));
    assert(free_of_null(m[1].1));
    assert(free_of_null(m[2].1));
    assert(free_of_null(m[3].1));
    assert(free_of_null(m[4].1));
    assert(free_of_null(m[5].1));
    if has_key(m, probe) {
        let i = choose|i: int| 0 <= i < m.len() && (#[trigger] m[i]).0 == probe;
        assert(is_required_key(probe));
    }
}

/// The keys of a discovery document.
proof fn lemma_discovery_keys(c: HAConfigView, key: Seq<char>)
    ensures
        has_key(discovery_members(c), key) <==> is_required_key(key) || is_set_key(c, key),
{
    lemma_required_members(c, key);
    let m0 = required_members(c);
    lemma_join_keys(m0, "entity_category"@, category_json(c.entity_category), key);
    let m1 = m0 + optional("entity_category"@, category_json(c.entity_category));
    lemma_join_keys(m1, "command_topic"@, text_json(c.command_topic), key);
    let m2 = m1 + optional("command_topic"@, text_json(c.command_topic));
    lemma_join_keys(m2, "payload_on"@, text_json(c.payload_on), key);
    let m3 = m2 + optional("payload_on"@, text_json(c.payload_on));
    lemma_join_keys(m3, "payload_off"@, text_json(c.payload_off), key);
    let m4 = m3 + optional("payload_off"@, text_json(c.payload_off));
    lemma_join_keys(m4, "state_class"@, text_json(c.state_class), key);
    let m5 = m4 + optional("state_class"@, text_json(c.state_class));
    lemma_join_keys(m5, "device_class"@, text_json(c.device_class), key);
    let m6 = m5 + optional("device_class"@, text_json(c.device_class));
    lemma_join_keys(m6, "unit_of_measurement"@, text_json(c.native_uom), key);
    let m7 = m6 + optional("unit_of_measurement"@, text_json(c.native_uom));
    lemma_join_keys(m7, "options"@, list_json(c.options), key);
    let m8 = m7 + optional("options"@, list_json(c.options));
    lemma_join_keys(m8, "value_template"@, text_json(c.value_template), key);
    let m9 = m8 + optional("value_template"@, text_json(c.value_template));
    lemma_join_keys(m9, "suggested_display_precision"@, small_json(c.suggested_display_precision), key);
    let m10 = m9 + optional("suggested_display_precision"@, small_json(c.suggested_display_precision));
    lemma_join_keys(m10, "assumed_state"@, bool_json(c.assumed_state), key);
    let m11 = m10 + optional("assumed_state"@, bool_json(c.assumed_state));
    lemma_join_keys(m11, "attribution"@, text_json(c.attribution), key);
    let m12 = m11 + optional("attribution"@, text_json(c.attribution));
    lemma_join_keys(m12, "available"@, bool_json(c.available), key);
    let m13 = m12 + optional("available"@, bool_json(c.available));
    lemma_join_keys(m13, "entity_picture"@, text_json(c.entity_picture), key);
    let m14 = m13 + optional("entity_picture"@, text_json(c.entity_picture));
    lemma_join_keys(m14, "extra_state_attributes"@, table_json(c.extra_state_attributes), key);
    let m15 = m14 + optional("extra_state_attributes"@, table_json(c.extra_state_attributes));
    lemma_join_keys(m15, "has_entity_name"@, bool_json(c.has_entity_name), key);
    let m16 = m15 + optional("has_entity_name"@, bool_json(c.has_entity_name));
    lemma_join_keys(m16, "should_poll"@, bool_json(c.should_poll), key);
    let m17 = m16 + optional("should_poll"@, bool_json(c.should_poll));
    lemma_join_keys(m17, "translation_key"@, text_json(c.translation_key), key);
    let m18 = m17 + optional("translation_key"@, text_json(c.translation_key));
    lemma_join_keys(m18, "payload_press"@, text_json(c.payload_press), key);
    let m19 = m18 + optional("payload_press"@, text_json(c.payload_press));
    lemma_join_keys(m19, "min"@, int_json(c.min), key);
    let m20 = m19 + optional("min"@, int_json(c.min));
    lemma_join_keys(m20, "max"@, int_json(c.max), key);
    let m21 = m20 + optional("max"@, int_json(c.max));
    lemma_join_keys(m21, "mode"@, text_json(c.mode), key);
    let m22 = m21 + optional("mode"@, text_json(c.mode));
    lemma_join_keys(m22, "step"@, int_json(c.step), key);
    let m23 = m22 + optional("step"@, int_json(c.step));
    lemma_join_keys(m23, "icon"@, text_json(c.icon), key);
    let m24 = m23 + optional("icon"@, text_json(c.icon));
    assert(m24 == discovery_members(c));
}

/// The size of a discovery document.
proof fn lemma_discovery_size(c: HAConfigView)
    ensures
        discovery_members(c).len() == 6 + set_count(c),
{
    lemma_required_members(c, Seq::empty());
    let m0 = required_members(c);
    lemma_join_size(m0, "entity_category"@, category_json(c.entity_category));
    assert(presence(category_json(c.entity_category)) == count(c.entity_category));
    let m1 = m0 + optional("entity_category"@, category_json(c.entity_category));
    lemma_join_size(m1, "command_topic"@, text_json(c.command_topic));
    assert(presence(text_json(c.command_topic)) == count(c.command_topic));
    let m2 = m1 + optional("command_topic"@, text_json(c.command_topic));
    lemma_join_size(m2, "payload_on"@, text_json(c.payload_on));
    assert(presence(text_json(c.payload_on)) == count(c.payload_on));
    let m3 = m2 + optional("payload_on"@, text_json(c.payload_on));
    lemma_join_size(m3, "payload_off"@, text_json(c.payload_off));
    assert(presence(text_json(c.payload_off)) == count(c.payload_off));
    let m4 = m3 + optional("payload_off"@, text_json(c.payload_off));
    lemma_join_size(m4, "state_class"@, text_json(c.state_class));
    assert(presence(text_json(c.state_class)) == count(c.state_class));
    let m5 = m4 + optional("state_class"@, text_json(c.state_class));
    lemma_join_size(m5, "device_class"@, text_json(c.device_class));
    assert(presence(text_json(c.device_class)) == count(c.device_class));
    let m6 = m5 + optional("device_class"@, text_json(c.device_class));
    lemma_join_size(m6, "unit_of_measurement"@, text_json(c.native_uom));
    assert(presence(text_json(c.native_uom)) == count(c.native_uom));
    let m7 = m6 + optional("unit_of_measurement"@, text_json(c.native_uom));
    lemma_join_size(m7, "options"@, list_json(c.options));
    assert(presence(list_json(c.options)) == count(c.options));
    let m8 = m7 + optional("options"@, list_json(c.options));
    lemma_join_size(m8, "value_template"@, text_json(c.value_template));
    assert(presence(text_json(c.value_template)) == count(c.value_template));
    let m9 = m8 + optional("value_template"@, text_json(c.value_template));
    lemma_join_size(m9, "suggested_display_precision"@, small_json(c.suggested_display_precision));
    assert(presence(small_json(c.suggested_display_precision)) == count(c.suggested_display_precision));
    let m10 = m9 + optional("suggested_display_precision"@, small_json(c.suggested_display_precision));
    lemma_join_size(m10, "assumed_state"@, bool_json(c.assumed_state));
    assert(presence(bool_json(c.assumed_state)) == count(c.assumed_state));
    let m11 = m10 + optional("assumed_state"@, bool_json(c.assumed_state));
    lemma_join_size(m11, "attribution"@, text_json(c.attribution));
    assert(presence(text_json(c.attribution)) == count(c.attribution));
    let m12 = m11 + optional("attribution"@, text_json(c.attribution));
    lemma_join_size(m12, "available"@, bool_json(c.available));
    assert(presence(bool_json(c.available)) == count(c.available));
    let m13 = m12 + optional("available"@, bool_json(c.available));
    lemma_join_size(m13, "entity_picture"@, text_json(c.entity_picture));
    assert(presence(text_json(c.entity_picture)) == count(c.entity_picture));
    let m14 = m13 + optional("entity_picture"@, text_json(c.entity_picture));
    lemma_join_size(m14, "extra_state_attributes"@, table_json(c.extra_state_attributes));
    assert(presence(table_json(c.extra_state_attributes)) == count(c.extra_state_attributes));
    let m15 = m14 + optional("extra_state_attributes"@, table_json(c.extra_state_attributes));
    lemma_join_size(m15, "has_entity_name"@, bool_json(c.has_entity_name));
    assert(presence(bool_json(c.has_entity_name)) == count(c.has_entity_name));
    let m16 = m15 + optional("has_entity_name"@, bool_json(c.has_entity_name));
    lemma_join_size(m16, "should_poll"@, bool_json(c.should_poll));
    assert(presence(bool_json(c.should_poll)) == count(c.should_poll));
    let m17 = m16 + optional("should_poll"@, bool_json(c.should_poll));
    lemma_join_size(m17, "translation_key"@, text_json(c.translation_key));
    assert(presence(text_json(c.translation_key)) == count(c.translation_key));
    let m18 = m17 + optional("translation_key"@, text_json(c.translation_key));
    lemma_join_size(m18, "payload_press"@, text_json(c.payload_press));
    assert(presence(text_json(c.payload_press)) == count(c.payload_press));
    let m19 = m18 + optional("payload_press"@, text_json(c.payload_press));
    lemma_join_size(m19, "min"@, int_json(c.min));
    assert(presence(int_json(c.min)) == count(c.min));
    let m20 = m19 + optional("min"@, int_json(c.min));
    lemma_join_size(m20, "max"@, int_json(c.max));
    assert(presence(int_json(c.max)) == count(c.max));
    let m21 = m20 + optional("max"@, int_json(c.max));
    lemma_join_size(m21, "mode"@, text_json(c.mode));
    assert(presence(text_json(c.mode)) == count(c.mode));
    let m22 = m21 + optional("mode"@, text_json(c.mode));
    lemma_join_size(m22, "step"@, int_json(c.step));
    assert(presence(int_json(c.step)) == count(c.step));
    let m23 = m22 + optional("step"@, int_json(c.step));
    lemma_join_size(m23, "icon"@, text_json(c.icon));
    assert(presence(text_json(c.icon)) == count(c.icon));
    let m24 = m23 + optional("icon"@, text_json(c.icon));
    assert(m24 == discovery_members(c));
}

/// No member of a discovery document holds a `null`.
proof fn lemma_discovery_is_free_of_null(c: HAConfigView)
    ensures
        members_free_of_null(discovery_members(c)),
{
    lemma_required_members(c, Seq::empty());
    let m0 = required_members(c);
    lemma_join_free(m0, "entity_category"@, category_json(c.entity_category));
    let m1 = m0 + optional("entity_category"@, category_json(c.entity_category));
    lemma_join_free(m1, "command_topic"@, text_json(c.command_topic));
    let m2 = m1 + optional("command_topic"@, text_json(c.command_topic));
    lemma_join_free(m2, "payload_on"@, text_json(c.payload_on));
    let m3 = m2 + optional("payload_on"@, text_json(c.payload_on));
    lemma_join_free(m3, "payload_off"@, text_json(c.payload_off));
    let m4 = m3 + optional("payload_off"@, text_json(c.payload_off));
    lemma_join_free(m4, "state_class"@, text_json(c.state_class));
    let m5 = m4 + optional("state_class"@, text_json(c.state_class));
    lemma_join_free(m5, "device_class"@, text_json(c.device_class));
    let m6 = m5 + optional("device_class"@, text_json(c.device_class));
    lemma_join_free(m6, "unit_of_measurement"@, text_json(c.native_uom));
    let m7 = m6 + optional("unit_of_measurement"@, text_json(c.native_uom));
    if let Some(items) = c.options {
        lemma_text_list_is_free_of_null(items);
    }
    lemma_join_free(m7, "options"@, list_json(c.options));
    let m8 = m7 + optional("options"@, list_json(c.options));
    lemma_join_free(m8, "value_template"@, text_json(c.value_template));
    let m9 = m8 + optional("value_template"@, text_json(c.value_template));
    lemma_join_free(m9, "suggested_display_precision"@, small_json(c.suggested_display_precision));
    let m10 = m9 + optional("suggested_display_precision"@, small_json(c.suggested_display_precision));
    lemma_join_free(m10, "assumed_state"@, bool_json(c.assumed_state));
    let m11 = m10 + optional("assumed_state"@, bool_json(c.assumed_state));
    lemma_join_free(m11, "attribution"@, text_json(c.attribution));
    let m12 = m11 + optional("attribution"@, text_json(c.attribution));
    lemma_join_free(m12, "available"@, bool_json(c.available));
    let m13 = m12 + optional("available"@, bool_json(c.available));
    lemma_join_free(m13, "entity_picture"@, text_json(c.entity_picture));
    let m14 = m13 + optional("entity_picture"@, text_json(c.entity_picture));
    lemma_join_free(m14, "extra_state_attributes"@, table_json(c.extra_state_attributes));
    let m15 = m14 + optional("extra_state_attributes"@, table_json(c.extra_state_attributes));
    lemma_join_free(m15, "has_entity_name"@, bool_json(c.has_entity_name));
    let m16 = m15 + optional("has_entity_name"@, bool_json(c.has_entity_name));
    lemma_join_free(m16, "should_poll"@, bool_json(c.should_poll));
    let m17 = m16 + optional("should_poll"@, bool_json(c.should_poll));
    lemma_join_free(m17, "translation_key"@, text_json(c.translation_key));
    let m18 = m17 + optional("translation_key"@, text_json(c.translation_key));
    lemma_join_free(m18, "payload_press"@, text_json(c.payload_press));
    let m19 = m18 + optional("payload_press"@, text_json(c.payload_press));
    lemma_join_free(m19, "min"@, int_json(c.min));
    let m20 = m19 + optional("min"@, int_json(c.min));
    lemma_join_free(m20, "max"@, int_json(c.max));
    let m21 = m20 + optional("max"@, int_json(c.max));
    lemma_join_free(m21, "mode"@, text_json(c.mode));
    let m22 = m21 + optional("mode"@, text_json(c.mode));
    lemma_join_free(m22, "step"@, int_json(c.step));
    let m23 = m22 + optional("step"@, int_json(c.step));
    lemma_join_free(m23, "icon"@, text_json(c.icon));
    let m24 = m23 + optional("icon"@, text_json(c.icon));
    assert(m24 == discovery_members(c));
}

/// A discovery document leaves out every optional field that is not set: a
/// key stands in it exactly if it is the key of a member that every document
/// has or of an optional field that is set, the document has as many members
/// as that makes, and nowhere in it, however deep, stands a `null`.
pub proof fn lemma_unset_fields_are_omitted(c: HAConfigView, key: Seq<char>)
    ensures
        has_key(discovery_members(c), key) <==> is_required_key(key) || is_set_key(c, key),
        discovery_members(c).len() == 6 + set_count(c),
        free_of_null(JsonView::Object(discovery_members(c))),
{
    lemma_discovery_keys(c, key);
    lemma_discovery_size(c);
    lemma_discovery_is_free_of_null(c);
    lemma_object_is_free_of_null(discovery_members(c));
}

} // verus!
