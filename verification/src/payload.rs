use crate::clock::{utc_now, Timestamp};
use std::collections::HashMap;
use vstd::prelude::*;

verus! {

/// The text of an optional string.
pub open spec fn text_view(o: Option<String>) -> Option<Seq<char>> {
    match o {
        Some(s) => Some(s@),
        None => None,
    }
}

/// The texts of a list of strings, in order.
pub open spec fn texts_view(v: Seq<String>) -> Seq<Seq<char>> {
    v.map_values(|s: String| s@)
}

/// The texts of an optional list of strings.
pub open spec fn list_view(o: Option<Vec<String>>) -> Option<Seq<Seq<char>>> {
    match o {
        Some(v) => Some(texts_view(v@)),
        None => None,
    }
}

/// The entries of an optional attribute table.
pub open spec fn attributes_view(o: Option<HashMap<String, String>>) -> Option<
    Map<String, String>,
> {
    match o {
        Some(m) => Some(m@),
        None => None,
    }
}

/// The device that owns a sensor entity, as the home-automation platform
/// registers it.
#[derive(Debug, Clone)]
pub struct DeviceInfo {
    pub identifiers: Vec<String>,
    pub manufacturer: String,
    pub name: String,
    pub model: String,
    pub sw_version: String,
}

/// The mathematical counterpart of `DeviceInfo`.
pub struct DeviceInfoView {
    pub identifiers: Seq<Seq<char>>,
    pub manufacturer: Seq<char>,
    pub name: Seq<char>,
    pub model: Seq<char>,
    pub sw_version: Seq<char>,
}

impl View for DeviceInfo {
    type V = DeviceInfoView;

    open spec fn view(&self) -> DeviceInfoView {
        DeviceInfoView {
            identifiers: texts_view(self.identifiers@),
            manufacturer: self.manufacturer@,
            name: self.name@,
            model: self.model@,
            sw_version: self.sw_version@,
        }
    }
}

impl DeviceInfoView {
    /// The device with no identifier and every text empty.
    pub open spec fn blank() -> DeviceInfoView {
        DeviceInfoView {
            identifiers: Seq::empty(),
            manufacturer: Seq::empty(),
            name: Seq::empty(),
            model: Seq::empty(),
            sw_version: Seq::empty(),
        }
    }
}

impl Default for DeviceInfo {
    fn default() -> (r: DeviceInfo)
        ensures
            r@ == DeviceInfoView::blank(),
    {
        let r = DeviceInfo {
            identifiers: Vec::new(),
            manufacturer: String::new(),
            name: String::new(),
            model: String::new(),
            sw_version: String::new(),
        };
        assert(texts_view(r.identifiers@) =~= Seq::<Seq<char>>::empty());
        r
    }
}

/// A measured value. A floating-point value is carried as its IEEE 754
/// single-precision bit pattern; `Null` is the absent value.
#[derive(Debug, Clone)]
pub enum PayloadValueType {
    Float(u32),
    Int(i64),
    String(String),
    Boolean(bool),
    Null,
}

/// The mathematical counterpart of `PayloadValueType`.
pub enum PayloadValueView {
    Float(u32),
    Int(i64),
    Text(Seq<char>),
    Boolean(bool),
    Null,
}

impl View for PayloadValueType {
    type V = PayloadValueView;

    open spec fn view(&self) -> PayloadValueView {
        match self {
            PayloadValueType::Float(bits) => PayloadValueView::Float(*bits),
            PayloadValueType::Int(n) => PayloadValueView::Int(*n),
            PayloadValueType::String(s) => PayloadValueView::Text(s@),
            PayloadValueType::Boolean(b) => PayloadValueView::Boolean(*b),
            PayloadValueType::Null => PayloadValueView::Null,
        }
    }
}

impl Default for PayloadValueType {
    fn default() -> (r: PayloadValueType)
        ensures
            r@ == PayloadValueView::Null,
    {
        PayloadValueType::Null
    }
}

/// Where the home-automation platform files an entity.
#[derive(Debug, Clone, Copy, PartialEq, Eq, Structural)]
pub enum EntityCategory {
    Config,
    Diagnostic,
}

impl Default for EntityCategory {
    fn default() -> (r: EntityCategory)
        ensures
            r == EntityCategory::Diagnostic,
    {
        EntityCategory::Diagnostic
    }
}

/// The discovery document from which the home-automation platform configures
/// a sensor entity by itself.
#[derive(Debug, Clone)]
pub struct HAConfigPayload {
    pub name: String,
    pub device: DeviceInfo,
    pub unique_id: String,
    pub entity_id: String,
    pub state_topic: String,
    pub expires_after: u64,
    pub entity_category: Option<EntityCategory>,
    pub command_topic: Option<String>,
    pub payload_on: Option<String>,
    pub payload_off: Option<String>,
    pub state_class: Option<String>,
    pub device_class: Option<String>,
    pub native_uom: Option<String>,
    pub options: Option<Vec<String>>,
    pub value_template: Option<String>,
    pub suggested_display_precision: Option<u8>,
    pub assumed_state: Option<bool>,
    pub attribution: Option<String>,
    pub available: Option<bool>,
    pub entity_picture: Option<String>,
    pub extra_state_attributes: Option<HashMap<String, String>>,
    pub has_entity_name: Option<bool>,
    pub should_poll: Option<bool>,
    pub translation_key: Option<String>,
    pub payload_press: Option<String>,
    pub min: Option<i32>,
    pub max: Option<i32>,
    pub mode: Option<String>,
    pub step: Option<i32>,
    pub icon: Option<String>,
}

/// The mathematical counterpart of `HAConfigPayload`.
pub struct HAConfigView {
    pub name: Seq<char>,
    pub device: DeviceInfoView,
    pub unique_id: Seq<char>,
    pub entity_id: Seq<char>,
    pub state_topic: Seq<char>,
    pub expires_after: u64,
    pub entity_category: Option<EntityCategory>,
    pub command_topic: Option<Seq<char>>,
    pub payload_on: Option<Seq<char>>,
    pub payload_off: Option<Seq<char>>,
    pub state_class: Option<Seq<char>>,
    pub device_class: Option<Seq<char>>,
    pub native_uom: Option<Seq<char>>,
    pub options: Option<Seq<Seq<char>>>,
    pub value_template: Option<Seq<char>>,
    pub suggested_display_precision: Option<u8>,
    pub assumed_state: Option<bool>,
    pub attribution: Option<Seq<char>>,
    pub available: Option<bool>,
    pub entity_picture: Option<Seq<char>>,
    pub extra_state_attributes: Option<Map<String, String>>,
    pub has_entity_name: Option<bool>,
    pub should_poll: Option<bool>,
    pub translation_key: Option<Seq<char>>,
    pub payload_press: Option<Seq<char>>,
    pub min: Option<i32>,
    pub max: Option<i32>,
    pub mode: Option<Seq<char>>,
    pub step: Option<i32>,
    pub icon: Option<Seq<char>>,
}

impl View for HAConfigPayload {
    type V = HAConfigView;

    open spec fn view(&self) -> HAConfigView {
        HAConfigView {
            name: self.name@,
            device: self.device@,
            unique_id: self.unique_id@,
            entity_id: self.entity_id@,
            state_topic: self.state_topic@,
            expires_after: self.expires_after,
            entity_category: self.entity_category,
            command_topic: text_view(self.command_topic),
            payload_on: text_view(self.payload_on),
            payload_off: text_view(self.payload_off),
            state_class: text_view(self.state_class),
            device_class: text_view(self.device_class),
            native_uom: text_view(self.native_uom),
            options: list_view(self.options),
            value_template: text_view(self.value_template),
            suggested_display_precision: self.suggested_display_precision,
            assumed_state: self.assumed_state,
            attribution: text_view(self.attribution),
            available: self.available,
            entity_picture: text_view(self.entity_picture),
            extra_state_attributes: attributes_view(self.extra_state_attributes),
            has_entity_name: self.has_entity_name,
            should_poll: self.should_poll,
            translation_key: text_view(self.translation_key),
            payload_press: text_view(self.payload_press),
            min: self.min,
            max: self.max,
            mode: text_view(self.mode),
            step: self.step,
            icon: text_view(self.icon),
        }
    }
}

impl HAConfigView {
    /// The document with every text empty, no expiry and no optional field set.
    pub open spec fn blank() -> HAConfigView {
        HAConfigView {
            name: Seq::empty(),
            device: DeviceInfoView::blank(),
            unique_id: Seq::empty(),
            entity_id: Seq::empty(),
            state_topic: Seq::empty(),
            expires_after: 0,
            entity_category: None,
            command_topic: None,
            payload_on: None,
            payload_off: None,
            state_class: None,
            device_class: None,
            native_uom: None,
            options: None,
            value_template: None,
            suggested_display_precision: None,
            assumed_state: None,
            attribution: None,
            available: None,
            entity_picture: None,
            extra_state_attributes: None,
            has_entity_name: None,
            should_poll: None,
            translation_key: None,
            payload_press: None,
            min: None,
            max: None,
            mode: None,
            step: None,
            icon: None,
        }
    }
}

impl Default for HAConfigPayload {
    fn default() -> (r: HAConfigPayload)
        ensures
            r@ == HAConfigView::blank(),
    {
        HAConfigPayload {
            name: String::new(),
            device: DeviceInfo::default(),
            unique_id: String::new(),
            entity_id: String::new(),
            state_topic: String::new(),
            expires_after: 0,
            entity_category: None,
            command_topic: None,
            payload_on: None,
            payload_off: None,
            state_class: None,
            device_class: None,
            native_uom: None,
            options: None,
            value_template: None,
            suggested_display_precision: None,
            assumed_state: None,
            attribution: None,
            available: None,
            entity_picture: None,
            extra_state_attributes: None,
            has_entity_name: None,
            should_poll: None,
            translation_key: None,
            payload_press: None,
            min: None,
            max: None,
            mode: None,
            step: None,
            icon: None,
        }
    }
}

/// One live reading of a sensor entity.
#[derive(Debug, Clone)]
pub struct StatePayload {
    pub value: PayloadValueType,
    pub label: Option<String>,
    pub description: Option<String>,
    pub notes: Option<String>,
    pub last_seen: Timestamp,
}

/// The mathematical counterpart of `StatePayload`.
pub struct StateView {
    pub value: PayloadValueView,
    pub label: Option<Seq<char>>,
    pub description: Option<Seq<char>>,
    pub notes: Option<Seq<char>>,
    pub last_seen: Timestamp,
}

impl View for StatePayload {
    type V = StateView;

    open spec fn view(&self) -> StateView {
        StateView {
            value: self.value@,
            label: text_view(self.label),
            description: text_view(self.description),
            notes: text_view(self.notes),
            last_seen: self.last_seen,
        }
    }
}

impl StateView {
    /// The reading that carries no value and no remark, taken at `at`.
    pub open spec fn blank(at: Timestamp) -> StateView {
        StateView {
            value: PayloadValueView::Null,
            label: None,
            description: None,
            notes: None,
            last_seen: at,
        }
    }
}

impl StatePayload {
    /// The reading without a value, taken at `at`.
    pub fn empty_at(at: Timestamp) -> (r: StatePayload)
        ensures
            r@ == StateView::blank(at),
    {
        StatePayload {
            value: PayloadValueType::Null,
            label: None,
            description: None,
            notes: None,
            last_seen: at,
        }
    }
}

impl Default for StatePayload {
    /// The reading without a value, stamped with the current time.
    fn default() -> (r: StatePayload)
        ensures
            r@ == StateView::blank(r.last_seen),
    {
        StatePayload::empty_at(utc_now())
    }
}

/// What travels to the broker: a discovery document, a state reading, or the
/// empty marker that is never sent.
#[derive(Debug, Clone)]
pub enum Payload {
    Config(HAConfigPayload),
    CurrentState(StatePayload),
    Empty,
}

/// The mathematical counterpart of `Payload`.
pub enum PayloadView {
    Config(HAConfigView),
    CurrentState(StateView),
    Empty,
}

impl View for Payload {
    type V = PayloadView;

    open spec fn view(&self) -> PayloadView {
        match self {
            Payload::Config(c) => PayloadView::Config(c@),
            Payload::CurrentState(s) => PayloadView::CurrentState(s@),
            Payload::Empty => PayloadView::Empty,
        }
    }
}

impl Default for Payload {
    fn default() -> (r: Payload)
        ensures
            r@ == PayloadView::Empty,
    {
        Payload::Empty
    }
}

/// The two payloads of one poll cycle, each with the topic it is published on.
#[derive(Debug, Clone)]
pub struct CompoundPayload {
    pub config: HAConfigPayload,
    pub config_topic: String,
    pub state: StatePayload,
    pub state_topic: String,
}

/// The mathematical counterpart of `CompoundPayload`.
pub struct CompoundView {
    pub config: HAConfigView,
    pub config_topic: Seq<char>,
    pub state: StateView,
    pub state_topic: Seq<char>,
}

impl View for CompoundPayload {
    type V = CompoundView;

    open spec fn view(&self) -> CompoundView {
        CompoundView {
            config: self.config@,
            config_topic: self.config_topic@,
            state: self.state@,
            state_topic: self.state_topic@,
        }
    }
}

/// What the instrument answered in one poll cycle: its firmware/model
/// identifier, its serial number and its count rate per minute.
#[derive(Debug, Clone)]
pub struct InstrumentReading {
    pub model: String,
    pub serial: String,
    pub cpm: u32,
}

/// The mathematical counterpart of `InstrumentReading`.
pub struct ReadingView {
    pub model: Seq<char>,
    pub serial: Seq<char>,
    pub cpm: u32,
}

impl View for InstrumentReading {
    type V = ReadingView;

    open spec fn view(&self) -> ReadingView {
        ReadingView { model: self.model@, serial: self.serial@, cpm: self.cpm }
    }
}

/// Topic of the discovery document of the instrument with this serial number.
pub open spec fn discovery_topic(serial: Seq<char>) -> Seq<char> {
    "homeassistant/sensor/"@ + serial + "/geiger_counter_cpm/config"@
}

/// Topic of the state readings of the instrument with this serial number.
pub open spec fn state_topic(serial: Seq<char>) -> Seq<char> {
    "gqgmcmqtt/"@ + serial + "/geiger_counter_cpm"@
}

/// The stable identifier of a unit: model, a hyphen, serial number.
pub open spec fn unit_name(model: Seq<char>, serial: Seq<char>) -> Seq<char> {
    model + "-"@ + serial
}

/// The entity id of the count-rate sensor of a unit.
pub open spec fn sensor_entity_id(serial: Seq<char>) -> Seq<char> {
    "sensor."@ + serial + "_geiger_tube_cpm"@
}

/// The device entry of a unit.
pub open spec fn device_of(model: Seq<char>, serial: Seq<char>) -> DeviceInfoView {
    DeviceInfoView {
        identifiers: seq![serial],
        manufacturer: "GQ Electronics"@,
        name: "GQ Geiger Counter"@,
        model: model,
        sw_version: Seq::empty(),
    }
}

/// The discovery document of the count-rate sensor of a unit.
pub open spec fn discovery_of(model: Seq<char>, serial: Seq<char>) -> HAConfigView {
    HAConfigView {
        name: unit_name(model, serial),
        device: device_of(model, serial),
        unique_id: unit_name(model, serial),
        entity_id: sensor_entity_id(serial),
        state_topic: state_topic(serial),
        expires_after: 300,
        state_class: Some("measurement"@),
        native_uom: Some("cpm"@),
        value_template: Some("{{ value_json.value }}"@),
        suggested_display_precision: Some(0u8),
        icon: Some("mdi:radioactive"@),
        ..HAConfigView::blank()
    }
}

/// The state reading for a count rate measured at `at`.
pub open spec fn state_of(cpm: u32, at: Timestamp) -> StateView {
    StateView { value: PayloadValueView::Int(cpm as i64), ..StateView::blank(at) }
}

/// The pair of payloads for one reading taken at `at`.
pub open spec fn compound_of(r: ReadingView, at: Timestamp) -> CompoundView {
    CompoundView {
        config: discovery_of(r.model, r.serial),
        config_topic: discovery_topic(r.serial),
        state: state_of(r.cpm, at),
        state_topic: state_topic(r.serial),
    }
}

/// The payloads owed for one reading taken at `at`: none for a count rate of
/// zero, which stands for "no reading available", else exactly one pair.
pub open spec fn payloads_of(r: ReadingView, at: Timestamp) -> Seq<CompoundView> {
    if r.cpm == 0 {
        Seq::empty()
    } else {
        seq![compound_of(r, at)]
    }
}

/// The views of a list of payload pairs, in order.
pub open spec fn compound_views(v: Seq<CompoundPayload>) -> Seq<CompoundView> {
    v.map_values(|c: CompoundPayload| c@)
}

/// Joins three pieces of text.
fn join3(head: &str, middle: &str, tail: &str) -> (r: String)
    ensures
        r@ == head@ + middle@ + tail@,
{
    let mut r = String::from_str(head);
    r.append(middle);
    r.append(tail);
    r
}

/// Builds the device entry of a unit.
pub fn device_info(model: &String, serial: &String) -> (r: DeviceInfo)
    ensures
        r@ == device_of(model@, serial@),
{
    let mut identifiers: Vec<String> = Vec::new();
    identifiers.push(serial.clone());
    let r = DeviceInfo {
        identifiers,
        manufacturer: String::from_str("GQ Electronics"),
        name: String::from_str("GQ Geiger Counter"),
        model: model.clone(),
        sw_version: String::new(),
    };
    assert(texts_view(r.identifiers@) =~= seq![serial@]);
    r
}

/// Builds the discovery document of the count-rate sensor of a unit.
pub fn discovery_payload(model: &String, serial: &String) -> (r: HAConfigPayload)
    ensures
        r@ == discovery_of(model@, serial@),
{
    let unit = join3(model.as_str(), "-", serial.as_str());
    HAConfigPayload {
        name: unit.clone(),
        device: device_info(model, serial),
        unique_id: unit,
        entity_id: join3("sensor.", serial.as_str(), "_geiger_tube_cpm"),
        state_topic: join3("gqgmcmqtt/", serial.as_str(), "/geiger_counter_cpm"),
        expires_after: 300,
        entity_category: None,
        command_topic: None,
        payload_on: None,
        payload_off: None,
        state_class: Some(String::from_str("measurement")),
        device_class: None,
        native_uom: Some(String::from_str("cpm")),
        options: None,
        value_template: Some(String::from_str("{{ value_json.value }}")),
        suggested_display_precision: Some(0),
        assumed_state: None,
        attribution: None,
        available: None,
        entity_picture: None,
        extra_state_attributes: None,
        has_entity_name: None,
        should_poll: None,
        translation_key: None,
        payload_press: None,
        min: None,
        max: None,
        mode: None,
        step: None,
        icon: Some(String::from_str("mdi:radioactive")),
    }
}

/// Builds the payloads for one reading taken at `at`.
pub fn payloads_at(reading: &InstrumentReading, at: Timestamp) -> (out: Vec<CompoundPayload>)
    ensures
        compound_views(out@) == payloads_of(reading@, at),
{
    let mut out: Vec<CompoundPayload> = Vec::new();
    if reading.cpm != 0 {
        let mut state = StatePayload::empty_at(at);
        state.value = PayloadValueType::Int(reading.cpm as i64);
        let pair = CompoundPayload {
            config: discovery_payload(&reading.model, &reading.serial),
            config_topic: join3(
                "homeassistant/sensor/",
                reading.serial.as_str(),
                "/geiger_counter_cpm/config",
            ),
            state,
            state_topic: join3("gqgmcmqtt/", reading.serial.as_str(), "/geiger_counter_cpm"),
        };
        assert(pair@ == compound_of(reading@, at));
        out.push(pair);
    }
    assert(compound_views(out@) =~= payloads_of(reading@, at));
    out
}

/// Builds the payloads for one reading, stamped with the current time: none
/// for a count rate of zero, else the one pair that `compound_of` describes
/// for the instant that the state payload carries.
pub fn generate_payloads(reading: &InstrumentReading) -> (out: Vec<CompoundPayload>)
    ensures
        reading.cpm == 0 ==> out@.len() == 0,
        reading.cpm != 0 ==> out@.len() == 1 && out@[0]@ == compound_of(
            reading@,
            out@[0].state.last_seen,
        ),
{
    let at = utc_now();
    let out = payloads_at(reading, at);
    proof {
        assert(compound_views(out@).len() == out@.len());
        if reading.cpm != 0 {
            assert(compound_views(out@)[0] == out@[0]@);
        }
    }
    out
}

/// For a count rate above zero the builder yields exactly one pair, whose
/// state value is the count and whose topics depend on the serial number
/// alone; two readings of one unit get the same discovery document and the
/// same topics.
pub proof fn lemma_one_pair_per_reading(a: ReadingView, b: ReadingView, at: Timestamp, bt: Timestamp)
    requires
        a.cpm > 0,
    ensures
        payloads_of(a, at).len() == 1,
        payloads_of(a, at)[0].state.value == PayloadValueView::Int(a.cpm as i64),
        payloads_of(a, at)[0].config_topic == discovery_topic(a.serial),
        payloads_of(a, at)[0].state_topic == state_topic(a.serial),
        payloads_of(a, at)[0].config.state_topic == payloads_of(a, at)[0].state_topic,
        (b.cpm > 0 && a.model == b.model && a.serial == b.serial) ==> {
            &&& payloads_of(b, bt)[0].config == payloads_of(a, at)[0].config
            &&& payloads_of(b, bt)[0].config_topic == payloads_of(a, at)[0].config_topic
            &&& payloads_of(b, bt)[0].state_topic == payloads_of(a, at)[0].state_topic
        },
{
}

/// A count rate of zero yields no payload, whatever the unit and the time.
pub proof fn lemma_zero_count_is_skipped(r: ReadingView, at: Timestamp)
    requires
        r.cpm == 0,
    ensures
        payloads_of(r, at) == Seq::<CompoundView>::empty(),
{
}

} // verus!
