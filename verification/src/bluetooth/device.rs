//! The device snapshot: one fully resolved observation of a device, and the
//! fold that builds it from property events.

use std::collections::HashMap;
use std::collections::HashSet;

use vstd::prelude::*;

use crate::bluetooth::address::Address;
use crate::bluetooth::time::CaptureTime;
use crate::text::{copy_of_text, text_of};

verus! {

/// The kind of address a device is reached by.
#[derive(Clone, Copy, Debug, PartialEq, Eq, Hash)]
pub enum AddressType {
    /// Classic Bluetooth (BR/EDR).
    BrEdr,
    /// Low Energy, public address.
    LePublic,
    /// Low Energy, random address.
    LeRandom,
}

/// Kernel modalias information of a device.
#[derive(Debug, PartialEq, Eq, Hash)]
pub struct Modalias {
    pub source: String,
    pub vendor: u32,
    pub product: u32,
    pub device: u32,
}

/// What a `Modalias` holds.
pub struct ModaliasView {
    pub source: Seq<char>,
    pub vendor: u32,
    pub product: u32,
    pub device: u32,
}

impl View for Modalias {
    type V = ModaliasView;

    open spec fn view(&self) -> ModaliasView {
        ModaliasView {
            source: self.source@,
            vendor: self.vendor,
            product: self.product,
            device: self.device,
        }
    }
}

impl Clone for Modalias {
    fn clone(&self) -> (copy: Modalias)
        ensures
            copy@ == self@,
    {
        Modalias {
            source: self.source.clone(),
            vendor: self.vendor,
            product: self.product,
            device: self.device,
        }
    }
}

/// The payloads of a map of byte strings.
pub open spec fn payloads<K>(map: Map<K, Vec<u8>>) -> Map<K, Seq<u8>> {
    map.map_values(|bytes: Vec<u8>| bytes@)
}

/// One property of a device as the radio stack reports it. Each event names
/// the field of the snapshot that it sets.
#[derive(Debug)]
pub enum DeviceProperty {
    Name(String),
    AddressType(AddressType),
    Icon(String),
    Class(u32),
    Appearance(u16),
    Uuids(HashSet<u128>),
    Paired(bool),
    Connected(bool),
    Trusted(bool),
    Blocked(bool),
    WakeAllowed(bool),
    Alias(String),
    LegacyPairing(bool),
    Modalias(Modalias),
    Rssi(i16),
    TxPower(i16),
    ManufacturerData(HashMap<u16, Vec<u8>>),
    ServiceData(HashMap<u128, Vec<u8>>),
    ServicesResolved(bool),
    AdvertisingFlags(Vec<u8>),
    AdvertisingData(HashMap<u8, Vec<u8>>),
    /// A property that a snapshot does not record.
    Other,
}

/// What a `DeviceProperty` holds.
pub enum PropertyView {
    Name(Seq<char>),
    AddressType(AddressType),
    Icon(Seq<char>),
    Class(u32),
    Appearance(u16),
    Uuids(Set<u128>),
    Paired(bool),
    Connected(bool),
    Trusted(bool),
    Blocked(bool),
    WakeAllowed(bool),
    Alias(Seq<char>),
    LegacyPairing(bool),
    Modalias(ModaliasView),
    Rssi(i16),
    TxPower(i16),
    ManufacturerData(Map<u16, Seq<u8>>),
    ServiceData(Map<u128, Seq<u8>>),
    ServicesResolved(bool),
    AdvertisingFlags(Seq<u8>),
    AdvertisingData(Map<u8, Seq<u8>>),
    Other,
}

impl View for DeviceProperty {
    type V = PropertyView;

    open spec fn view(&self) -> PropertyView {
        match *self {
            DeviceProperty::Name(name) => PropertyView::Name(name@),
            DeviceProperty::AddressType(address_type) => PropertyView::AddressType(address_type),
            DeviceProperty::Icon(icon) => PropertyView::Icon(icon@),
            DeviceProperty::Class(class) => PropertyView::Class(class),
            DeviceProperty::Appearance(appearance) => PropertyView::Appearance(appearance),
            DeviceProperty::Uuids(uuids) => PropertyView::Uuids(uuids@),
            DeviceProperty::Paired(paired) => PropertyView::Paired(paired),
            DeviceProperty::Connected(connected) => PropertyView::Connected(connected),
            DeviceProperty::Trusted(trusted) => PropertyView::Trusted(trusted),
            DeviceProperty::Blocked(blocked) => PropertyView::Blocked(blocked),
            DeviceProperty::WakeAllowed(wake_allowed) => PropertyView::WakeAllowed(wake_allowed),
            DeviceProperty::Alias(alias) => PropertyView::Alias(alias@),
            DeviceProperty::LegacyPairing(legacy) => PropertyView::LegacyPairing(legacy),
            DeviceProperty::Modalias(modalias) => PropertyView::Modalias(modalias@),
            DeviceProperty::Rssi(rssi) => PropertyView::Rssi(rssi),
            DeviceProperty::TxPower(tx_power) => PropertyView::TxPower(tx_power),
            DeviceProperty::ManufacturerData(data) => PropertyView::ManufacturerData(
                payloads(data@),
            ),
            DeviceProperty::ServiceData(data) => PropertyView::ServiceData(payloads(data@)),
            DeviceProperty::ServicesResolved(resolved) => PropertyView::ServicesResolved(resolved),
            DeviceProperty::AdvertisingFlags(flags) => PropertyView::AdvertisingFlags(flags@),
            DeviceProperty::AdvertisingData(data) => PropertyView::AdvertisingData(
                payloads(data@),
            ),
            DeviceProperty::Other => PropertyView::Other,
        }
    }
}

/// What a sequence of property events holds, event by event.
pub open spec fn property_views(properties: Seq<DeviceProperty>) -> Seq<PropertyView> {
    properties.map_values(|property: DeviceProperty| property@)
}

/// One observation of a device: every property known at capture time.
#[derive(Debug)]
pub struct Device {
    pub timestamp: CaptureTime,
    pub address: Address,
    pub address_type: Option<AddressType>,
    pub name: Option<String>,
    pub uuids: HashSet<u128>,
    pub class: Option<u32>,
    pub appearance: Option<u16>,
    pub paired: bool,
    pub connected: bool,
    pub trusted: bool,
    pub blocked: bool,
    pub wake_allowed: bool,
    pub legacy_pairing: bool,
    pub alias: Option<String>,
    pub modalias: Option<Modalias>,
    pub icon: Option<String>,
    pub manufacturer_data: HashMap<u16, Vec<u8>>,
    pub advertising_data: HashMap<u8, Vec<u8>>,
    pub advertising_flags: Vec<u8>,
    pub tx_power: Option<i16>,
    pub rssi: Option<i16>,
    pub service_data: HashMap<u128, Vec<u8>>,
    pub services_resolved: bool,
}

/// What a `Device` holds.
pub struct DeviceView {
    pub timestamp: CaptureTime,
    pub address: Address,
    pub address_type: Option<AddressType>,
    pub name: Option<Seq<char>>,
    pub uuids: Set<u128>,
    pub class: Option<u32>,
    pub appearance: Option<u16>,
    pub paired: bool,
    pub connected: bool,
    pub trusted: bool,
    pub blocked: bool,
    pub wake_allowed: bool,
    pub legacy_pairing: bool,
    pub alias: Option<Seq<char>>,
    pub modalias: Option<ModaliasView>,
    pub icon: Option<Seq<char>>,
    pub manufacturer_data: Map<u16, Seq<u8>>,
    pub advertising_data: Map<u8, Seq<u8>>,
    pub advertising_flags: Seq<u8>,
    pub tx_power: Option<i16>,
    pub rssi: Option<i16>,
    pub service_data: Map<u128, Seq<u8>>,
    pub services_resolved: bool,
}

impl View for Device {
    type V = DeviceView;

    open spec fn view(&self) -> DeviceView {
        DeviceView {
            timestamp: self.timestamp,
            address: self.address,
            address_type: self.address_type,
            name: text_of(self.name),
            uuids: self.uuids@,
            class: self.class,
            appearance: self.appearance,
            paired: self.paired,
            connected: self.connected,
            trusted: self.trusted,
            blocked: self.blocked,
            wake_allowed: self.wake_allowed,
            legacy_pairing: self.legacy_pairing,
            alias: text_of(self.alias),
            modalias: match self.modalias {
                Some(modalias) => Some(modalias@),
                None => None,
            },
            icon: text_of(self.icon),
            manufacturer_data: payloads(self.manufacturer_data@),
            advertising_data: payloads(self.advertising_data@),
            advertising_flags: self.advertising_flags@,
            tx_power: self.tx_power,
            rssi: self.rssi,
            service_data: payloads(self.service_data@),
            services_resolved: self.services_resolved,
        }
    }
}

impl DeviceView {
    /// The snapshot of which nothing was observed: every field empty or
    /// absent, the address zero, the capture time the epoch.
    pub open spec fn empty() -> DeviceView {
        DeviceView {
            timestamp: CaptureTime::epoch(),
            address: Address::zero(),
            address_type: None,
            name: None,
            uuids: Set::empty(),
            class: None,
            appearance: None,
            paired: false,
            connected: false,
            trusted: false,
            blocked: false,
            wake_allowed: false,
            legacy_pairing: false,
            alias: None,
            modalias: None,
            icon: None,
            manufacturer_data: Map::empty(),
            advertising_data: Map::empty(),
            advertising_flags: Seq::empty(),
            tx_power: None,
            rssi: None,
            service_data: Map::empty(),
            services_resolved: false,
        }
    }

    /// The snapshot after one more property event: the field that the event
    /// names takes the event's value, every other field stays.
    pub open spec fn apply(self, property: PropertyView) -> DeviceView {
        match property {
            PropertyView::Name(name) => DeviceView { name: Some(name), ..self },
            PropertyView::AddressType(address_type) => DeviceView {
                address_type: Some(address_type),
                ..self
            },
            PropertyView::Icon(icon) => DeviceView { icon: Some(icon), ..self },
            PropertyView::Class(class) => DeviceView { class: Some(class), ..self },
            PropertyView::Appearance(appearance) => DeviceView {
                appearance: Some(appearance),
                ..self
            },
            PropertyView::Uuids(uuids) => DeviceView { uuids, ..self },
            PropertyView::Paired(paired) => DeviceView { paired, ..self },
            PropertyView::Connected(connected) => DeviceView { connected, ..self },
            PropertyView::Trusted(trusted) => DeviceView { trusted, ..self },
            PropertyView::Blocked(blocked) => DeviceView { blocked, ..self },
            PropertyView::WakeAllowed(wake_allowed) => DeviceView { wake_allowed, ..self },
            PropertyView::Alias(alias) => DeviceView { alias: Some(alias), ..self },
            PropertyView::LegacyPairing(legacy_pairing) => DeviceView { legacy_pairing, ..self },
            PropertyView::Modalias(modalias) => DeviceView { modalias: Some(modalias), ..self },
            PropertyView::Rssi(rssi) => DeviceView { rssi: Some(rssi), ..self },
            PropertyView::TxPower(tx_power) => DeviceView { tx_power: Some(tx_power), ..self },
            PropertyView::ManufacturerData(manufacturer_data) => DeviceView {
                manufacturer_data,
                ..self
            },
            PropertyView::ServiceData(service_data) => DeviceView { service_data, ..self },
            PropertyView::ServicesResolved(services_resolved) => DeviceView {
                services_resolved,
                ..self
            },
            PropertyView::AdvertisingFlags(advertising_flags) => DeviceView {
                advertising_flags,
                ..self
            },
            PropertyView::AdvertisingData(advertising_data) => DeviceView {
                advertising_data,
                ..self
            },
            PropertyView::Other => self,
        }
    }

    /// The snapshot that a sequence of property events folds into, taken in
    /// order from the empty snapshot.
    pub open spec fn fold(properties: Seq<PropertyView>) -> DeviceView
        decreases properties.len(),
    {
        if properties.len() == 0 {
            DeviceView::empty()
        } else {
            DeviceView::fold(properties.drop_last()).apply(properties.last())
        }
    }
}

impl Default for Device {
    /// The snapshot of which nothing was observed.
    fn default() -> (device: Device)
        ensures
            device@ == DeviceView::empty(),
    {
        let device = Device {
            timestamp: CaptureTime::default(),
            address: Address([0u8, 0u8, 0u8, 0u8, 0u8, 0u8]),
            address_type: None,
            name: None,
            uuids: HashSet::new(),
            class: None,
            appearance: None,
            paired: false,
            connected: false,
            trusted: false,
            blocked: false,
            wake_allowed: false,
            legacy_pairing: false,
            alias: None,
            modalias: None,
            icon: None,
            manufacturer_data: HashMap::new(),
            advertising_data: HashMap::new(),
            advertising_flags: Vec::new(),
            tx_power: None,
            rssi: None,
            service_data: HashMap::new(),
            services_resolved: false,
        };
        assert(device@.manufacturer_data =~= Map::empty());
        assert(device@.advertising_data =~= Map::empty());
        assert(device@.service_data =~= Map::empty());
        device
    }
}

impl Device {
    /// Sets the field that `property` names to the value it carries.
    pub fn apply(&mut self, property: DeviceProperty)
        ensures
            final(self)@ == old(self)@.apply(property@),
    {
        match property {
            DeviceProperty::Name(name) => self.name = Some(name),
            DeviceProperty::AddressType(address_type) => self.address_type = Some(address_type),
            DeviceProperty::Class(class) => self.class = Some(class),
            DeviceProperty::Appearance(appearance) => self.appearance = Some(appearance),
            DeviceProperty::Blocked(blocked) => self.blocked = blocked,
            DeviceProperty::Paired(paired) => self.paired = paired,
            DeviceProperty::Connected(connected) => self.connected = connected,
            DeviceProperty::Trusted(trusted) => self.trusted = trusted,
            DeviceProperty::Alias(alias) => self.alias = Some(alias),
            DeviceProperty::Modalias(modalias) => self.modalias = Some(modalias),
            DeviceProperty::Icon(icon) => self.icon = Some(icon),
            DeviceProperty::Uuids(uuids) => self.uuids = uuids,
            DeviceProperty::ManufacturerData(manufacturer_data) => {
                self.manufacturer_data = manufacturer_data;
            },
            DeviceProperty::AdvertisingData(advertising_data) => {
                self.advertising_data = advertising_data;
            },
            DeviceProperty::AdvertisingFlags(advertising_flags) => {
                self.advertising_flags = advertising_flags
            },
            DeviceProperty::Rssi(rssi) => self.rssi = Some(rssi),
            DeviceProperty::TxPower(tx_power) => self.tx_power = Some(tx_power),
            DeviceProperty::WakeAllowed(wake_allowed) => self.wake_allowed = wake_allowed,
            DeviceProperty::LegacyPairing(legacy_pairing) => self.legacy_pairing = legacy_pairing,
            DeviceProperty::ServicesResolved(services_resolved) => {
                self.services_resolved = services_resolved
            },
            DeviceProperty::ServiceData(service_data) => {
                self.service_data = service_data;
            },
            DeviceProperty::Other => {},
        }
    }

    /// Folds property events into one snapshot: for each field the last
    /// event that names it wins, and a field that no event names is empty.
    pub fn from(properties: Vec<DeviceProperty>) -> (device: Device)
        ensures
            device@ == DeviceView::fold(property_views(properties@)),
    {
        let mut device = Device::default();
        let ghost events = property_views(properties@);
        for property in iter: properties.into_iter()
            invariant
                events == property_views(properties@),
                iter.seq() == properties@,
                device@ == DeviceView::fold(events.take(iter.index() as int)),
        {
            proof {
                let n = iter.index() as int;
                assert(events.take(n + 1).drop_last() =~= events.take(n));
                assert(events.take(n + 1).last() == property@);
            }
            device.apply(property);
        }
        proof {
            assert(events.take(properties@.len() as int) =~= events);
        }
        device
    }
}

/// `HashSet::clone`: the copy holds the same elements as the set.
#[verifier::external_body]
fn copy_of_set(set: &HashSet<u128>) -> (copy: HashSet<u128>)
    ensures
        copy@ == set@,
{
    set.clone()
}

impl Clone for Device {
    /// A copy that holds what this snapshot holds.
    fn clone(&self) -> (copy: Device)
        ensures
            copy@ == self@,
    {
        let advertising_flags = self.advertising_flags.clone();
        assert(advertising_flags@ =~= self.advertising_flags@);
        Device {
            timestamp: self.timestamp,
            address: self.address,
            address_type: self.address_type,
            name: copy_of_text(&self.name),
            uuids: copy_of_set(&self.uuids),
            class: self.class,
            appearance: self.appearance,
            paired: self.paired,
            connected: self.connected,
            trusted: self.trusted,
            blocked: self.blocked,
            wake_allowed: self.wake_allowed,
            legacy_pairing: self.legacy_pairing,
            alias: copy_of_text(&self.alias),
            modalias: match &self.modalias {
                Some(modalias) => Some(modalias.clone()),
                None => None,
            },
            icon: copy_of_text(&self.icon),
            manufacturer_data: self.manufacturer_data.clone(),
            advertising_data: self.advertising_data.clone(),
            advertising_flags,
            tx_power: self.tx_power,
            rssi: self.rssi,
            service_data: self.service_data.clone(),
            services_resolved: self.services_resolved,
        }
    }
}

/// The fields of a snapshot.
pub enum Field {
    Timestamp,
    Address,
    AddressType,
    Name,
    Uuids,
    Class,
    Appearance,
    Paired,
    Connected,
    Trusted,
    Blocked,
    WakeAllowed,
    LegacyPairing,
    Alias,
    Modalias,
    Icon,
    ManufacturerData,
    AdvertisingData,
    AdvertisingFlags,
    TxPower,
    Rssi,
    ServiceData,
    ServicesResolved,
}

impl PropertyView {
    /// The field that this event sets, if it sets one.
    pub open spec fn field(self) -> Option<Field> {
        match self {
            PropertyView::Name(_) => Some(Field::Name),
            PropertyView::AddressType(_) => Some(Field::AddressType),
            PropertyView::Icon(_) => Some(Field::Icon),
            PropertyView::Class(_) => Some(Field::Class),
            PropertyView::Appearance(_) => Some(Field::Appearance),
            PropertyView::Uuids(_) => Some(Field::Uuids),
            PropertyView::Paired(_) => Some(Field::Paired),
            PropertyView::Connected(_) => Some(Field::Connected),
            PropertyView::Trusted(_) => Some(Field::Trusted),
            PropertyView::Blocked(_) => Some(Field::Blocked),
            PropertyView::WakeAllowed(_) => Some(Field::WakeAllowed),
            PropertyView::Alias(_) => Some(Field::Alias),
            PropertyView::LegacyPairing(_) => Some(Field::LegacyPairing),
            PropertyView::Modalias(_) => Some(Field::Modalias),
            PropertyView::Rssi(_) => Some(Field::Rssi),
            PropertyView::TxPower(_) => Some(Field::TxPower),
            PropertyView::ManufacturerData(_) => Some(Field::ManufacturerData),
            PropertyView::ServiceData(_) => Some(Field::ServiceData),
            PropertyView::ServicesResolved(_) => Some(Field::ServicesResolved),
            PropertyView::AdvertisingFlags(_) => Some(Field::AdvertisingFlags),
            PropertyView::AdvertisingData(_) => Some(Field::AdvertisingData),
            PropertyView::Other => None,
        }
    }
}

impl DeviceView {
    /// Whether two snapshots hold the same value in `field`.
    pub open spec fn agrees(self, other: DeviceView, field: Field) -> bool {
        match field {
            Field::Timestamp => self.timestamp == other.timestamp,
            Field::Address => self.address == other.address,
            Field::AddressType => self.address_type == other.address_type,
            Field::Name => self.name == other.name,
            Field::Uuids => self.uuids == other.uuids,
            Field::Class => self.class == other.class,
            Field::Appearance => self.appearance == other.appearance,
            Field::Paired => self.paired == other.paired,
            Field::Connected => self.connected == other.connected,
            Field::Trusted => self.trusted == other.trusted,
            Field::Blocked => self.blocked == other.blocked,
            Field::WakeAllowed => self.wake_allowed == other.wake_allowed,
            Field::LegacyPairing => self.legacy_pairing == other.legacy_pairing,
            Field::Alias => self.alias == other.alias,
            Field::Modalias => self.modalias == other.modalias,
            Field::Icon => self.icon == other.icon,
            Field::ManufacturerData => self.manufacturer_data == other.manufacturer_data,
            Field::AdvertisingData => self.advertising_data == other.advertising_data,
            Field::AdvertisingFlags => self.advertising_flags == other.advertising_flags,
            Field::TxPower => self.tx_power == other.tx_power,
            Field::Rssi => self.rssi == other.rssi,
            Field::ServiceData => self.service_data == other.service_data,
            Field::ServicesResolved => self.services_resolved == other.services_resolved,
        }
    }
}

/// Two snapshots that agree in every field are one snapshot.
pub proof fn lemma_agreement_is_equality(a: DeviceView, b: DeviceView)
    requires
        forall|field: Field| a.agrees(b, field),
    ensures
        a == b,
{
    assert(a.agrees(b, Field::Timestamp));
    assert(a.agrees(b, Field::Address));
    assert(a.agrees(b, Field::AddressType));
    assert(a.agrees(b, Field::Name));
    assert(a.agrees(b, Field::Uuids));
    assert(a.agrees(b, Field::Class));
    assert(a.agrees(b, Field::Appearance));
    assert(a.agrees(b, Field::Paired));
    assert(a.agrees(b, Field::Connected));
    assert(a.agrees(b, Field::Trusted));
    assert(a.agrees(b, Field::Blocked));
    assert(a.agrees(b, Field::WakeAllowed));
    assert(a.agrees(b, Field::LegacyPairing));
    assert(a.agrees(b, Field::Alias));
    assert(a.agrees(b, Field::Modalias));
    assert(a.agrees(b, Field::Icon));
    assert(a.agrees(b, Field::ManufacturerData));
    assert(a.agrees(b, Field::AdvertisingData));
    assert(a.agrees(b, Field::AdvertisingFlags));
    assert(a.agrees(b, Field::TxPower));
    assert(a.agrees(b, Field::Rssi));
    assert(a.agrees(b, Field::ServiceData));
    assert(a.agrees(b, Field::ServicesResolved));
}

/// An event changes no field but the one it names, and what it writes there
/// does not depend on the snapshot it is applied to.
pub proof fn lemma_apply_is_local(
    device: DeviceView,
    other: DeviceView,
    property: PropertyView,
    field: Field,
)
    ensures
        property.field() != Some(field) ==> device.apply(property).agrees(device, field),
        property.field() == Some(field) ==> device.apply(property).agrees(
            other.apply(property),
            field,
        ),
{
}

/// Last write wins: where `last` is the position of the last event that
/// names `field`, the folded snapshot holds in that field what that event
/// alone would have written, whatever came before or after it.
pub proof fn lemma_fold_last_write_wins(properties: Seq<PropertyView>, last: int, field: Field)
    requires
        0 <= last < properties.len(),
        properties[last].field() == Some(field),
        forall|later: int|
            last < later < properties.len() ==> properties[later].field() != Some(field),
    ensures
        DeviceView::fold(properties).agrees(DeviceView::empty().apply(properties[last]), field),
    decreases properties.len(),
{
    let before = DeviceView::fold(properties.drop_last());
    if last == properties.len() - 1 {
        lemma_apply_is_local(before, DeviceView::empty(), properties.last(), field);
    } else {
        lemma_fold_last_write_wins(properties.drop_last(), last, field);
        lemma_apply_is_local(before, before, properties.last(), field);
    }
}

/// A field that no event names is left as in the empty snapshot. The
/// capture time and the address are such fields for every sequence.
pub proof fn lemma_fold_keeps_unnamed_fields_empty(properties: Seq<PropertyView>, field: Field)
    requires
        forall|i: int| 0 <= i < properties.len() ==> properties[i].field() != Some(field),
    ensures
        DeviceView::fold(properties).agrees(DeviceView::empty(), field),
    decreases properties.len(),
{
    if properties.len() > 0 {
        let before = DeviceView::fold(properties.drop_last());
        lemma_fold_keeps_unnamed_fields_empty(properties.drop_last(), field);
        lemma_apply_is_local(before, before, properties.last(), field);
    }
}

} // verus!
