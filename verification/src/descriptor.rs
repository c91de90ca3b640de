//! USB descriptor model: plain data layouts for the standard device,
//! qualifier and configuration descriptors, and the packed BCD version field.

use vstd::prelude::*;

verus! {

/// Index into the device's string table.
pub type StringIndex = u8;

/// Byte length of the standard device descriptor on the wire.
pub const DEVICE_DESCRIPTOR_LENGTH: u8 = 18;

/// Descriptor-type code of a device descriptor.
pub const DESCRIPTOR_TYPE_DEVICE: u8 = 1;

/// A USB specification or device version packed as binary-coded decimal:
/// major in bits 15..8, minor in bits 7..4, revision in bits 3..0.
pub struct UsbVersion {
    pub value: u16,
}

/// The packed 16-bit value for a version, each input truncated silently to
/// its field width (8, 4 and 4 bits).
pub open spec fn version_value(major: u8, minor: u8, revision: u8) -> u16 {
    ((major as u16) << 8) | (((minor as u16) & 0x0F) << 4) | ((revision as u16) & 0x0F)
}

/// The major field of a packed version value.
pub open spec fn version_major(value: u16) -> u8 {
    (value >> 8) as u8
}

/// The minor field of a packed version value.
pub open spec fn version_minor(value: u16) -> u8 {
    ((value >> 4) & 0x0F) as u8
}

/// The revision field of a packed version value.
pub open spec fn version_revision(value: u16) -> u8 {
    (value & 0x0F) as u8
}

impl UsbVersion {
    pub fn new(major: u8, minor: u8, revision: u8) -> (r: UsbVersion)
        ensures
            r.value == version_value(major, minor, revision),
    {
        UsbVersion {
            value: ((major as u16) << 8) | (((minor as u16) & 0x0F) << 4) | ((revision
                as u16) & 0x0F),
        }
    }

    pub fn major(&self) -> (r: u8)
        ensures
            r == version_major(self.value),
    {
        (self.value >> 8) as u8
    }

    pub fn minor(&self) -> (r: u8)
        ensures
            r == version_minor(self.value),
    {
        ((self.value >> 4) & 0x0F) as u8
    }

    pub fn revision(&self) -> (r: u8)
        ensures
            r == version_revision(self.value),
    {
        (self.value & 0x0F) as u8
    }
}

/// Device class codes from the USB defined-class registry. The class of a
/// device on the wire is the code a variant stands for, not its position
/// in this list.
#[derive(Clone, Copy, PartialEq, Eq, Structural, Debug)]
pub enum UsbDeviceClass {
    /// Use class information in the interface descriptors.
    PerInterface,
    Audio,
    CommunicationsAndCdcControl,
    HID,
    Physical,
    StillImaging,
    Printer,
    MassStorage,
    Hub,
    CdcData,
    SmartCard,
    ContentSecurity,
    Video,
    PersonalHealthcare,
    AudioVideo,
    Billboard,
    Diagnostic,
    WirelessController,
    Miscellaneous,
    ApplicationSpecific,
    VendorSpecific,
}

impl UsbDeviceClass {
    /// The registry's code for this class.
    pub open spec fn spec_code(self) -> u8 {
        match self {
            UsbDeviceClass::PerInterface => 0,
            UsbDeviceClass::Audio => 1,
            UsbDeviceClass::CommunicationsAndCdcControl => 2,
            UsbDeviceClass::HID => 3,
            UsbDeviceClass::Physical => 5,
            UsbDeviceClass::StillImaging => 6,
            UsbDeviceClass::Printer => 7,
            UsbDeviceClass::MassStorage => 8,
            UsbDeviceClass::Hub => 9,
            UsbDeviceClass::CdcData => 10,
            UsbDeviceClass::SmartCard => 11,
            UsbDeviceClass::ContentSecurity => 13,
            UsbDeviceClass::Video => 15,
            UsbDeviceClass::PersonalHealthcare => 16,
            UsbDeviceClass::AudioVideo => 17,
            UsbDeviceClass::Billboard => 18,
            UsbDeviceClass::Diagnostic => 0xDC,
            UsbDeviceClass::WirelessController => 0xE0,
            UsbDeviceClass::Miscellaneous => 0xEF,
            UsbDeviceClass::ApplicationSpecific => 0xFE,
            UsbDeviceClass::VendorSpecific => 0xFF,
        }
    }

    /// The registry's code for this class.
    pub fn code(&self) -> (r: u8)
        ensures
            r == self.spec_code(),
    {
        match self {
            UsbDeviceClass::PerInterface => 0,
            UsbDeviceClass::Audio => 1,
            UsbDeviceClass::CommunicationsAndCdcControl => 2,
            UsbDeviceClass::HID => 3,
            UsbDeviceClass::Physical => 5,
            UsbDeviceClass::StillImaging => 6,
            UsbDeviceClass::Printer => 7,
            UsbDeviceClass::MassStorage => 8,
            UsbDeviceClass::Hub => 9,
            UsbDeviceClass::CdcData => 10,
            UsbDeviceClass::SmartCard => 11,
            UsbDeviceClass::ContentSecurity => 13,
            UsbDeviceClass::Video => 15,
            UsbDeviceClass::PersonalHealthcare => 16,
            UsbDeviceClass::AudioVideo => 17,
            UsbDeviceClass::Billboard => 18,
            UsbDeviceClass::Diagnostic => 0xDC,
            UsbDeviceClass::WirelessController => 0xE0,
            UsbDeviceClass::Miscellaneous => 0xEF,
            UsbDeviceClass::ApplicationSpecific => 0xFE,
            UsbDeviceClass::VendorSpecific => 0xFF,
        }
    }
}

/// String indexes with a fixed meaning. Other indexes carry no meaning in
/// the specification itself, though some operating systems reserve a few.
#[derive(Clone, Copy, PartialEq, Eq, Structural, Debug)]
pub enum StandardStringIndex {
    /// No string.
    NoString,
    /// The index some operating systems query for a vendor-defined
    /// descriptor set.
    MicrosoftOsStringDescriptor,
}

impl StandardStringIndex {
    /// The index value this name stands for.
    pub open spec fn spec_index(self) -> u8 {
        match self {
            StandardStringIndex::NoString => 0,
            StandardStringIndex::MicrosoftOsStringDescriptor => 0xEE,
        }
    }

    /// The index value this name stands for.
    pub fn index(&self) -> (r: u8)
        ensures
            r == self.spec_index(),
    {
        match self {
            StandardStringIndex::NoString => 0,
            StandardStringIndex::MicrosoftOsStringDescriptor => 0xEE,
        }
    }
}

/// The standard device descriptor's fields past its two-byte header, in
/// wire order.
pub struct UsbDeviceDescriptor {
    pub specification_version: UsbVersion,
    pub device_class: u8,
    pub device_sub_class: u8,
    pub device_protocol: u8,
    pub max_packet_size_ep0: u8,
    pub vendor_id: u16,
    pub product_id: u16,
    pub device_version: UsbVersion,
    /// String table reference for the manufacturer name.
    pub manufacturer: StringIndex,
    /// String table reference for the product name.
    pub product: StringIndex,
    /// String table reference for the serial number.
    pub serial_number: StringIndex,
    pub num_configurations: u8,
}

impl UsbDeviceDescriptor {
    /// The descriptor's exact wire form: its length and type, then every
    /// field at its standard byte offset, multi-byte fields little-endian,
    /// with no padding.
    pub open spec fn spec_bytes(self) -> Seq<u8> {
        seq![
            DEVICE_DESCRIPTOR_LENGTH,
            DESCRIPTOR_TYPE_DEVICE,
            (self.specification_version.value & 0xFF) as u8,
            (self.specification_version.value >> 8) as u8,
            self.device_class,
            self.device_sub_class,
            self.device_protocol,
            self.max_packet_size_ep0,
            (self.vendor_id & 0xFF) as u8,
            (self.vendor_id >> 8) as u8,
            (self.product_id & 0xFF) as u8,
            (self.product_id >> 8) as u8,
            (self.device_version.value & 0xFF) as u8,
            (self.device_version.value >> 8) as u8,
            self.manufacturer,
            self.product,
            self.serial_number,
            self.num_configurations,
        ]
    }

    /// Serialize the descriptor to its 18-byte wire form.
    pub fn serialize(&self) -> (r: Vec<u8>)
        ensures
            r@ == self.spec_bytes(),
            r@.len() == DEVICE_DESCRIPTOR_LENGTH,
    {
        let mut r: Vec<u8> = Vec::new();
        r.push(DEVICE_DESCRIPTOR_LENGTH);
        r.push(DESCRIPTOR_TYPE_DEVICE);
        r.push((self.specification_version.value & 0xFF) as u8);
        r.push((self.specification_version.value >> 8) as u8);
        r.push(self.device_class);
        r.push(self.device_sub_class);
        r.push(self.device_protocol);
        r.push(self.max_packet_size_ep0);
        r.push((self.vendor_id & 0xFF) as u8);
        r.push((self.vendor_id >> 8) as u8);
        r.push((self.product_id & 0xFF) as u8);
        r.push((self.product_id >> 8) as u8);
        r.push((self.device_version.value & 0xFF) as u8);
        r.push((self.device_version.value >> 8) as u8);
        r.push(self.manufacturer);
        r.push(self.product);
        r.push(self.serial_number);
        r.push(self.num_configurations);
        proof {
            assert(r@ =~= self.spec_bytes());
        }
        r
    }
}

/// The device qualifier descriptor's fields past its header: what the
/// device descriptor would say at the other bus speed.
pub struct UsbQualifierDescriptor {
    pub specification_version: UsbVersion,
    pub device_class: u8,
    pub device_sub_class: u8,
    pub device_protocol: u8,
    pub max_packet_size_ep0: u8,
    pub num_configurations: u8,
    pub reserved: u8,
}

/// The configuration descriptor's fields past its header.
pub struct UsbConfigDescriptor {
    pub interface_count: u8,
    pub configuration_index: u8,
    pub configuration_description: StringIndex,
    pub attributes: u8,
    pub max_power: UsbPowerMilliAmps,
}

/// A maximum bus-current rating, stored in units of 2 mA: halved on store
/// and doubled on read, the odd milliampere silently lost.
pub struct UsbPowerMilliAmps {
    value: u8,
}

impl UsbPowerMilliAmps {
    /// The stored rating, in units of 2 mA.
    pub closed spec fn stored(self) -> u8 {
        self.value
    }

    pub fn new(milli_amps: u8) -> (r: UsbPowerMilliAmps)
        ensures
            r.stored() == milli_amps / 2,
    {
        proof {
            assert(milli_amps >> 1 == milli_amps / 2) by (bit_vector);
        }
        UsbPowerMilliAmps { value: milli_amps >> 1 }
    }

    pub fn milli_amps(&self) -> (r: u8)
        ensures
            r == self.stored() << 1,
            self.stored() < 128 ==> r == self.stored() * 2,
    {
        proof {
            let v = self.stored();
            assert(v < 128 ==> (v << 1) == v * 2) by (bit_vector);
        }
        self.value << 1
    }
}

/// Packing a version and extracting its fields is lossless whenever the
/// minor and revision inputs fit their four-bit fields; the major field
/// always round-trips.
pub proof fn lemma_version_round_trip(major: u8, minor: u8, revision: u8)
    requires
        minor <= 0x0F,
        revision <= 0x0F,
    ensures
        version_major(version_value(major, minor, revision)) == major,
        version_minor(version_value(major, minor, revision)) == minor,
        version_revision(version_value(major, minor, revision)) == revision,
{
    assert(version_major(version_value(major, minor, revision)) == major
        && version_minor(version_value(major, minor, revision)) == minor
        && version_revision(version_value(major, minor, revision)) == revision)
        by (bit_vector)
        requires
            minor <= 0x0F,
            revision <= 0x0F,
    ;
}

} // verus!
