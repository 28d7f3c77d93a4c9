//! Implements peripheral devices connected to HID++ channels.

use vstd::prelude::*;
use vstd::std_specs::convert::FromSpecImpl;
use crate::channel::ChannelError;
use crate::channel::ChannelState;
use crate::channel::HidppChannel;
use crate::channel::HidppMessage;
use crate::channel::lemma_without_listener;
use crate::feature::CreatableFeature;
use crate::feature::device_friendly_name::DeviceFriendlyNameFeatureV0;
use crate::feature::device_information::DeviceInformationFeature;
use crate::feature::device_type_and_name::DeviceTypeAndNameFeatureV0;
use crate::feature::feature_set;
use crate::feature::feature_set::FeatureInformation;
use crate::feature::feature_set::FeatureSetFeatureV0;
use crate::feature::hires_wheel::HiResWheelFeatureV0;
use crate::feature::registry;
use crate::feature::registry::FeatureKind;
use crate::feature::registry::FeatureVersion;
use crate::feature::root;
use crate::feature::root::RootFeature;
use crate::feature::smartshift::SmartShiftFeatureV0;
use crate::feature::thumbwheel::ThumbwheelFeatureV0;
use crate::feature::unified_battery::UnifiedBatteryFeature;
use crate::feature::wireless_device_status::WirelessDeviceStatusFeature;
use crate::protocol::ProtocolVersion;
use crate::protocol::v20;
use crate::protocol::v20::Hidpp20Error;

verus! {

/// An initialized implementation of a feature.
#[derive(Clone, Copy, PartialEq, Eq, Structural, Hash, Debug)]
pub enum FeatureInstance {
    Root(RootFeature),
    FeatureSet(FeatureSetFeatureV0),
    DeviceInformation(DeviceInformationFeature),
    DeviceTypeAndName(DeviceTypeAndNameFeatureV0),
    DeviceFriendlyName(DeviceFriendlyNameFeatureV0),
    UnifiedBattery(UnifiedBatteryFeature),
    WirelessDeviceStatus(WirelessDeviceStatusFeature),
    SmartShift(SmartShiftFeatureV0),
    HiResWheel(HiResWheelFeatureV0),
    Thumbwheel(ThumbwheelFeatureV0),
}

impl FeatureInstance {
    /// The implementation that this is an instance of.
    pub open spec fn spec_kind(&self) -> FeatureKind {
        match self {
            FeatureInstance::Root(_) => FeatureKind::Root,
            FeatureInstance::FeatureSet(_) => FeatureKind::FeatureSet,
            FeatureInstance::DeviceInformation(_) => FeatureKind::DeviceInformation,
            FeatureInstance::DeviceTypeAndName(_) => FeatureKind::DeviceTypeAndName,
            FeatureInstance::DeviceFriendlyName(_) => FeatureKind::DeviceFriendlyName,
            FeatureInstance::UnifiedBattery(_) => FeatureKind::UnifiedBattery,
            FeatureInstance::WirelessDeviceStatus(_) => FeatureKind::WirelessDeviceStatus,
            FeatureInstance::SmartShift(_) => FeatureKind::SmartShift,
            FeatureInstance::HiResWheel(_) => FeatureKind::HiResWheel,
            FeatureInstance::Thumbwheel(_) => FeatureKind::Thumbwheel,
        }
    }

    /// The implementation that this is an instance of.
    #[verifier::when_used_as_spec(spec_kind)]
    pub fn kind(&self) -> (r: FeatureKind)
        ensures
            r == self.spec_kind(),
    {
        match self {
            FeatureInstance::Root(_) => FeatureKind::Root,
            FeatureInstance::FeatureSet(_) => FeatureKind::FeatureSet,
            FeatureInstance::DeviceInformation(_) => FeatureKind::DeviceInformation,
            FeatureInstance::DeviceTypeAndName(_) => FeatureKind::DeviceTypeAndName,
            FeatureInstance::DeviceFriendlyName(_) => FeatureKind::DeviceFriendlyName,
            FeatureInstance::UnifiedBattery(_) => FeatureKind::UnifiedBattery,
            FeatureInstance::WirelessDeviceStatus(_) => FeatureKind::WirelessDeviceStatus,
            FeatureInstance::SmartShift(_) => FeatureKind::SmartShift,
            FeatureInstance::HiResWheel(_) => FeatureKind::HiResWheel,
            FeatureInstance::Thumbwheel(_) => FeatureKind::Thumbwheel,
        }
    }

    /// The index of the device that the instance belongs to.
    pub open spec fn spec_device_index(&self) -> u8 {
        match self {
            FeatureInstance::Root(f) => f.device_index,
            FeatureInstance::FeatureSet(f) => f.device_index,
            FeatureInstance::DeviceInformation(f) => f.device_index,
            FeatureInstance::DeviceTypeAndName(f) => f.device_index,
            FeatureInstance::DeviceFriendlyName(f) => f.device_index,
            FeatureInstance::UnifiedBattery(f) => f.device_index,
            FeatureInstance::WirelessDeviceStatus(f) => f.device_index,
            FeatureInstance::SmartShift(f) => f.device_index,
            FeatureInstance::HiResWheel(f) => f.device_index,
            FeatureInstance::Thumbwheel(f) => f.device_index,
        }
    }

    /// The index of the feature in the feature table of the device. The root
    /// feature always has the index `0`.
    pub open spec fn spec_feature_index(&self) -> u8 {
        match self {
            FeatureInstance::Root(_) => 0,
            FeatureInstance::FeatureSet(f) => f.feature_index,
            FeatureInstance::DeviceInformation(f) => f.feature_index,
            FeatureInstance::DeviceTypeAndName(f) => f.feature_index,
            FeatureInstance::DeviceFriendlyName(f) => f.feature_index,
            FeatureInstance::UnifiedBattery(f) => f.feature_index,
            FeatureInstance::WirelessDeviceStatus(f) => f.feature_index,
            FeatureInstance::SmartShift(f) => f.feature_index,
            FeatureInstance::HiResWheel(f) => f.feature_index,
            FeatureInstance::Thumbwheel(f) => f.feature_index,
        }
    }

    /// The handle of the message listener of the instance, if it has one.
    pub open spec fn spec_listener(&self) -> Option<u32> {
        match self {
            FeatureInstance::UnifiedBattery(f) => Some(f.msg_listener_hdl),
            FeatureInstance::WirelessDeviceStatus(f) => Some(f.msg_listener_hdl),
            FeatureInstance::HiResWheel(f) => Some(f.msg_listener_hdl),
            FeatureInstance::Thumbwheel(f) => Some(f.msg_listener_hdl),
            _ => None,
        }
    }

    /// The handle of the message listener of the instance, if it has one.
    pub fn listener(&self) -> (r: Option<u32>)
        ensures
            r == self.spec_listener(),
    {
        match self {
            FeatureInstance::UnifiedBattery(f) => Some(f.msg_listener_hdl),
            FeatureInstance::WirelessDeviceStatus(f) => Some(f.msg_listener_hdl),
            FeatureInstance::HiResWheel(f) => Some(f.msg_listener_hdl),
            FeatureInstance::Thumbwheel(f) => Some(f.msg_listener_hdl),
            _ => None,
        }
    }

    /// Whether this is an instance of `kind` for the given device and feature
    /// index that was made on a channel in the state `before` and left it in
    /// the state `after`: the channel has the listener of the instance more,
    /// if it has one.
    pub open spec fn spec_is_new<S>(
        &self,
        kind: FeatureKind,
        device_index: u8,
        feature_index: u8,
        before: ChannelState<S>,
        after: ChannelState<S>,
    ) -> bool {
        &&& self.spec_kind() == kind
        &&& self.spec_device_index() == device_index
        &&& kind != FeatureKind::Root ==> self.spec_feature_index() == feature_index
        &&& after == spec_with_listener_of(before, *self)
        &&& match self.spec_listener() {
            Some(hdl) => !before.message_listeners.contains(hdl),
            None => true,
        }
    }

    /// Creates a new instance of the implementation `kind`.
    pub fn new<S>(
        kind: FeatureKind,
        chan: &mut HidppChannel<S>,
        device_index: u8,
        feature_index: u8,
    ) -> (r: Self)
        requires
            old(chan).wf(),
            old(chan)@.message_listeners.len() <= u32::MAX,
        ensures
            final(chan).wf(),
            r.spec_is_new(kind, device_index, feature_index, old(chan)@, final(chan)@),
    {
        match kind {
            FeatureKind::Root => FeatureInstance::Root(
                RootFeature::new(chan, device_index, feature_index),
            ),
            FeatureKind::FeatureSet => FeatureInstance::FeatureSet(
                FeatureSetFeatureV0::new(chan, device_index, feature_index),
            ),
            FeatureKind::DeviceInformation => FeatureInstance::DeviceInformation(
                DeviceInformationFeature::new(chan, device_index, feature_index),
            ),
            FeatureKind::DeviceTypeAndName => FeatureInstance::DeviceTypeAndName(
                DeviceTypeAndNameFeatureV0::new(chan, device_index, feature_index),
            ),
            FeatureKind::DeviceFriendlyName => FeatureInstance::DeviceFriendlyName(
                DeviceFriendlyNameFeatureV0::new(chan, device_index, feature_index),
            ),
            FeatureKind::UnifiedBattery => FeatureInstance::UnifiedBattery(
                UnifiedBatteryFeature::new(chan, device_index, feature_index),
            ),
            FeatureKind::WirelessDeviceStatus => FeatureInstance::WirelessDeviceStatus(
                WirelessDeviceStatusFeature::new(chan, device_index, feature_index),
            ),
            FeatureKind::SmartShift => FeatureInstance::SmartShift(
                SmartShiftFeatureV0::new(chan, device_index, feature_index),
            ),
            FeatureKind::HiResWheel => FeatureInstance::HiResWheel(
                HiResWheelFeatureV0::new(chan, device_index, feature_index),
            ),
            FeatureKind::Thumbwheel => FeatureInstance::Thumbwheel(
                ThumbwheelFeatureV0::new(chan, device_index, feature_index),
            ),
        }
    }
}

/// The channel after an instance was made on it: it has the listener of the
/// instance more, if the instance has one.
pub open spec fn spec_with_listener_of<S>(before: ChannelState<S>, instance: FeatureInstance) -> ChannelState<
    S,
> {
    match instance.spec_listener() {
        Some(hdl) => before.with_listener(hdl),
        None => before,
    }
}

/// The channel after the instance `replaced`, if there is one, has given up
/// its place: its listener is removed, if it has one.
pub open spec fn spec_without_listener_of<S>(
    before: ChannelState<S>,
    replaced: Option<FeatureInstance>,
) -> ChannelState<S> {
    match replaced {
        Some(instance) => match instance.spec_listener() {
            Some(hdl) => before.without_listener(hdl),
            None => before,
        },
        None => before,
    }
}

/// The channel after the features have given up their listeners one after the
/// other.
pub open spec fn spec_released<S>(chan: ChannelState<S>, features: Seq<FeatureInstance>) -> ChannelState<
    S,
>
    decreases features.len(),
{
    if features.len() == 0 {
        chan
    } else {
        spec_without_listener_of(spec_released(chan, features.drop_last()), Some(features.last()))
    }
}

/// The position of the first feature of the given kind at or after `start`.
pub open spec fn spec_position_of_kind(features: Seq<FeatureInstance>, kind: FeatureKind, start: int) -> Option<
    int,
>
    decreases features.len() - start,
{
    if start < 0 || start >= features.len() {
        None
    } else if features[start].spec_kind() == kind {
        Some(start)
    } else {
        spec_position_of_kind(features, kind, start + 1)
    }
}

/// The feature of the given kind among `features`, if there is one.
pub open spec fn spec_feature(features: Seq<FeatureInstance>, kind: FeatureKind) -> Option<
    FeatureInstance,
> {
    match spec_position_of_kind(features, kind, 0) {
        Some(i) => Some(features[i]),
        None => None,
    }
}

/// The features after `instance` was added: it takes the place of the feature
/// of its kind, or comes last where there was none.
pub open spec fn spec_with_feature(features: Seq<FeatureInstance>, instance: FeatureInstance) -> Seq<
    FeatureInstance,
> {
    match spec_position_of_kind(features, instance.spec_kind(), 0) {
        Some(i) => features.update(i, instance),
        None => features.push(instance),
    }
}

/// Whether no two of the features are of the same kind.
pub open spec fn spec_distinct_kinds(features: Seq<FeatureInstance>) -> bool {
    forall|i: int, j: int|
        0 <= i < features.len() && 0 <= j < features.len() && i != j ==> features[i].spec_kind()
            != features[j].spec_kind()
}

/// Where a search for a kind ends: at a feature of that kind before which
/// there is none, or nowhere if there is none at all.
pub proof fn lemma_position_of_kind(features: Seq<FeatureInstance>, kind: FeatureKind, start: int)
    requires
        0 <= start,
    ensures
        match spec_position_of_kind(features, kind, start) {
            Some(i) => start <= i < features.len() && features[i].spec_kind() == kind && forall|
                j: int,
            |
                start <= j < i ==> (#[trigger] features[j]).spec_kind() != kind,
            None => forall|j: int|
                start <= j < features.len() ==> (#[trigger] features[j]).spec_kind() != kind,
        },
    decreases features.len() - start,
{
    if start < features.len() && features[start].spec_kind() != kind {
        lemma_position_of_kind(features, kind, start + 1);
    }
}

/// A feature of a kind before which there is no feature of that kind is
/// where the search for the kind ends.
pub proof fn lemma_position_is(features: Seq<FeatureInstance>, kind: FeatureKind, at: int)
    requires
        0 <= at < features.len(),
        features[at].spec_kind() == kind,
        forall|j: int| 0 <= j < at ==> (#[trigger] features[j]).spec_kind() != kind,
    ensures
        spec_position_of_kind(features, kind, 0) == Some(at),
{
    lemma_position_of_kind(features, kind, 0);
    match spec_position_of_kind(features, kind, 0) {
        Some(i) => {
            if i < at {
                assert(features[i].spec_kind() != kind);
            } else if at < i {
                assert(features[at].spec_kind() == kind);
            }
        },
        None => {
            assert(features[at].spec_kind() == kind);
        },
    }
}

/// Where there is no feature of a kind, the search for the kind finds none.
pub proof fn lemma_position_is_none(features: Seq<FeatureInstance>, kind: FeatureKind)
    requires
        forall|j: int| 0 <= j < features.len() ==> (#[trigger] features[j]).spec_kind() != kind,
    ensures
        spec_position_of_kind(features, kind, 0) is None,
{
    lemma_position_of_kind(features, kind, 0);
    match spec_position_of_kind(features, kind, 0) {
        Some(i) => {
            assert(features[i].spec_kind() != kind);
        },
        None => {},
    }
}

/// A feature that was added is the feature that is found under its kind,
/// every other kind finds what it found before, and no kind is there twice.
pub proof fn lemma_with_feature(features: Seq<FeatureInstance>, instance: FeatureInstance)
    requires
        spec_distinct_kinds(features),
    ensures
        spec_distinct_kinds(spec_with_feature(features, instance)),
        spec_feature(spec_with_feature(features, instance), instance.spec_kind()) == Some(
            instance,
        ),
        forall|kind: FeatureKind|
            kind != instance.spec_kind() ==> #[trigger] spec_feature(
                spec_with_feature(features, instance),
                kind,
            ) == spec_feature(features, kind),
{
    let after = spec_with_feature(features, instance);
    let own = instance.spec_kind();
    lemma_position_of_kind(features, own, 0);
    let at = match spec_position_of_kind(features, own, 0) {
        Some(i) => i,
        None => features.len() as int,
    };
    assert(after.len() > at && after[at] == instance);
    assert forall|j: int| 0 <= j < after.len() && j != at implies (#[trigger] after[j])
        == features[j] && features[j].spec_kind() != own by {
        if spec_position_of_kind(features, own, 0) is Some {
            assert(features[at].spec_kind() == own);
        } else {
            assert(features[j].spec_kind() != own);
        }
    }
    lemma_position_is(after, own, at);
    assert forall|kind: FeatureKind| kind != own implies #[trigger] spec_feature(after, kind)
        == spec_feature(features, kind) by {
        lemma_position_of_kind(features, kind, 0);
        match spec_position_of_kind(features, kind, 0) {
            Some(i) => {
                assert(i != at) by {
                    if i == at {
                        assert(features[at].spec_kind() == own);
                    }
                }
                assert(after[i] == features[i]);
                assert forall|j: int| 0 <= j < i implies (#[trigger] after[j]).spec_kind()
                    != kind by {
                    if j != at {
                        assert(after[j] == features[j]);
                    }
                }
                lemma_position_is(after, kind, i);
            },
            None => {
                assert forall|j: int| 0 <= j < after.len() implies (#[trigger] after[j]).spec_kind()
                    != kind by {
                    if j != at {
                        assert(after[j] == features[j]);
                    }
                }
                lemma_position_is_none(after, kind);
            },
        }
    }
}

/// Represents a single HID++ device connected to a [`HidppChannel`].
///
/// This is used only for peripheral devices and not receivers.
#[derive(Clone, Debug)]
pub struct Device {
    /// The initialized implementation of features the device supports. No two
    /// of them are of the same kind.
    features: Vec<FeatureInstance>,
    /// The index of the device on the HID++ channel.
    device_index: u8,
    /// The supported protocol version reported by the device.
    protocol_version: ProtocolVersion,
}

/// Represents a device-specific error.
#[derive(Debug)]
pub enum DeviceError {
    /// Indicates that the underlying [`HidppChannel`] returned an error.
    Channel(ChannelError),
    /// Indicates that the specified device index points to no device.
    DeviceNotFound,
    /// Indicates that the addressed device does only support HID++1.0.
    UnsupportedProtocolVersion,
}

impl From<ChannelError> for DeviceError {
    fn from(value: ChannelError) -> (r: DeviceError) {
        DeviceError::Channel(value)
    }
}

impl FromSpecImpl<ChannelError> for DeviceError {
    open spec fn obeys_from_spec() -> bool {
        true
    }

    open spec fn from_spec(value: ChannelError) -> DeviceError {
        DeviceError::Channel(value)
    }
}

impl DeviceError {
    /// The description of the error in words.
    pub open spec fn spec_message(&self) -> &'static str {
        match self {
            DeviceError::Channel(_) => "the HID++ channel returned an error",
            DeviceError::DeviceNotFound => "there is no device with the specified device index",
            DeviceError::UnsupportedProtocolVersion =>
                "the device does not support HID++2.0 or newer",
        }
    }

    /// Describes the error in words.
    pub fn message(&self) -> (r: &'static str)
        ensures
            r == self.spec_message(),
    {
        match self {
            DeviceError::Channel(_) => "the HID++ channel returned an error",
            DeviceError::DeviceNotFound => "there is no device with the specified device index",
            DeviceError::UnsupportedProtocolVersion =>
                "the device does not support HID++2.0 or newer",
        }
    }
}

impl Device {
    /// The features that are installed on the device.
    pub closed spec fn features(&self) -> Seq<FeatureInstance> {
        self.features@
    }

    /// The index of the device on the HID++ channel.
    pub closed spec fn spec_device_index(&self) -> u8 {
        self.device_index
    }

    /// The supported protocol version reported by the device.
    pub closed spec fn spec_protocol_version(&self) -> ProtocolVersion {
        self.protocol_version
    }

    /// A device is well-formed when no two of its features are of the same
    /// kind, when the root feature is among them, and when all of them are
    /// features of this device.
    pub open spec fn wf(&self) -> bool {
        &&& spec_distinct_kinds(self.features())
        &&& spec_feature(self.features(), FeatureKind::Root) is Some
        &&& forall|i: int|
            0 <= i < self.features().len() ==> (#[trigger] self.features()[i]).spec_device_index()
                == self.spec_device_index()
    }

    /// Initializes a device on a HID++ channel from the protocol version that
    /// [`crate::protocol::determine_version`] found for its device index.
    ///
    /// Returns [`DeviceError::DeviceNotFound`] if there is no device with the
    /// specified index connected to the channel.
    ///
    /// Returns [`DeviceError::UnsupportedProtocolVersion`] if the device only
    /// supports [`ProtocolVersion::V10`].
    ///
    /// Every HID++2.0 device supports the root feature, which is installed at
    /// the feature index `0`.
    pub fn new<S>(
        chan: &mut HidppChannel<S>,
        device_index: u8,
        protocol_version: Option<ProtocolVersion>,
    ) -> (r: Result<Self, DeviceError>)
        requires
            old(chan).wf(),
            old(chan)@.message_listeners.len() <= u32::MAX,
        ensures
            final(chan).wf(),
            final(chan)@ == old(chan)@,
            match protocol_version {
                None => r is Err && r->Err_0 is DeviceNotFound,
                Some(ProtocolVersion::V10) => r is Err && r->Err_0 is UnsupportedProtocolVersion,
                Some(version) => {
                    &&& r is Ok
                    &&& r->Ok_0.wf()
                    &&& r->Ok_0.spec_device_index() == device_index
                    &&& r->Ok_0.spec_protocol_version() == version
                    &&& r->Ok_0.features() == seq![
                        FeatureInstance::Root(RootFeature { device_index }),
                    ]
                },
            },
    {
        let version = match protocol_version {
            None => {
                return Err(DeviceError::DeviceNotFound);
            },
            Some(version) => version,
        };
        if version == ProtocolVersion::V10 {
            return Err(DeviceError::UnsupportedProtocolVersion);
        }
        let mut device = Self { features: Vec::new(), device_index, protocol_version: version };

        // Every HID++2.0 device supports the root feature.
        device.add_feature(chan, FeatureKind::Root, 0);
        assert(device.features@ =~= seq![FeatureInstance::Root(RootFeature { device_index })]);

        Ok(device)
    }

    /// The index of the device on the HID++ channel.
    pub fn device_index(&self) -> (r: u8)
        ensures
            r == self.spec_device_index(),
    {
        self.device_index
    }

    /// The supported protocol version reported by the device.
    pub fn protocol_version(&self) -> (r: ProtocolVersion)
        ensures
            r == self.spec_protocol_version(),
    {
        self.protocol_version
    }

    /// The position of the feature of the given kind.
    fn position(&self, kind: FeatureKind) -> (r: Option<usize>)
        ensures
            match r {
                Some(i) => spec_position_of_kind(self.features(), kind, 0) == Some(i as int) && i
                    < self.features().len(),
                None => spec_position_of_kind(self.features(), kind, 0) is None,
            },
    {
        let n = self.features.len();
        let mut i: usize = 0;
        while i < n
            invariant
                i <= n,
                n == self.features@.len(),
                spec_position_of_kind(self.features@, kind, i as int) == spec_position_of_kind(
                    self.features@,
                    kind,
                    0,
                ),
            decreases n - i,
        {
            if self.features[i].kind() == kind {
                return Some(i);
            }
            i += 1;
        }
        None
    }

    /// A convenience wrapper around [`Self::get_feature`] to obtain the root
    /// feature.
    pub fn root(&self) -> (r: RootFeature)
        requires
            self.wf(),
        ensures
            spec_feature(self.features(), FeatureKind::Root) == Some(FeatureInstance::Root(r)),
    {
        proof {
            lemma_position_of_kind(self.features(), FeatureKind::Root, 0);
        }
        match self.get_feature(FeatureKind::Root) {
            Some(FeatureInstance::Root(root)) => root,
            _ => RootFeature { device_index: self.device_index },
        }
    }

    /// Adds a new feature implementation to the list of available features.
    /// It takes the place of an instance of the same kind that is installed.
    /// It is up to the caller to know that the device supports the feature.
    pub fn add_feature_instance(&mut self, feature: FeatureInstance) -> (r: FeatureInstance)
        ensures
            r == feature,
            final(self).features() == spec_with_feature(old(self).features(), feature),
            final(self).spec_device_index() == old(self).spec_device_index(),
            final(self).spec_protocol_version() == old(self).spec_protocol_version(),
            spec_distinct_kinds(old(self).features()) ==> spec_distinct_kinds(
                final(self).features(),
            ),
            old(self).wf() && feature.spec_device_index() == old(self).spec_device_index()
                ==> final(self).wf(),
    {
        proof {
            lemma_position_of_kind(self.features(), feature.spec_kind(), 0);
            if spec_distinct_kinds(self.features()) {
                lemma_with_feature(self.features(), feature);
            }
        }
        match self.position(feature.kind()) {
            Some(i) => {
                self.features.set(i, feature);
            },
            None => {
                self.features.push(feature);
            },
        }
        feature
    }

    /// Adds a new feature implementation to the list of available features.
    /// It takes the place of an instance of the same kind that is installed.
    /// It is up to the caller to know that the device supports the feature.
    ///
    /// This method creates an instance of the implementation `kind` for this
    /// device and adds it using [`Self::add_feature_instance`]. The message
    /// listener of the instance whose place it takes is removed from the
    /// channel.
    pub fn add_feature<S>(&mut self, chan: &mut HidppChannel<S>, kind: FeatureKind, feature_index: u8) -> (r:
        FeatureInstance)
        requires
            old(chan).wf(),
            old(chan)@.message_listeners.len() <= u32::MAX,
        ensures
            final(chan).wf(),
            r.spec_is_new(
                kind,
                old(self).spec_device_index(),
                feature_index,
                spec_without_listener_of(old(chan)@, spec_feature(old(self).features(), kind)),
                final(chan)@,
            ),
            final(chan)@.message_listeners.len() <= old(chan)@.message_listeners.len() + 1,
            final(self).features() == spec_with_feature(old(self).features(), r),
            final(self).spec_device_index() == old(self).spec_device_index(),
            final(self).spec_protocol_version() == old(self).spec_protocol_version(),
            spec_distinct_kinds(old(self).features()) ==> spec_distinct_kinds(
                final(self).features(),
            ),
            old(self).wf() ==> final(self).wf(),
    {
        match self.get_feature(kind) {
            Some(replaced) => match replaced.listener() {
                Some(hdl) => {
                    chan.remove_msg_listener(hdl);
                },
                None => {},
            },
            None => {},
        }
        let instance = FeatureInstance::new(kind, chan, self.device_index, feature_index);
        self.add_feature_instance(instance)
    }

    /// Releases the device: removes the message listener of every feature that
    /// is installed on it from the channel, and changes nothing else.
    ///
    /// On a well-formed channel no listener of a feature of the device is
    /// registered afterwards.
    pub fn release<S>(&self, chan: &mut HidppChannel<S>)
        ensures
            final(chan)@ == spec_released(old(chan)@, self.features()),
            old(chan).wf() ==> final(chan).wf(),
            old(chan).wf() ==> forall|i: int|
                0 <= i < self.features().len() ==> match (
                #[trigger] self.features()[i]).spec_listener() {
                    Some(hdl) => !final(chan)@.message_listeners.contains(hdl),
                    None => true,
                },
    {
        let n = self.features.len();
        let mut k: usize = 0;
        assert(self.features@.take(0) =~= Seq::<FeatureInstance>::empty());
        while k < n
            invariant
                k <= n,
                n == self.features@.len(),
                chan@ == spec_released(old(chan)@, self.features@.take(k as int)),
                old(chan).wf() ==> chan.wf(),
                old(chan).wf() ==> forall|i: int|
                    0 <= i < k ==> match (#[trigger] self.features@[i]).spec_listener() {
                        Some(hdl) => !chan@.message_listeners.contains(hdl),
                        None => true,
                    },
            decreases n - k,
        {
            let ghost before = chan@;
            match self.features[k].listener() {
                Some(hdl) => {
                    chan.remove_msg_listener(hdl);
                    proof {
                        lemma_without_listener(before, hdl);
                    }
                },
                None => {},
            }
            proof {
                assert(self.features@.take(k + 1).drop_last() =~= self.features@.take(k as int));
                assert(self.features@.take(k + 1).last() == self.features@[k as int]);
            }
            k += 1;
        }
        assert(self.features@.take(n as int) =~= self.features@);
    }

    /// Checks whether a specific feature implementation is provided by the
    /// device.
    pub fn provides_feature(&self, kind: FeatureKind) -> (r: bool)
        ensures
            r == spec_feature(self.features(), kind) is Some,
    {
        self.position(kind).is_some()
    }

    /// Tries to retrieve a feature implementation from the device.
    ///
    /// Returns [`None`] if the requested feature implementation is not
    /// provided.
    pub fn get_feature(&self, kind: FeatureKind) -> (r: Option<FeatureInstance>)
        ensures
            r == spec_feature(self.features(), kind),
    {
        match self.position(kind) {
            Some(i) => {
                Some(self.features[i])
            },
            None => None,
        }
    }
}

/// Where an enumeration of the features of a device stands.
///
/// [`Device::enumerate_features`] starts an enumeration, and
/// [`Device::continue_enumeration`] takes it one response further.
#[derive(Clone, PartialEq, Eq, Debug)]
pub enum FeatureEnumeration {
    /// The root feature was asked for the feature set feature.
    Lookup,
    /// The feature set feature was asked for the number of features.
    Count {
        /// The feature set feature of the device.
        feature_set: FeatureSetFeatureV0,
    },
    /// The feature set feature was asked for the feature at `index`.
    Feature {
        /// The feature set feature of the device.
        feature_set: FeatureSetFeatureV0,
        /// The number of features of the device, without the root feature.
        count: u8,
        /// The index of the feature that was asked for.
        index: u8,
        /// The features that were found so far.
        features: Vec<FeatureInformation>,
    },
}

/// How an enumeration goes on after a response.
#[derive(Debug)]
pub enum EnumerationNext {
    /// The next request was enqueued. Holds the state to continue with once
    /// the response is there, and the frame to write.
    Request(FeatureEnumeration, Vec<u8>),
    /// The enumeration is over. Holds all features that the device supports,
    /// or `None` if the device does not support the feature set feature, which
    /// is required for feature enumeration.
    Done(Option<Vec<FeatureInformation>>),
}

/// What one step of an enumeration did.
#[derive(Debug)]
pub struct EnumerationStep {
    /// The feature instances that were installed on the device in this step,
    /// in the order in which they were installed.
    pub installed: Vec<FeatureInstance>,
    /// How the enumeration goes on, or the error that ends it.
    pub outcome: Result<EnumerationNext, Hidpp20Error>,
}

impl EnumerationStep {
    /// The result of the request of the step, where the step made one.
    pub open spec fn spec_frame(&self) -> Result<Vec<u8>, Hidpp20Error> {
        match self.outcome {
            Ok(EnumerationNext::Request(_, frame)) => Ok(frame),
            Ok(EnumerationNext::Done(_)) => Err(Hidpp20Error::UnsupportedResponse),
            Err(e) => Err(e),
        }
    }

    /// Whether the step ended with the request for the feature at `index`.
    pub open spec fn spec_asks_for(
        &self,
        feature_set: FeatureSetFeatureV0,
        count: u8,
        index: u8,
        features: Seq<FeatureInformation>,
    ) -> bool {
        match self.outcome {
            Ok(
                EnumerationNext::Request(
                    FeatureEnumeration::Feature { feature_set: fs, count: c, index: i, features: f },
                    _,
                ),
            ) => fs == feature_set && c == count && i == index && f@ == features,
            Ok(_) => false,
            Err(_) => true,
        }
    }

    /// Whether the step ended the enumeration with the given features.
    pub open spec fn spec_is_done_with(&self, features: Seq<FeatureInformation>) -> bool {
        match self.outcome {
            Ok(EnumerationNext::Done(Some(f))) => f@ == features,
            _ => false,
        }
    }
}

/// The features of a device together with its channel.
pub struct Installed<S> {
    /// The features that are installed on the device.
    pub features: Seq<FeatureInstance>,
    /// What the channel of the device holds.
    pub chan: ChannelState<S>,
}

/// The features and the channel after the instances `made` were installed
/// one after the other: each takes the place of the instance of its kind,
/// whose listener leaves the channel, and brings its own listener.
pub open spec fn spec_installed<S>(
    features: Seq<FeatureInstance>,
    chan: ChannelState<S>,
    made: Seq<FeatureInstance>,
) -> Installed<S>
    decreases made.len(),
{
    if made.len() == 0 {
        Installed { features, chan }
    } else {
        let before = spec_installed(features, chan, made.drop_last());
        Installed {
            features: spec_with_feature(before.features, made.last()),
            chan: spec_with_listener_of(
                spec_without_listener_of(
                    before.chan,
                    spec_feature(before.features, made.last().spec_kind()),
                ),
                made.last(),
            ),
        }
    }
}

/// Whether `made` holds one instance for each of the implementations
/// `impls`, in their order, for the given device and feature index.
pub open spec fn spec_made_for(
    made: Seq<FeatureInstance>,
    impls: Seq<FeatureVersion>,
    device_index: u8,
    feature_index: u8,
) -> bool {
    &&& made.len() == impls.len()
    &&& forall|k: int|
        0 <= k < made.len() ==> {
            &&& (#[trigger] made[k]).spec_kind() == impls[k].producer
            &&& made[k].spec_device_index() == device_index
            &&& impls[k].producer != FeatureKind::Root ==> made[k].spec_feature_index()
                == feature_index
        }
}

/// The implementations that an enumeration installs for the feature that it
/// found at `index`: none for the feature set feature itself, which is
/// installed already, and else those that the registry knows for the ID and
/// the version of the feature.
pub open spec fn spec_impls_for(info: FeatureInformation, index: u8, feature_set_index: u8) -> Seq<
    FeatureVersion,
> {
    if index == feature_set_index {
        Seq::empty()
    } else {
        match registry::spec_name(info.id) {
            Some(_) => registry::spec_supporting(registry::spec_versions(info.id), info.version),
            None => Seq::empty(),
        }
    }
}

/// Installing instances changes nothing of a channel but its listeners.
pub proof fn lemma_installed_keeps<S>(
    features: Seq<FeatureInstance>,
    chan: ChannelState<S>,
    made: Seq<FeatureInstance>,
)
    ensures
        spec_installed(features, chan, made).chan == (ChannelState {
            message_listeners: spec_installed(features, chan, made).chan.message_listeners,
            ..chan
        }),
    decreases made.len(),
{
    if made.len() > 0 {
        lemma_installed_keeps(features, chan, made.drop_last());
    }
}

impl Device {
    /// Installs one instance of each of the implementations `impls` for the
    /// feature at `feature_index`.
    fn install<S>(
        &mut self,
        chan: &mut HidppChannel<S>,
        impls: &Vec<FeatureVersion>,
        feature_index: u8,
    ) -> (made: Vec<FeatureInstance>)
        requires
            old(self).wf(),
            old(chan).wf(),
            old(chan)@.message_listeners.len() + impls@.len() <= u32::MAX,
        ensures
            final(self).wf(),
            final(chan).wf(),
            final(self).spec_device_index() == old(self).spec_device_index(),
            final(self).spec_protocol_version() == old(self).spec_protocol_version(),
            spec_made_for(made@, impls@, old(self).spec_device_index(), feature_index),
            final(self).features() == spec_installed(
                old(self).features(),
                old(chan)@,
                made@,
            ).features,
            final(chan)@ == spec_installed(old(self).features(), old(chan)@, made@).chan,
    {
        let mut made: Vec<FeatureInstance> = Vec::new();
        let n = impls.len();
        let mut k: usize = 0;
        while k < n
            invariant
                k <= n,
                n == impls@.len(),
                made@.len() == k,
                self.wf(),
                chan.wf(),
                old(chan)@.message_listeners.len() + impls@.len() <= u32::MAX,
                chan@.message_listeners.len() <= old(chan)@.message_listeners.len() + k,
                self.spec_device_index() == old(self).spec_device_index(),
                self.spec_protocol_version() == old(self).spec_protocol_version(),
                spec_made_for(
                    made@,
                    impls@.take(k as int),
                    old(self).spec_device_index(),
                    feature_index,
                ),
                self.features() == spec_installed(old(self).features(), old(chan)@, made@).features,
                chan@ == spec_installed(old(self).features(), old(chan)@, made@).chan,
            decreases n - k,
        {
            let ghost before = made@;
            let instance = self.add_feature(chan, impls[k].producer, feature_index);
            made.push(instance);
            proof {
                assert(made@.drop_last() =~= before);
                assert(made@.last() == instance);
                assert forall|j: int| 0 <= j < made@.len() implies {
                    &&& (#[trigger] made@[j]).spec_kind() == impls@.take(k + 1)[j].producer
                    &&& made@[j].spec_device_index() == old(self).spec_device_index()
                    &&& impls@.take(k + 1)[j].producer != FeatureKind::Root
                        ==> made@[j].spec_feature_index() == feature_index
                } by {
                    if j < k {
                        assert(made@[j] == before[j]);
                        assert(impls@.take(k + 1)[j] == impls@.take(k as int)[j]);
                    }
                }
            }
            k += 1;
        }
        assert(impls@.take(n as int) =~= impls@);
        made
    }

    /// Starts to detect all features supported by the device and to add
    /// implementations for them using [`registry::lookup_version`]: asks the
    /// root feature for the feature set feature.
    ///
    /// Hands out the state of the enumeration and the frame to write.
    /// [`Self::continue_enumeration`] takes the response.
    pub fn enumerate_features<S>(&self, chan: &mut HidppChannel<S>, sender: S) -> (r: Result<
        (FeatureEnumeration, Vec<u8>),
        Hidpp20Error,
    >)
        requires
            self.wf(),
        ensures
            old(chan).wf() ==> final(chan).wf(),
            v20::spec_function_called(
                old(chan)@,
                final(chan)@,
                v20::Message::Short(
                    v20::spec_request_header(self.spec_device_index(), 0, 0, old(chan)@.fresh_sw_id()),
                    [0x00, 0x01, 0x00],
                ),
                sender,
                match r {
                    Ok((_, frame)) => Ok(frame),
                    Err(e) => Err(e),
                },
            ),
            match r {
                Ok((state, _)) => state is Lookup,
                Err(_) => true,
            },
    {
        proof {
            lemma_position_of_kind(self.features(), FeatureKind::Root, 0);
        }
        let root = self.root();
        assert(self.features()[spec_position_of_kind(self.features(), FeatureKind::Root, 0)->0]
            == FeatureInstance::Root(root));
        let frame = root.get_feature(chan, feature_set::FEATURE_ID, sender)?;
        Ok((FeatureEnumeration::Lookup, frame))
    }
}

/// What the step after the lookup of the feature set feature does.
///
/// An error response ends the enumeration with that error. A response that
/// tells that the device lacks the feature set feature ends it with `None`.
/// Else the feature set feature is installed at the index that the response
/// tells, and is asked for the number of features.
pub open spec fn spec_after_lookup<S>(
    before: Seq<FeatureInstance>,
    after: Seq<FeatureInstance>,
    device_index: u8,
    chan_before: ChannelState<S>,
    chan_after: ChannelState<S>,
    response: HidppMessage,
    sender: S,
    step: EnumerationStep,
) -> bool {
    match root::spec_get_feature_reply(response) {
        Err(e) => {
            &&& step.outcome == Err::<EnumerationNext, Hidpp20Error>(e)
            &&& step.installed@ == Seq::<FeatureInstance>::empty()
            &&& after == before
            &&& chan_after == chan_before
        },
        Ok(None) => {
            &&& step.outcome matches Ok(EnumerationNext::Done(None))
            &&& step.installed@ == Seq::<FeatureInstance>::empty()
            &&& after == before
            &&& chan_after == chan_before
        },
        Ok(Some(info)) => {
            let feature_set = FeatureSetFeatureV0 { device_index, feature_index: info.index };
            &&& step.installed@ == seq![FeatureInstance::FeatureSet(feature_set)]
            &&& after == spec_with_feature(before, FeatureInstance::FeatureSet(feature_set))
            &&& match step.outcome {
                Ok(EnumerationNext::Request(FeatureEnumeration::Count { feature_set: fs }, _)) => fs
                    == feature_set,
                Ok(_) => false,
                Err(_) => true,
            }
            &&& v20::spec_function_called(
                chan_before,
                chan_after,
                v20::Message::Short(
                    v20::spec_request_header(device_index, info.index, 0, chan_before.fresh_sw_id()),
                    [0x00, 0x00, 0x00],
                ),
                sender,
                step.spec_frame(),
            )
        },
    }
}

/// What the step after the count of the features does.
///
/// An error response ends the enumeration with that error. A count of `0`
/// ends it with no features. Else the feature set feature is asked for the
/// feature at the index `1`.
pub open spec fn spec_after_count<S>(
    feature_set: FeatureSetFeatureV0,
    chan_before: ChannelState<S>,
    chan_after: ChannelState<S>,
    response: HidppMessage,
    sender: S,
    step: EnumerationStep,
) -> bool {
    &&& step.installed@ == Seq::<FeatureInstance>::empty()
    &&& match feature_set::spec_count_reply(response) {
        Err(e) => step.outcome == Err::<EnumerationNext, Hidpp20Error>(e) && chan_after
            == chan_before,
        Ok(count) => if count == 0 {
            step.spec_is_done_with(Seq::empty()) && chan_after == chan_before
        } else {
            &&& step.spec_asks_for(feature_set, count, 1, Seq::empty())
            &&& v20::spec_function_called(
                chan_before,
                chan_after,
                v20::Message::Short(
                    v20::spec_request_header(
                        feature_set.device_index,
                        feature_set.feature_index,
                        1,
                        chan_before.fresh_sw_id(),
                    ),
                    [1, 0x00, 0x00],
                ),
                sender,
                step.spec_frame(),
            )
        },
    }
}

/// What the step after the information on the feature at `index` does.
///
/// An error response ends the enumeration with that error. Else the feature
/// joins the features that were found, and the implementations that
/// [`spec_impls_for`] names are installed for it at `index`, as
/// [`spec_installed`] says. If that was the
/// last feature, the enumeration ends with all features that were found.
/// Else the feature set feature is asked for the next feature.
pub open spec fn spec_after_feature<S>(
    before: Seq<FeatureInstance>,
    after: Seq<FeatureInstance>,
    device_index: u8,
    feature_set: FeatureSetFeatureV0,
    count: u8,
    index: u8,
    features: Seq<FeatureInformation>,
    chan_before: ChannelState<S>,
    chan_after: ChannelState<S>,
    response: HidppMessage,
    sender: S,
    step: EnumerationStep,
) -> bool {
    match feature_set::spec_get_feature_reply(response) {
        Err(e) => {
            &&& step.outcome == Err::<EnumerationNext, Hidpp20Error>(e)
            &&& step.installed@ == Seq::<FeatureInstance>::empty()
            &&& after == before
            &&& chan_after == chan_before
        },
        Ok(info) => {
            let installed = spec_installed(before, chan_before, step.installed@);
            let chan_mid = installed.chan;
            &&& spec_made_for(
                step.installed@,
                spec_impls_for(info, index, feature_set.feature_index),
                device_index,
                index,
            )
            &&& after == installed.features
            &&& if index >= count {
                step.spec_is_done_with(features.push(info)) && chan_after == chan_mid
            } else {
                &&& step.spec_asks_for(feature_set, count, (index + 1) as u8, features.push(info))
                &&& v20::spec_function_called(
                    chan_mid,
                    chan_after,
                    v20::Message::Short(
                        v20::spec_request_header(
                            feature_set.device_index,
                            feature_set.feature_index,
                            1,
                            chan_mid.fresh_sw_id(),
                        ),
                        [(index + 1) as u8, 0x00, 0x00],
                    ),
                    sender,
                    step.spec_frame(),
                )
            }
        },
    }
}

impl Device {
    /// Takes the response to the lookup of the feature set feature.
    fn after_lookup<S>(&mut self, chan: &mut HidppChannel<S>, response: HidppMessage, sender: S) -> (step:
        EnumerationStep)
        requires
            old(self).wf(),
            old(chan).wf(),
        ensures
            final(self).wf(),
            final(chan).wf(),
            final(self).spec_device_index() == old(self).spec_device_index(),
            final(self).spec_protocol_version() == old(self).spec_protocol_version(),
            spec_after_lookup(
                old(self).features(),
                final(self).features(),
                old(self).spec_device_index(),
                old(chan)@,
                final(chan)@,
                response,
                sender,
                step,
            ),
    {
        let feature_set_info = match RootFeature::get_feature_reply(response) {
            Err(e) => {
                return EnumerationStep { installed: Vec::new(), outcome: Err(e) };
            },
            Ok(None) => {
                return EnumerationStep {
                    installed: Vec::new(),
                    outcome: Ok(EnumerationNext::Done(None)),
                };
            },
            Ok(Some(info)) => info,
        };
        let feature_set = FeatureSetFeatureV0 {
            device_index: self.device_index,
            feature_index: feature_set_info.index,
        };
        let instance = self.add_feature_instance(FeatureInstance::FeatureSet(feature_set));
        let mut installed: Vec<FeatureInstance> = Vec::new();
        installed.push(instance);
        assert(installed@ =~= seq![FeatureInstance::FeatureSet(feature_set)]);

        let outcome = match feature_set.count(chan, sender) {
            Ok(frame) => Ok(
                EnumerationNext::Request(FeatureEnumeration::Count { feature_set }, frame),
            ),
            Err(e) => Err(e),
        };
        EnumerationStep { installed, outcome }
    }

    /// Takes the response to the count of the features.
    fn after_count<S>(
        chan: &mut HidppChannel<S>,
        feature_set: FeatureSetFeatureV0,
        response: HidppMessage,
        sender: S,
    ) -> (step: EnumerationStep)
        requires
            old(chan).wf(),
        ensures
            final(chan).wf(),
            spec_after_count(feature_set, old(chan)@, final(chan)@, response, sender, step),
    {
        let count = match FeatureSetFeatureV0::count_reply(response) {
            Err(e) => {
                return EnumerationStep { installed: Vec::new(), outcome: Err(e) };
            },
            Ok(count) => count,
        };
        if count == 0 {
            return EnumerationStep {
                installed: Vec::new(),
                outcome: Ok(EnumerationNext::Done(Some(Vec::new()))),
            };
        }
        let outcome = match feature_set.get_feature(chan, 1, sender) {
            Ok(frame) => Ok(
                EnumerationNext::Request(
                    FeatureEnumeration::Feature {
                        feature_set,
                        count,
                        index: 1,
                        features: Vec::new(),
                    },
                    frame,
                ),
            ),
            Err(e) => Err(e),
        };
        EnumerationStep { installed: Vec::new(), outcome }
    }

    /// Takes the response to the request for the feature at `index`.
    fn after_feature<S>(
        &mut self,
        chan: &mut HidppChannel<S>,
        feature_set: FeatureSetFeatureV0,
        count: u8,
        index: u8,
        features: Vec<FeatureInformation>,
        response: HidppMessage,
        sender: S,
    ) -> (step: EnumerationStep)
        requires
            old(self).wf(),
            old(chan).wf(),
            old(chan)@.message_listeners.len() < u32::MAX,
        ensures
            final(self).wf(),
            final(chan).wf(),
            final(self).spec_device_index() == old(self).spec_device_index(),
            final(self).spec_protocol_version() == old(self).spec_protocol_version(),
            spec_after_feature(
                old(self).features(),
                final(self).features(),
                old(self).spec_device_index(),
                feature_set,
                count,
                index,
                features@,
                old(chan)@,
                final(chan)@,
                response,
                sender,
                step,
            ),
    {
        let info = match FeatureSetFeatureV0::get_feature_reply(response) {
            Err(e) => {
                return EnumerationStep { installed: Vec::new(), outcome: Err(e) };
            },
            Ok(info) => info,
        };
        let mut features = features;
        features.push(info);

        let impls: Vec<FeatureVersion> = if index == feature_set.feature_index {
            Vec::new()
        } else {
            match registry::lookup_version(info.id, info.version) {
                Some(impls) => impls,
                None => Vec::new(),
            }
        };
        proof {
            assert(impls@ =~= spec_impls_for(info, index, feature_set.feature_index));
            registry::lemma_supporting(registry::spec_versions(info.id), info.version);
        }
        let installed = self.install(chan, &impls, index);

        if index >= count {
            return EnumerationStep {
                installed,
                outcome: Ok(EnumerationNext::Done(Some(features))),
            };
        }
        let outcome = match feature_set.get_feature(chan, index + 1, sender) {
            Ok(frame) => Ok(
                EnumerationNext::Request(
                    FeatureEnumeration::Feature { feature_set, count, index: index + 1, features },
                    frame,
                ),
            ),
            Err(e) => Err(e),
        };
        EnumerationStep { installed, outcome }
    }

    /// Takes an enumeration of features one response further.
    ///
    /// `state` is the state of the enumeration, and `response` is the response
    /// to the request that was made last. What the step does depends on the
    /// state: see [`spec_after_lookup`], [`spec_after_count`] and
    /// [`spec_after_feature`]. Where the step made a request, `sender` waits
    /// for its response.
    pub fn continue_enumeration<S>(
        &mut self,
        chan: &mut HidppChannel<S>,
        state: FeatureEnumeration,
        response: HidppMessage,
        sender: S,
    ) -> (step: EnumerationStep)
        requires
            old(self).wf(),
            old(chan).wf(),
            old(chan)@.message_listeners.len() < u32::MAX,
        ensures
            final(self).wf(),
            final(chan).wf(),
            final(self).spec_device_index() == old(self).spec_device_index(),
            final(self).spec_protocol_version() == old(self).spec_protocol_version(),
            match state {
                FeatureEnumeration::Lookup => spec_after_lookup(
                    old(self).features(),
                    final(self).features(),
                    old(self).spec_device_index(),
                    old(chan)@,
                    final(chan)@,
                    response,
                    sender,
                    step,
                ),
                FeatureEnumeration::Count { feature_set } => final(self).features() == old(
                    self,
                ).features() && spec_after_count(
                    feature_set,
                    old(chan)@,
                    final(chan)@,
                    response,
                    sender,
                    step,
                ),
                FeatureEnumeration::Feature { feature_set, count, index, features } =>
                    spec_after_feature(
                    old(self).features(),
                    final(self).features(),
                    old(self).spec_device_index(),
                    feature_set,
                    count,
                    index,
                    features@,
                    old(chan)@,
                    final(chan)@,
                    response,
                    sender,
                    step,
                ),
            },
    {
        match state {
            FeatureEnumeration::Lookup => self.after_lookup(chan, response, sender),
            FeatureEnumeration::Count { feature_set } => Self::after_count(
                chan,
                feature_set,
                response,
                sender,
            ),
            FeatureEnumeration::Feature { feature_set, count, index, features } =>
                self.after_feature(chan, feature_set, count, index, features, response, sender),
        }
    }
}

} // verus!
