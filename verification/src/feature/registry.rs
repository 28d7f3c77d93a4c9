//! Maintains a registry of well-known HID++2.0 features and their default
//! implementations.

use vstd::prelude::*;

verus! {

/// Names an implementation of a feature that this crate provides.
///
/// A device holds at most one instance of each implementation, and its
/// features are looked up by these names.
#[derive(Clone, Copy, PartialEq, Eq, Structural, Hash, Debug)]
pub enum FeatureKind {
    /// [`crate::feature::root::RootFeature`]
    Root,
    /// [`crate::feature::feature_set::FeatureSetFeatureV0`]
    FeatureSet,
    /// [`crate::feature::device_information::DeviceInformationFeature`]
    DeviceInformation,
    /// [`crate::feature::device_type_and_name::DeviceTypeAndNameFeatureV0`]
    DeviceTypeAndName,
    /// [`crate::feature::device_friendly_name::DeviceFriendlyNameFeatureV0`]
    DeviceFriendlyName,
    /// [`crate::feature::unified_battery::UnifiedBatteryFeature`]
    UnifiedBattery,
    /// [`crate::feature::wireless_device_status::WirelessDeviceStatusFeature`]
    WirelessDeviceStatus,
    /// [`crate::feature::smartshift::SmartShiftFeatureV0`]
    SmartShift,
    /// [`crate::feature::hires_wheel::HiResWheelFeatureV0`]
    HiResWheel,
    /// [`crate::feature::thumbwheel::ThumbwheelFeatureV0`]
    Thumbwheel,
}

/// Represents a known feature implementation starting from a specific feature
/// version.
#[derive(Clone, Copy, PartialEq, Eq, Structural, Hash, Debug)]
pub struct FeatureVersion {
    /// The minimum feature version the implementation supports.
    pub starting_version: u8,
    /// The implementation, which [`crate::device::FeatureInstance::new`]
    /// produces.
    pub producer: FeatureKind,
}

/// Represents a known HID++2.0 device feature.
#[derive(Clone, PartialEq, Eq, Hash, Debug)]
pub struct KnownFeature {
    /// The name of the feature.
    /// This is usually a slightly modified version of the name found in
    /// Logitech's documentation.
    pub name: &'static str,
    /// A list of concrete implementations of the feature, each supporting the
    /// feature starting from a specific version.
    pub versions: Vec<FeatureVersion>,
}

/// The name of the feature with the given ID, if the feature is known.
pub open spec fn spec_name(feature_id: u16) -> Option<&'static str> {
    match feature_id {
        0x0000 => Some("Root"),
        0x0001 => Some("FeatureSet"),
        0x0002 => Some("FeatureInfo"),
        0x0003 => Some("DeviceInformation"),
        0x0004 => Some("UnitId"),
        0x0005 => Some("DeviceTypeAndName"),
        0x0006 => Some("DeviceGroups"),
        0x0007 => Some("DeviceFriendlyName"),
        0x0008 => Some("KeepAlive"),
        0x0020 => Some("ConfigChange"),
        0x0021 => Some("UniqueRandomId"),
        0x0030 => Some("TargetSoftware"),
        0x0080 => Some("WirelessSignalStrength"),
        0x00c0 => Some("DfuControlLegacy"),
        0x00c1 => Some("DfuControlUnsigned"),
        0x00c2 => Some("DfuControlSigned"),
        0x00c3 => Some("DfuControl"),
        0x00d0 => Some("Dfu"),
        0x1000 => Some("BatteryStatus"),
        0x1001 => Some("BatteryVoltage"),
        0x1004 => Some("UnifiedBattery"),
        0x1010 => Some("ChargingControl"),
        0x1300 => Some("LedControl"),
        0x1800 => Some("GenericTest"),
        0x1802 => Some("DeviceReset"),
        0x1805 => Some("OobState"),
        0x1806 => Some("ConfigDeviceProps"),
        0x1814 => Some("ChangeHost"),
        0x1815 => Some("HostsInfo"),
        0x1981 => Some("Backlight1"),
        0x1982 => Some("Backlight2"),
        0x1983 => Some("Backlight3"),
        0x1990 => Some("Illumination"),
        0x1a00 => Some("PresenterControl"),
        0x1a01 => Some("Sensor3D"),
        0x1b00 => Some("ReprogControls"),
        0x1b01 => Some("ReprogControls2"),
        0x1b02 => Some("ReprogControls3"),
        0x1b03 => Some("ReprogControls4"),
        0x1b04 => Some("ReprogControls5"),
        0x1bc0 => Some("ReportHidUsages"),
        0x1c00 => Some("PersistentRemappableAction"),
        0x1d4b => Some("WirelessDeviceStatus"),
        0x1df0 => Some("RemainingPairings"),
        0x1f1f => Some("FirmwareProperties"),
        0x1f20 => Some("AdcMeasurement"),
        0x2001 => Some("SwapLeftRightButton"),
        0x2005 => Some("ButtonSwapCancel"),
        0x2006 => Some("PointerAxesOrientation"),
        0x2100 => Some("VerticalScrolling"),
        0x2110 => Some("SmartShiftWheel"),
        0x2111 => Some("SmartShiftWheelEnhanced"),
        0x2120 => Some("HighResolutionScrolling"),
        0x2121 => Some("HiResWheel"),
        0x2130 => Some("RatchetWheel"),
        0x2150 => Some("Thumbwheel"),
        0x2200 => Some("MousePointer"),
        0x2201 => Some("AdjustableDpi"),
        0x2202 => Some("ExtendedAdjustableDpi"),
        0x2205 => Some("PointerMotionScaling"),
        0x2230 => Some("SensorAngleSnapping"),
        0x2240 => Some("SurfaceTuning"),
        0x2250 => Some("XyStats"),
        0x2251 => Some("WheelStats"),
        0x2400 => Some("HybridTrackingEngine"),
        0x40a0 => Some("FnInversion"),
        0x40a2 => Some("FnInversionWithDefaultState"),
        0x40a3 => Some("FnInversionForMultiHostDevices"),
        0x4100 => Some("Encryption"),
        0x4220 => Some("LockKeyState"),
        0x4301 => Some("SolarKeyboardDashboard"),
        0x4520 => Some("KeyboardLayout"),
        0x4521 => Some("DisableKeys"),
        0x4522 => Some("DisableKeysByUsage"),
        0x4530 => Some("DualPlatform"),
        0x4531 => Some("MultiPlatform"),
        0x4540 => Some("KeyboardInternationalLayouts"),
        0x4600 => Some("Crown"),
        0x6010 => Some("TouchpadFwItems"),
        0x6011 => Some("TouchpadSwItems"),
        0x6012 => Some("TouchpadWin8FwItems"),
        0x6020 => Some("TapEnable"),
        0x6021 => Some("TapEnableExtended"),
        0x6030 => Some("CursorBallistic"),
        0x6040 => Some("TouchpadResolutionDivider"),
        0x6100 => Some("TouchpadRawXy"),
        0x6110 => Some("TouchMouseRawTouchPoints"),
        0x6120 => Some("BtTouchMouseSettings"),
        0x6500 => Some("Gestures1"),
        0x6501 => Some("Gestures2"),
        0x8010 => Some("GamingGKeys"),
        0x8020 => Some("GamingMKeys"),
        0x8030 => Some("MacroRecord"),
        0x8040 => Some("BrightnessControl"),
        0x8060 => Some("AdjustableReportRate"),
        0x8061 => Some("ExtendedAdjustableReportRate"),
        0x8070 => Some("ColorLedEffects"),
        0x8071 => Some("RgbEffects"),
        0x8080 => Some("PerKeyLighting"),
        0x8081 => Some("PerKeyLighting2"),
        0x8090 => Some("ModeStatus"),
        0x8100 => Some("OnboardProfiles"),
        0x8110 => Some("MouseButtonFilter"),
        0x8111 => Some("LatencyMonitoring"),
        0x8120 => Some("GamingAttachments"),
        0x8123 => Some("ForceFeedback"),
        0x8300 => Some("Sidetone"),
        0x8310 => Some("Equalizer"),
        0x8320 => Some("HeadsetOut"),
        _ => None,
    }
}

/// The implementation of the feature with the given ID, if there is one.
pub open spec fn spec_producer(feature_id: u16) -> Option<FeatureKind> {
    match feature_id {
        0x0000 => Some(FeatureKind::Root),
        0x0001 => Some(FeatureKind::FeatureSet),
        0x0003 => Some(FeatureKind::DeviceInformation),
        0x0005 => Some(FeatureKind::DeviceTypeAndName),
        0x0007 => Some(FeatureKind::DeviceFriendlyName),
        0x1004 => Some(FeatureKind::UnifiedBattery),
        0x1d4b => Some(FeatureKind::WirelessDeviceStatus),
        0x2110 => Some(FeatureKind::SmartShift),
        0x2121 => Some(FeatureKind::HiResWheel),
        0x2150 => Some(FeatureKind::Thumbwheel),
        _ => None,
    }
}

/// The implementations of the feature with the given ID. Each of them
/// supports the feature from its version 0 on.
pub open spec fn spec_versions(feature_id: u16) -> Seq<FeatureVersion> {
    match spec_producer(feature_id) {
        Some(producer) => seq![FeatureVersion { starting_version: 0, producer }],
        None => seq![],
    }
}

/// Those of the implementations that support the version `feature_version`
/// of their feature, in the order of the list.
pub open spec fn spec_supporting(versions: Seq<FeatureVersion>, feature_version: u8) -> Seq<
    FeatureVersion,
>
    decreases versions.len(),
{
    if versions.len() == 0 {
        versions
    } else if versions.last().starting_version <= feature_version {
        spec_supporting(versions.drop_last(), feature_version).push(versions.last())
    } else {
        spec_supporting(versions.drop_last(), feature_version)
    }
}

/// Looks up the name of a feature by its ID.
fn name_of(feature_id: u16) -> (r: Option<&'static str>)
    ensures
        r == spec_name(feature_id),
{
    match feature_id {
        0x0000 => Some("Root"),
        0x0001 => Some("FeatureSet"),
        0x0002 => Some("FeatureInfo"),
        0x0003 => Some("DeviceInformation"),
        0x0004 => Some("UnitId"),
        0x0005 => Some("DeviceTypeAndName"),
        0x0006 => Some("DeviceGroups"),
        0x0007 => Some("DeviceFriendlyName"),
        0x0008 => Some("KeepAlive"),
        0x0020 => Some("ConfigChange"),
        0x0021 => Some("UniqueRandomId"),
        0x0030 => Some("TargetSoftware"),
        0x0080 => Some("WirelessSignalStrength"),
        0x00c0 => Some("DfuControlLegacy"),
        0x00c1 => Some("DfuControlUnsigned"),
        0x00c2 => Some("DfuControlSigned"),
        0x00c3 => Some("DfuControl"),
        0x00d0 => Some("Dfu"),
        0x1000 => Some("BatteryStatus"),
        0x1001 => Some("BatteryVoltage"),
        0x1004 => Some("UnifiedBattery"),
        0x1010 => Some("ChargingControl"),
        0x1300 => Some("LedControl"),
        0x1800 => Some("GenericTest"),
        0x1802 => Some("DeviceReset"),
        0x1805 => Some("OobState"),
        0x1806 => Some("ConfigDeviceProps"),
        0x1814 => Some("ChangeHost"),
        0x1815 => Some("HostsInfo"),
        0x1981 => Some("Backlight1"),
        0x1982 => Some("Backlight2"),
        0x1983 => Some("Backlight3"),
        0x1990 => Some("Illumination"),
        0x1a00 => Some("PresenterControl"),
        0x1a01 => Some("Sensor3D"),
        0x1b00 => Some("ReprogControls"),
        0x1b01 => Some("ReprogControls2"),
        0x1b02 => Some("ReprogControls3"),
        0x1b03 => Some("ReprogControls4"),
        0x1b04 => Some("ReprogControls5"),
        0x1bc0 => Some("ReportHidUsages"),
        0x1c00 => Some("PersistentRemappableAction"),
        0x1d4b => Some("WirelessDeviceStatus"),
        0x1df0 => Some("RemainingPairings"),
        0x1f1f => Some("FirmwareProperties"),
        0x1f20 => Some("AdcMeasurement"),
        0x2001 => Some("SwapLeftRightButton"),
        0x2005 => Some("ButtonSwapCancel"),
        0x2006 => Some("PointerAxesOrientation"),
        0x2100 => Some("VerticalScrolling"),
        0x2110 => Some("SmartShiftWheel"),
        0x2111 => Some("SmartShiftWheelEnhanced"),
        0x2120 => Some("HighResolutionScrolling"),
        0x2121 => Some("HiResWheel"),
        0x2130 => Some("RatchetWheel"),
        0x2150 => Some("Thumbwheel"),
        0x2200 => Some("MousePointer"),
        0x2201 => Some("AdjustableDpi"),
        0x2202 => Some("ExtendedAdjustableDpi"),
        0x2205 => Some("PointerMotionScaling"),
        0x2230 => Some("SensorAngleSnapping"),
        0x2240 => Some("SurfaceTuning"),
        0x2250 => Some("XyStats"),
        0x2251 => Some("WheelStats"),
        0x2400 => Some("HybridTrackingEngine"),
        0x40a0 => Some("FnInversion"),
        0x40a2 => Some("FnInversionWithDefaultState"),
        0x40a3 => Some("FnInversionForMultiHostDevices"),
        0x4100 => Some("Encryption"),
        0x4220 => Some("LockKeyState"),
        0x4301 => Some("SolarKeyboardDashboard"),
        0x4520 => Some("KeyboardLayout"),
        0x4521 => Some("DisableKeys"),
        0x4522 => Some("DisableKeysByUsage"),
        0x4530 => Some("DualPlatform"),
        0x4531 => Some("MultiPlatform"),
        0x4540 => Some("KeyboardInternationalLayouts"),
        0x4600 => Some("Crown"),
        0x6010 => Some("TouchpadFwItems"),
        0x6011 => Some("TouchpadSwItems"),
        0x6012 => Some("TouchpadWin8FwItems"),
        0x6020 => Some("TapEnable"),
        0x6021 => Some("TapEnableExtended"),
        0x6030 => Some("CursorBallistic"),
        0x6040 => Some("TouchpadResolutionDivider"),
        0x6100 => Some("TouchpadRawXy"),
        0x6110 => Some("TouchMouseRawTouchPoints"),
        0x6120 => Some("BtTouchMouseSettings"),
        0x6500 => Some("Gestures1"),
        0x6501 => Some("Gestures2"),
        0x8010 => Some("GamingGKeys"),
        0x8020 => Some("GamingMKeys"),
        0x8030 => Some("MacroRecord"),
        0x8040 => Some("BrightnessControl"),
        0x8060 => Some("AdjustableReportRate"),
        0x8061 => Some("ExtendedAdjustableReportRate"),
        0x8070 => Some("ColorLedEffects"),
        0x8071 => Some("RgbEffects"),
        0x8080 => Some("PerKeyLighting"),
        0x8081 => Some("PerKeyLighting2"),
        0x8090 => Some("ModeStatus"),
        0x8100 => Some("OnboardProfiles"),
        0x8110 => Some("MouseButtonFilter"),
        0x8111 => Some("LatencyMonitoring"),
        0x8120 => Some("GamingAttachments"),
        0x8123 => Some("ForceFeedback"),
        0x8300 => Some("Sidetone"),
        0x8310 => Some("Equalizer"),
        0x8320 => Some("HeadsetOut"),
        _ => None,
    }
}

/// Looks up the implementation of a feature by its ID.
fn producer_of(feature_id: u16) -> (r: Option<FeatureKind>)
    ensures
        r == spec_producer(feature_id),
{
    match feature_id {
        0x0000 => Some(FeatureKind::Root),
        0x0001 => Some(FeatureKind::FeatureSet),
        0x0003 => Some(FeatureKind::DeviceInformation),
        0x0005 => Some(FeatureKind::DeviceTypeAndName),
        0x0007 => Some(FeatureKind::DeviceFriendlyName),
        0x1004 => Some(FeatureKind::UnifiedBattery),
        0x1d4b => Some(FeatureKind::WirelessDeviceStatus),
        0x2110 => Some(FeatureKind::SmartShift),
        0x2121 => Some(FeatureKind::HiResWheel),
        0x2150 => Some(FeatureKind::Thumbwheel),
        _ => None,
    }
}

/// Looks up a feature by its ID.
pub fn lookup(feature_id: u16) -> (r: Option<KnownFeature>)
    ensures
        match spec_name(feature_id) {
            Some(name) => r is Some && r->0.name == name && r->0.versions@ == spec_versions(
                feature_id,
            ),
            None => r is None,
        },
{
    match name_of(feature_id) {
        Some(name) => {
            let mut versions: Vec<FeatureVersion> = Vec::new();
            match producer_of(feature_id) {
                Some(producer) => {
                    versions.push(FeatureVersion { starting_version: 0, producer });
                },
                None => {},
            }
            assert(versions@ =~= spec_versions(feature_id));
            Some(KnownFeature { name, versions })
        },
        None => None,
    }
}

/// Looks up all implementations supporting a specific feature ID and version
/// combination: every implementation of the feature whose starting version
/// is not above `feature_version`.
pub fn lookup_version(feature_id: u16, feature_version: u8) -> (r: Option<Vec<FeatureVersion>>)
    ensures
        match spec_name(feature_id) {
            Some(_) => r is Some && r->0@ == spec_supporting(
                spec_versions(feature_id),
                feature_version,
            ),
            None => r is None,
        },
{
    match lookup(feature_id) {
        Some(feat) => {
            let mut supporting: Vec<FeatureVersion> = Vec::new();
            let n = feat.versions.len();
            let mut i: usize = 0;
            assert(feat.versions@.take(0) =~= Seq::<FeatureVersion>::empty());
            while i < n
                invariant
                    i <= n,
                    n == feat.versions@.len(),
                    supporting@ == spec_supporting(feat.versions@.take(i as int), feature_version),
                decreases n - i,
            {
                let ver = feat.versions[i];
                assert(feat.versions@.take(i + 1).drop_last() =~= feat.versions@.take(i as int));
                if ver.starting_version <= feature_version {
                    supporting.push(ver);
                }
                i += 1;
            }
            assert(feat.versions@.take(n as int) =~= feat.versions@);
            Some(supporting)
        },
        None => None,
    }
}

/// Every implementation that a lookup finds supports the version that was
/// asked for, and the lookup leaves out none that does.
pub proof fn lemma_supporting(versions: Seq<FeatureVersion>, feature_version: u8)
    ensures
        forall|v: FeatureVersion| #[trigger]
            spec_supporting(versions, feature_version).contains(v) <==> versions.contains(v)
                && v.starting_version <= feature_version,
        spec_supporting(versions, feature_version).len() <= versions.len(),
    decreases versions.len(),
{
    if versions.len() > 0 {
        let rest = versions.drop_last();
        let last = versions.last();
        lemma_supporting(rest, feature_version);
        assert forall|v: FeatureVersion| #[trigger]
            spec_supporting(versions, feature_version).contains(v) <==> versions.contains(v)
                && v.starting_version <= feature_version by {
            let found = spec_supporting(versions, feature_version);
            let before = spec_supporting(rest, feature_version);
            if found.contains(v) {
                let i = choose|i: int| 0 <= i < found.len() && found[i] == v;
                if i < before.len() {
                    assert(before.contains(v));
                    let j = choose|j: int| 0 <= j < rest.len() && rest[j] == v;
                    assert(versions[j] == v);
                } else {
                    assert(versions[versions.len() - 1] == v);
                }
            }
            if versions.contains(v) && v.starting_version <= feature_version {
                let j = choose|j: int| 0 <= j < versions.len() && versions[j] == v;
                if j < rest.len() {
                    assert(rest[j] == v);
                    assert(before.contains(v));
                    let i = choose|i: int| 0 <= i < before.len() && before[i] == v;
                    assert(found[i] == v);
                } else {
                    assert(found[found.len() - 1] == v);
                }
            }
        }
    }
}

} // verus!
