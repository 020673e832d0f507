//! Types of the Emulation protocol domain: the device-metrics and touch
//! overrides derived from a viewport configuration.

use vstd::prelude::*;
use vstd::string::StringExecFns;

use crate::json::dec_digits;
use crate::json::u64_to_dec;

verus! {

/// Screen orientation kinds.
#[derive(Debug, Clone, Copy, PartialEq, Eq, Structural)]
pub enum ScreenOrientationType {
    /// Portrait, the primary one.
    PortraitPrimary,
    /// Portrait, the secondary one.
    PortraitSecondary,
    /// Landscape, the primary one.
    LandscapePrimary,
    /// Landscape, the secondary one.
    LandscapeSecondary,
}

impl ScreenOrientationType {
    /// The wire name of the orientation kind.
    pub fn as_str(&self) -> (r: &'static str)
        ensures
            *self is PortraitPrimary ==> r@ == "portraitPrimary"@,
            *self is PortraitSecondary ==> r@ == "portraitSecondary"@,
            *self is LandscapePrimary ==> r@ == "landscapePrimary"@,
            *self is LandscapeSecondary ==> r@ == "landscapeSecondary"@,
    {
        match self {
            ScreenOrientationType::PortraitPrimary => "portraitPrimary",
            ScreenOrientationType::PortraitSecondary => "portraitSecondary",
            ScreenOrientationType::LandscapePrimary => "landscapePrimary",
            ScreenOrientationType::LandscapeSecondary => "landscapeSecondary",
        }
    }
}

/// A screen orientation: kind and angle in degrees.
#[derive(Debug, Clone, Copy, PartialEq, Eq, Structural)]
pub struct ScreenOrientation {
    /// The orientation kind.
    pub orientation: ScreenOrientationType,
    /// The orientation angle in degrees.
    pub angle: u32,
}

impl ScreenOrientation {
    /// An orientation value.
    pub fn new(orientation: ScreenOrientationType, angle: u32) -> (r: ScreenOrientation)
        ensures
            r.orientation == orientation,
            r.angle == angle,
    {
        ScreenOrientation { orientation, angle }
    }
}

/// The `Emulation.setDeviceMetricsOverride` command.  The device scale
/// factor is carried in hundredths (150 stands for a factor of 1.5), since
/// the runtime stores no floating-point values.
#[derive(Debug)]
pub struct SetDeviceMetricsOverrideParams {
    /// Overridden width in DIP.
    pub width: u32,
    /// Overridden height in DIP.
    pub height: u32,
    /// Device scale factor, in hundredths.
    pub device_scale_factor_hundredths: u32,
    /// Whether to emulate a mobile device.
    pub mobile: bool,
    /// The screen orientation to emulate.
    pub screen_orientation: ScreenOrientation,
}

/// A non-negative number with two decimal places, from its value in
/// hundredths: the integer part, a dot, and two fraction digits.
pub open spec fn spec_hundredths(h: nat) -> Seq<char> {
    dec_digits(h / 100) + "."@ + dec_digits((h % 100) / 10) + dec_digits(h % 10)
}

/// Writes a value carried in hundredths as a decimal number with two
/// fraction digits.
pub fn hundredths_to_dec(h: u32) -> (r: String)
    ensures
        r@ == spec_hundredths(h as nat),
{
    proof {
        reveal_strlit(".");
    }
    let mut out = u64_to_dec((h / 100) as u64);
    out.append(".");
    let tenths = u64_to_dec(((h % 100) / 10) as u64);
    out.append(tenths.as_str());
    let ones = u64_to_dec((h % 10) as u64);
    out.append(ones.as_str());
    proof {
        assert(out@ =~= spec_hundredths(h as nat));
    }
    out
}

/// The parameter text `Emulation.setDeviceMetricsOverride` is sent with.
pub open spec fn spec_device_metrics_params(p: SetDeviceMetricsOverrideParams) -> Seq<char> {
    "{\"width\":"@ + dec_digits(p.width as nat) + ",\"height\":"@ + dec_digits(p.height as nat)
        + ",\"deviceScaleFactor\":"@ + spec_hundredths(p.device_scale_factor_hundredths as nat)
        + ",\"mobile\":"@ + (if p.mobile {
        "true"@
    } else {
        "false"@
    }) + ",\"screenOrientation\":{\"type\":\""@ + (match p.screen_orientation.orientation {
        ScreenOrientationType::PortraitPrimary => "portraitPrimary"@,
        ScreenOrientationType::PortraitSecondary => "portraitSecondary"@,
        ScreenOrientationType::LandscapePrimary => "landscapePrimary"@,
        ScreenOrientationType::LandscapeSecondary => "landscapeSecondary"@,
    }) + "\",\"angle\":"@ + dec_digits(p.screen_orientation.angle as nat) + "}}"@
}

impl SetDeviceMetricsOverrideParams {
    /// The method identifier of this command.
    pub fn identifier() -> (r: String)
        ensures
            r@ == "Emulation.setDeviceMetricsOverride"@,
    {
        "Emulation.setDeviceMetricsOverride".to_owned()
    }

    /// Writes the parameters as JSON text.
    pub fn to_json(&self) -> (r: String)
        ensures
            r@ == spec_device_metrics_params(*self),
    {
        let mut out = String::new();
        out.append("{\"width\":");
        let w = u64_to_dec(self.width as u64);
        out.append(w.as_str());
        out.append(",\"height\":");
        let h = u64_to_dec(self.height as u64);
        out.append(h.as_str());
        out.append(",\"deviceScaleFactor\":");
        let s = hundredths_to_dec(self.device_scale_factor_hundredths);
        out.append(s.as_str());
        out.append(",\"mobile\":");
        if self.mobile {
            out.append("true");
        } else {
            out.append("false");
        }
        out.append(",\"screenOrientation\":{\"type\":\"");
        out.append(self.screen_orientation.orientation.as_str());
        out.append("\",\"angle\":");
        let a = u64_to_dec(self.screen_orientation.angle as u64);
        out.append(a.as_str());
        out.append("}}");
        proof {
            assert(out@ =~= spec_device_metrics_params(*self));
        }
        out
    }
}

/// The `Emulation.setTouchEmulationEnabled` command.
#[derive(Debug)]
pub struct SetTouchEmulationEnabledParams {
    /// Whether touch emulation is enabled.
    pub enabled: bool,
}

impl SetTouchEmulationEnabledParams {
    /// A touch-emulation toggle.
    pub fn new(enabled: bool) -> (r: SetTouchEmulationEnabledParams)
        ensures
            r.enabled == enabled,
    {
        SetTouchEmulationEnabledParams { enabled }
    }

    /// The method identifier of this command.
    pub fn identifier() -> (r: String)
        ensures
            r@ == "Emulation.setTouchEmulationEnabled"@,
    {
        "Emulation.setTouchEmulationEnabled".to_owned()
    }

    /// Writes the parameters as JSON text.
    pub fn to_json(&self) -> (r: String)
        ensures
            self.enabled ==> r@ == "{\"enabled\":true}"@,
            !self.enabled ==> r@ == "{\"enabled\":false}"@,
    {
        if self.enabled {
            "{\"enabled\":true}".to_owned()
        } else {
            "{\"enabled\":false}".to_owned()
        }
    }
}

} // verus!
