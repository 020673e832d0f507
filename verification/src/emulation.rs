//! The emulation manager: derives the device-metrics and touch overrides
//! from a viewport configuration.

use vstd::prelude::*;

use crate::cdp::emulation::{
    ScreenOrientation, ScreenOrientationType, SetDeviceMetricsOverrideParams,
    SetTouchEmulationEnabledParams, spec_device_metrics_params,
};
use crate::cmd::CommandChain;

verus! {

/// A viewport configuration for one target.  The device scale factor is
/// carried in hundredths (150 stands for a factor of 1.5), since the
/// runtime stores no floating-point values; absent means the default of
/// one.
#[derive(Debug, Clone, Copy, PartialEq, Eq, Structural)]
pub struct Viewport {
    /// Width in DIP.
    pub width: u32,
    /// Height in DIP.
    pub height: u32,
    /// Device scale factor in hundredths, absent for the default.
    pub device_scale_factor_hundredths: Option<u32>,
    /// Whether to emulate a mobile device.
    pub emulating_mobile: bool,
    /// Whether the screen is landscape-oriented.
    pub is_landscape: bool,
    /// Whether the device has touch.
    pub has_touch: bool,
}

/// The device-metrics override derived from a viewport.
pub open spec fn spec_metrics_of(v: Viewport) -> SetDeviceMetricsOverrideParams {
    SetDeviceMetricsOverrideParams {
        width: v.width,
        height: v.height,
        device_scale_factor_hundredths: (match v.device_scale_factor_hundredths {
            Some(s) => s,
            None => 100,
        }),
        mobile: v.emulating_mobile,
        screen_orientation: (if v.is_landscape {
            ScreenOrientation { orientation: ScreenOrientationType::LandscapePrimary, angle: 90 }
        } else {
            ScreenOrientation { orientation: ScreenOrientationType::PortraitPrimary, angle: 0 }
        }),
    }
}

/// Produces the emulation setup for one target's viewport configuration.
#[derive(Debug)]
#[verifier::ext_equal]
pub struct EmulationManager {
    /// Whether a mobile device is currently emulated.
    pub emulating_mobile: bool,
    /// Whether touch is currently emulated.
    pub has_touch: bool,
    /// Whether the last configuration change needs a page reload to apply.
    pub needs_reload: bool,
}

impl EmulationManager {
    /// A manager with nothing emulated.
    pub fn new() -> (r: EmulationManager)
        ensures
            !r.emulating_mobile,
            !r.has_touch,
            !r.needs_reload,
    {
        EmulationManager { emulating_mobile: false, has_touch: false, needs_reload: false }
    }

    /// The commands that apply a viewport configuration: the device-metrics
    /// override (orientation from the landscape flag, scale factor
    /// defaulting to one) followed by the touch override.  Without a
    /// viewport there is nothing to emulate and no chain.
    pub fn init_commands(&mut self, viewport: &Option<Viewport>) -> (r: Option<CommandChain>)
        ensures
            match *viewport {
                Some(v) => {
                    &&& (r matches Some(chain) && {
                        &&& chain.wf()
                        &&& chain.waiting is None
                        &&& chain.timeout == crate::cmd::REQUEST_TIMEOUT
                        &&& chain.pending().len() == 2
                        &&& chain.pending()[0].0@ == "Emulation.setDeviceMetricsOverride"@
                        &&& chain.pending()[0].1@ == spec_device_metrics_params(spec_metrics_of(v))
                        &&& chain.pending()[1].0@ == "Emulation.setTouchEmulationEnabled"@
                        &&& chain.pending()[1].1@ == "{\"enabled\":true}"@
                    })
                    &&& final(self).needs_reload == (old(self).emulating_mobile
                        != v.emulating_mobile || old(self).has_touch != v.has_touch)
                    &&& final(self).emulating_mobile == old(self).emulating_mobile
                    &&& final(self).has_touch == old(self).has_touch
                },
                None => r is None && *final(self) == *old(self),
            },
    {
        match viewport {
            Some(v) => {
                let orientation = if v.is_landscape {
                    ScreenOrientation::new(ScreenOrientationType::LandscapePrimary, 90)
                } else {
                    ScreenOrientation::new(ScreenOrientationType::PortraitPrimary, 0)
                };
                let set_device = SetDeviceMetricsOverrideParams {
                    width: v.width,
                    height: v.height,
                    device_scale_factor_hundredths: match v.device_scale_factor_hundredths {
                        Some(s) => s,
                        None => 100,
                    },
                    mobile: v.emulating_mobile,
                    screen_orientation: orientation,
                };
                let set_touch = SetTouchEmulationEnabledParams::new(true);
                let mut cmds: Vec<(String, String)> = Vec::new();
                cmds.push(
                    (SetDeviceMetricsOverrideParams::identifier(), set_device.to_json()),
                );
                cmds.push((SetTouchEmulationEnabledParams::identifier(), set_touch.to_json()));
                let chain = CommandChain::new(cmds);
                self.needs_reload = self.emulating_mobile != v.emulating_mobile || self.has_touch
                    != v.has_touch;
                Some(chain)
            },
            None => None,
        }
    }
}

} // verus!
