//! Power daemon instantiation: battery presence detection and the
//! keyboard backlight request dispatch.

use vstd::prelude::*;

verus! {

/// The kind of power device the daemon reports.
#[derive(Clone, Copy, Debug, PartialEq, Eq, Structural)]
pub enum BatteryKind {
    Unknown,
    LinePower,
    Battery,
    Ups,
    Monitor,
    Mouse,
    Keyboard,
    Pda,
    Phone,
}

/// What the bridge reads of one enumerated power device.
#[derive(Clone, Copy, Debug, PartialEq, Eq, Structural)]
pub struct PowerDevice {
    pub kind: BatteryKind,
    pub power_supply: bool,
}

/// Is any enumerated device an actual supply battery?  Decides whether
/// the stream opens with a no-battery notice.
pub fn has_battery(devices: &Vec<PowerDevice>) -> (r: bool)
    ensures
        r == exists|i: int| 0 <= i < devices@.len() && (#[trigger] devices@[i]).kind is Battery
            && devices@[i].power_supply,
{
    let n = devices.len();
    let mut i: usize = 0;
    while i < n
        invariant
            i <= n == devices@.len(),
            forall|j: int| 0 <= j < i ==> !((#[trigger] devices@[j]).kind is Battery
                && devices@[j].power_supply),
        decreases n - i,
    {
        let d = &devices[i];
        let is_battery = match d.kind {
            BatteryKind::Battery => true,
            _ => false,
        };
        if is_battery && d.power_supply {
            return true;
        }
        i = i + 1;
    }
    false
}

/// A consumer request toward the keyboard backlight.
#[derive(Clone, Copy, Debug, PartialEq, Eq, Structural)]
pub enum KeyboardBacklightRequest {
    Get,
    SetBrightness(i32),
}

/// One stimulus of the keyboard backlight stream: a native brightness
/// change — with its argument, when the notification was well-formed —
/// or a consumer request.
#[derive(Clone, Copy, Debug, PartialEq, Eq, Structural)]
pub enum KbdStimulus {
    BrightnessChanged(Option<i32>),
    Request(KeyboardBacklightRequest),
}

/// What the loop does with one stimulus.
#[derive(Clone, Copy, Debug, PartialEq, Eq, Structural)]
pub enum KbdStep {
    /// Forward the brightness to the consumer.
    EmitBrightness(i32),
    /// Read the brightness natively and forward what comes back.
    QueryBrightness,
    /// Apply the brightness natively; nothing is forwarded.
    SetBrightness(i32),
    /// A malformed native notification is suppressed.
    Nothing,
}

/// Dispatch one stimulus of the keyboard backlight stream.
pub fn kbd_step(stimulus: KbdStimulus) -> (r: KbdStep)
    ensures
        r == (match stimulus {
            KbdStimulus::BrightnessChanged(Option::Some(v)) => KbdStep::EmitBrightness(v),
            KbdStimulus::BrightnessChanged(Option::None) => KbdStep::Nothing,
            KbdStimulus::Request(KeyboardBacklightRequest::Get) => KbdStep::QueryBrightness,
            KbdStimulus::Request(KeyboardBacklightRequest::SetBrightness(v)) => KbdStep::SetBrightness(v),
        }),
{
    match stimulus {
        KbdStimulus::BrightnessChanged(Option::Some(v)) => KbdStep::EmitBrightness(v),
        KbdStimulus::BrightnessChanged(Option::None) => KbdStep::Nothing,
        KbdStimulus::Request(KeyboardBacklightRequest::Get) => KbdStep::QueryBrightness,
        KbdStimulus::Request(KeyboardBacklightRequest::SetBrightness(v)) => KbdStep::SetBrightness(v),
    }
}

} // verus!
