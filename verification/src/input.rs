use vstd::prelude::*;

verus! {

/// Bit assigned to each named button in the raw report's button mask.
pub const BUTTON_DPAD_UP: u16 = 0x0001;

pub const BUTTON_DPAD_DOWN: u16 = 0x0002;

pub const BUTTON_DPAD_LEFT: u16 = 0x0004;

pub const BUTTON_DPAD_RIGHT: u16 = 0x0008;

pub const BUTTON_START: u16 = 0x0010;

pub const BUTTON_BACK: u16 = 0x0020;

pub const BUTTON_LEFT_THUMB: u16 = 0x0040;

pub const BUTTON_RIGHT_THUMB: u16 = 0x0080;

pub const BUTTON_LEFT_SHOULDER: u16 = 0x0100;

pub const BUTTON_RIGHT_SHOULDER: u16 = 0x0200;

pub const BUTTON_A: u16 = 0x1000;

pub const BUTTON_B: u16 = 0x2000;

pub const BUTTON_X: u16 = 0x4000;

pub const BUTTON_Y: u16 = 0x8000;

/// One controller's raw report exactly as the external device subsystem
/// hands it over: a button bitmask, two analog trigger bytes and four
/// signed 16-bit stick axes.
#[derive(Clone, Copy, Debug, PartialEq, Eq, Structural)]
pub struct RawDeviceReport {
    pub buttons: u16,
    pub left_trigger: u8,
    pub right_trigger: u8,
    pub thumb_lx: i16,
    pub thumb_ly: i16,
    pub thumb_rx: i16,
    pub thumb_ry: i16,
}

/// Named boolean button flags of one controller.
#[derive(Clone, Copy, Debug, PartialEq, Eq, Structural)]
pub struct GamepadButtons {
    pub up: bool,
    pub down: bool,
    pub left: bool,
    pub right: bool,
    pub start: bool,
    pub back: bool,
    pub l_thumb: bool,
    pub r_thumb: bool,
    pub l_shoulder: bool,
    pub r_shoulder: bool,
    pub a: bool,
    pub b: bool,
    pub x: bool,
    pub y: bool,
}

/// The two analog triggers, each 0–255, copied verbatim from the report.
#[derive(Clone, Copy, Debug, PartialEq, Eq, Structural)]
pub struct GamepadTriggers {
    pub l_trigger: u8,
    pub r_trigger: u8,
}

/// The two analog sticks, each axis the full signed 16-bit range, copied
/// verbatim from the report.
#[derive(Clone, Copy, Debug, PartialEq, Eq, Structural)]
pub struct GamepadSticks {
    pub l_stick_x: i16,
    pub l_stick_y: i16,
    pub r_stick_x: i16,
    pub r_stick_y: i16,
}

/// The most recent captured state of one controller-like device: the
/// consumable snapshot that polling publishes, one per device slot.
#[derive(Clone, Copy, Debug, PartialEq, Eq, Structural)]
pub struct GamepadState {
    pub buttons: GamepadButtons,
    pub triggers: GamepadTriggers,
    pub sticks: GamepadSticks,
}

impl GamepadState {
    /// The neutral snapshot: no button held, triggers released, sticks
    /// centered. Every slot starts here until its device first reports.
    pub open spec fn neutral() -> GamepadState {
        GamepadState {
            buttons: GamepadButtons {
                up: false,
                down: false,
                left: false,
                right: false,
                start: false,
                back: false,
                l_thumb: false,
                r_thumb: false,
                l_shoulder: false,
                r_shoulder: false,
                a: false,
                b: false,
                x: false,
                y: false,
            },
            triggers: GamepadTriggers { l_trigger: 0, r_trigger: 0 },
            sticks: GamepadSticks { l_stick_x: 0, l_stick_y: 0, r_stick_x: 0, r_stick_y: 0 },
        }
    }
}

impl Default for GamepadState {
    /// The neutral snapshot.
    fn default() -> (state: GamepadState)
        ensures
            state == GamepadState::neutral(),
    {
        GamepadState {
            buttons: GamepadButtons {
                up: false,
                down: false,
                left: false,
                right: false,
                start: false,
                back: false,
                l_thumb: false,
                r_thumb: false,
                l_shoulder: false,
                r_shoulder: false,
                a: false,
                b: false,
                x: false,
                y: false,
            },
            triggers: GamepadTriggers { l_trigger: 0, r_trigger: 0 },
            sticks: GamepadSticks { l_stick_x: 0, l_stick_y: 0, r_stick_x: 0, r_stick_y: 0 },
        }
    }
}

/// What translating a raw report yields: each button flag is the test of
/// its one bit in the mask; triggers and stick axes pass through verbatim,
/// with no scaling and no dead-zone filtering.
pub open spec fn spec_translate_report(report: RawDeviceReport) -> GamepadState {
    GamepadState {
        buttons: GamepadButtons {
            up: report.buttons & BUTTON_DPAD_UP != 0,
            down: report.buttons & BUTTON_DPAD_DOWN != 0,
            left: report.buttons & BUTTON_DPAD_LEFT != 0,
            right: report.buttons & BUTTON_DPAD_RIGHT != 0,
            start: report.buttons & BUTTON_START != 0,
            back: report.buttons & BUTTON_BACK != 0,
            l_thumb: report.buttons & BUTTON_LEFT_THUMB != 0,
            r_thumb: report.buttons & BUTTON_RIGHT_THUMB != 0,
            l_shoulder: report.buttons & BUTTON_LEFT_SHOULDER != 0,
            r_shoulder: report.buttons & BUTTON_RIGHT_SHOULDER != 0,
            a: report.buttons & BUTTON_A != 0,
            b: report.buttons & BUTTON_B != 0,
            x: report.buttons & BUTTON_X != 0,
            y: report.buttons & BUTTON_Y != 0,
        },
        triggers: GamepadTriggers {
            l_trigger: report.left_trigger,
            r_trigger: report.right_trigger,
        },
        sticks: GamepadSticks {
            l_stick_x: report.thumb_lx,
            l_stick_y: report.thumb_ly,
            r_stick_x: report.thumb_rx,
            r_stick_y: report.thumb_ry,
        },
    }
}

/// Translates one raw report into a snapshot, bit test by bit test.
pub fn translate_report(report: &RawDeviceReport) -> (state: GamepadState)
    ensures
        state == spec_translate_report(*report),
{
    GamepadState {
        buttons: GamepadButtons {
            up: report.buttons & BUTTON_DPAD_UP != 0,
            down: report.buttons & BUTTON_DPAD_DOWN != 0,
            left: report.buttons & BUTTON_DPAD_LEFT != 0,
            right: report.buttons & BUTTON_DPAD_RIGHT != 0,
            start: report.buttons & BUTTON_START != 0,
            back: report.buttons & BUTTON_BACK != 0,
            l_thumb: report.buttons & BUTTON_LEFT_THUMB != 0,
            r_thumb: report.buttons & BUTTON_RIGHT_THUMB != 0,
            l_shoulder: report.buttons & BUTTON_LEFT_SHOULDER != 0,
            r_shoulder: report.buttons & BUTTON_RIGHT_SHOULDER != 0,
            a: report.buttons & BUTTON_A != 0,
            b: report.buttons & BUTTON_B != 0,
            x: report.buttons & BUTTON_X != 0,
            y: report.buttons & BUTTON_Y != 0,
        },
        triggers: GamepadTriggers {
            l_trigger: report.left_trigger,
            r_trigger: report.right_trigger,
        },
        sticks: GamepadSticks {
            l_stick_x: report.thumb_lx,
            l_stick_y: report.thumb_ly,
            r_stick_x: report.thumb_rx,
            r_stick_y: report.thumb_ry,
        },
    }
}

/// Owns one snapshot slot per supported device index and publishes each
/// connected device's translated report into its own slot — never into a
/// neighbour's, so devices cannot overwrite one another.
pub struct DevicePoller {
    slots: Vec<GamepadState>,
}

impl View for DevicePoller {
    type V = Seq<GamepadState>;

    closed spec fn view(&self) -> Seq<GamepadState> {
        self.slots@
    }
}

impl DevicePoller {
    /// One independent, neutral slot per supported device index.
    pub fn new(max_devices: usize) -> (poller: DevicePoller)
        ensures
            poller@.len() == max_devices,
            forall|i: int| 0 <= i < max_devices ==> poller@[i] == GamepadState::neutral(),
    {
        let mut slots: Vec<GamepadState> = Vec::new();
        let mut i: usize = 0;
        while i < max_devices
            invariant
                i <= max_devices,
                slots@.len() == i,
                forall|j: int| 0 <= j < i ==> slots@[j] == GamepadState::neutral(),
            decreases max_devices - i,
        {
            slots.push(GamepadState::default());
            i += 1;
        }
        DevicePoller { slots }
    }

    /// Number of device slots.
    pub fn slot_count(&self) -> (n: usize)
        ensures
            n == self@.len(),
    {
        self.slots.len()
    }

    /// The snapshot currently published for one device index. Consumers
    /// only ever read; the poll cycle is the sole writer.
    pub fn snapshot(&self, index: usize) -> (state: GamepadState)
        requires
            index < self@.len(),
        ensures
            state == self@[index as int],
    {
        self.slots[index]
    }

    /// One poll cycle over every device slot. `reports` holds, for each
    /// index, what the device subsystem answered: `Some` with the raw
    /// report for a connected device, `None` for one that is disconnected
    /// or errored this cycle. A connected device's slot is replaced by its
    /// translated report as one whole assignment; a disconnected device's
    /// slot keeps its previous snapshot unchanged, to be retried next cycle.
    pub fn poll(&mut self, reports: &Vec<Option<RawDeviceReport>>)
        requires
            reports@.len() == old(self)@.len(),
        ensures
            final(self)@.len() == old(self)@.len(),
            forall|i: int|
                0 <= i < reports@.len() ==> final(self)@[i] == (match reports@[i] {
                    Some(report) => spec_translate_report(report),
                    None => old(self)@[i],
                }),
    {
        let ghost orig = self@;
        let count = self.slots.len();
        let mut i: usize = 0;
        while i < count
            invariant
                count == orig.len(),
                reports@.len() == orig.len(),
                self@.len() == orig.len(),
                i <= count,
                forall|j: int|
                    0 <= j < i ==> self@[j] == (match reports@[j] {
                        Some(report) => spec_translate_report(report),
                        None => orig[j],
                    }),
                forall|j: int| i <= j < count ==> self@[j] == orig[j],
            decreases count - i,
        {
            match &reports[i] {
                Some(report) => {
                    let state = translate_report(report);
                    self.slots[i] = state;
                },
                None => {},
            }
            i += 1;
        }
    }
}

} // verus!
