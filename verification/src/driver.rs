use vstd::prelude::*;

use crate::error::PlatformError;
use crate::events::{
    batch_stops, pump_nonblocking, spec_dispatch_action, DispatchAction, RunningFlag,
    WindowMessage,
};
use crate::input::{spec_translate_report, DevicePoller, GamepadState, RawDeviceReport};
use crate::surface::{
    has_gradient, PixelSurface, PresentRequest, SurfaceModel, BITMAP_HEADER_SIZE, MAX_DIMENSION,
};
use crate::window::WindowDimension;

verus! {

/// The loop's lifecycle. `Stopped` is terminal: resources are given back
/// and no restart is defined.
#[derive(Clone, Copy, Debug, PartialEq, Eq, Structural)]
pub enum DriverState {
    NotStarted,
    Running,
    Stopped,
}

/// Mathematical model of the frame driver: lifecycle state, run flag,
/// surface, published input slots, and the animation offsets of the test
/// pattern.
#[verifier::ext_equal]
pub struct DriverModel {
    pub state: DriverState,
    pub running: bool,
    pub surface: SurfaceModel,
    pub slots: Seq<GamepadState>,
    pub x_offset: u32,
    pub y_offset: u32,
}

impl DriverModel {
    /// The driver's invariant: the surface is always well formed, a running
    /// driver holds pixel memory, and a stopped driver has given it back and
    /// can never run again.
    pub open spec fn wf(self) -> bool {
        &&& self.surface.wf()
        &&& (self.state is Stopped ==> !self.running && !self.surface.is_allocated())
        &&& (!(self.state is Stopped) ==> self.surface.is_allocated())
    }
}

/// 32-bit wrapping addition: how the animation offsets advance each frame.
pub open spec fn wrap_add(value: u32, delta: u32) -> u32 {
    ((value + delta) % 0x1_0000_0000) as u32
}

/// How far the vertical offset advances in one frame: two rows, or twelve
/// while the first device's Y face button is held down.
pub open spec fn y_advance(slots: Seq<GamepadState>) -> u32 {
    if slots.len() > 0 && slots[0].buttons.y {
        12
    } else {
        2
    }
}

/// The slots after one poll cycle: a connected device's slot is replaced by
/// its translated report, a disconnected one keeps its previous snapshot.
pub open spec fn polled_slots(
    slots: Seq<GamepadState>,
    reports: Seq<Option<RawDeviceReport>>,
) -> Seq<GamepadState> {
    Seq::new(
        slots.len(),
        |i: int|
            match reports[i] {
                Some(report) => spec_translate_report(report),
                None => slots[i],
            },
    )
}

/// What one full iteration hands back to the platform harness.
pub struct FrameOutput {
    /// How many pending messages this cycle's pump processed.
    pub processed: usize,
    /// The outward effect of each pumped message, in retrieval order. A
    /// `Present` entry asks for an immediate out-of-cadence present.
    pub actions: Vec<DispatchAction>,
    /// This frame's own present: the surface's new content, stretched to
    /// the window's current dimension.
    pub present: PresentRequest,
}

/// The result of one loop step.
pub enum StepOutcome {
    /// The loop observed a cleared running flag at the top of the iteration
    /// (or was already stopped): it exited without presenting again, and
    /// the surface memory is given back.
    Exited,
    /// One full iteration ran: pump, poll, render, present — in that order.
    Frame(FrameOutput),
}

/// The orchestration loop's state: it drains events, polls input, renders
/// the next frame into the surface and produces the present, one `step` per
/// iteration, until the running flag is observed cleared.
pub struct FrameDriver {
    state: DriverState,
    running: RunningFlag,
    surface: PixelSurface,
    poller: DevicePoller,
    x_offset: u32,
    y_offset: u32,
}

impl View for FrameDriver {
    type V = DriverModel;

    closed spec fn view(&self) -> DriverModel {
        DriverModel {
            state: self.state,
            running: self.running@,
            surface: self.surface@,
            slots: self.poller@,
            x_offset: self.x_offset,
            y_offset: self.y_offset,
        }
    }
}

impl FrameDriver {
    /// Initializes the driver, still not started: a zero-filled surface for
    /// the given dimensions and one neutral input slot per supported device
    /// index. Fails with [`PlatformError::AllocationError`] exactly when the
    /// surface memory cannot be addressed.
    pub fn new(width: u32, height: u32, max_devices: usize) -> (result: Result<
        FrameDriver,
        PlatformError,
    >)
        requires
            0 < width <= MAX_DIMENSION,
            0 < height <= MAX_DIMENSION,
        ensures
            result is Err <==> width * height * 4 > isize::MAX,
            match result {
                Ok(driver) => {
                    &&& driver@.wf()
                    &&& driver@.state is NotStarted
                    &&& !driver@.running
                    &&& driver@.surface.width == width
                    &&& driver@.surface.height == height
                    &&& driver@.surface.stride == width * 4
                    &&& driver@.surface.releases == 0
                    &&& driver@.slots.len() == max_devices
                    &&& forall|i: int|
                        0 <= i < max_devices ==> driver@.slots[i] == GamepadState::neutral()
                    &&& driver@.x_offset == 0
                    &&& driver@.y_offset == 0
                },
                Err(e) => e == PlatformError::AllocationError,
            },
    {
        let surface = match PixelSurface::allocate(width, height) {
            Ok(s) => s,
            Err(e) => {
                return Err(e);
            },
        };
        Ok(
            FrameDriver {
                state: DriverState::NotStarted,
                running: RunningFlag::new(false),
                surface,
                poller: DevicePoller::new(max_devices),
                x_offset: 0,
                y_offset: 0,
            },
        )
    }

    /// Enters the loop: the one transition out of `NotStarted`, taken after
    /// window and surface initialization succeeded. Sets the running flag.
    pub fn start(&mut self)
        requires
            old(self)@.wf(),
            old(self)@.state is NotStarted,
        ensures
            final(self)@.wf(),
            final(self)@ =~= (DriverModel {
                state: DriverState::Running,
                running: true,
                ..old(self)@
            }),
    {
        self.state = DriverState::Running;
        self.running = RunningFlag::new(true);
    }

    /// One iteration boundary of the loop.
    ///
    /// If the driver is running and the flag is still set, a full iteration
    /// runs in the contracted order — pump the pending messages, poll the
    /// device reports, render the test pattern into the surface, prepare the
    /// present for the window's current dimension — and then the animation
    /// offsets advance. A close or destroy message pumped during the
    /// iteration clears the flag, but the in-flight iteration completes,
    /// present included; the loop observes the flag only at the top of the
    /// next call.
    ///
    /// Otherwise the loop stops without presenting again: the state becomes
    /// the terminal `Stopped` and the surface memory is given back, exactly
    /// once.
    pub fn step(
        &mut self,
        messages: &Vec<WindowMessage>,
        reports: &Vec<Option<RawDeviceReport>>,
        window: WindowDimension,
    ) -> (outcome: StepOutcome)
        requires
            old(self)@.wf(),
            !(old(self)@.state is NotStarted),
            old(self)@.state is Running && old(self)@.running ==> reports@.len() == old(
                self,
            )@.slots.len(),
        ensures
            final(self)@.wf(),
            if old(self)@.state is Running && old(self)@.running {
                match outcome {
                    StepOutcome::Frame(frame) => {
                        &&& final(self)@.state is Running
                        &&& final(self)@.running == !batch_stops(messages@)
                        &&& final(self)@.slots =~= polled_slots(old(self)@.slots, reports@)
                        &&& final(self)@.surface.width == old(self)@.surface.width
                        &&& final(self)@.surface.height == old(self)@.surface.height
                        &&& final(self)@.surface.stride == old(self)@.surface.stride
                        &&& final(self)@.surface.releases == old(self)@.surface.releases
                        &&& has_gradient(
                            final(self)@.surface,
                            old(self)@.x_offset,
                            old(self)@.y_offset,
                        )
                        &&& final(self)@.x_offset == wrap_add(old(self)@.x_offset, 1)
                        &&& final(self)@.y_offset == wrap_add(
                            old(self)@.y_offset,
                            y_advance(final(self)@.slots),
                        )
                        &&& frame.processed == messages@.len()
                        &&& frame.actions@.len() == messages@.len()
                        &&& forall|i: int|
                            0 <= i < messages@.len() ==> frame.actions@[i] == spec_dispatch_action(
                                messages@[i],
                            )
                        &&& frame.present.descriptor.header_size == BITMAP_HEADER_SIZE
                        &&& frame.present.descriptor.width == old(self)@.surface.width
                        &&& frame.present.descriptor.height == -(old(self)@.surface.height as int)
                        &&& frame.present.descriptor.planes == 1
                        &&& frame.present.descriptor.bit_count == 32
                        &&& frame.present.src_width == old(self)@.surface.width
                        &&& frame.present.src_height == old(self)@.surface.height
                        &&& frame.present.stride == old(self)@.surface.stride
                        &&& frame.present.target_width == window.width
                        &&& frame.present.target_height == window.height
                    },
                    StepOutcome::Exited => false,
                }
            } else {
                match outcome {
                    StepOutcome::Exited => {
                        &&& final(self)@.state is Stopped
                        &&& !final(self)@.running
                        &&& final(self)@.surface =~= old(self)@.surface.released()
                        &&& final(self)@.slots == old(self)@.slots
                        &&& final(self)@.x_offset == old(self)@.x_offset
                        &&& final(self)@.y_offset == old(self)@.y_offset
                    },
                    StepOutcome::Frame(frame) => false,
                }
            },
    {
        let keep_running = match self.state {
            DriverState::Running => self.running.is_set(),
            DriverState::NotStarted => false,
            DriverState::Stopped => false,
        };
        if !keep_running {
            self.state = DriverState::Stopped;
            self.running.clear();
            self.surface.release();
            return StepOutcome::Exited;
        }
        let pump = pump_nonblocking(&mut self.running, messages);
        self.poller.poll(reports);
        self.surface.render_gradient(self.x_offset, self.y_offset);
        let present = self.surface.present_request(window.width, window.height);
        proof {
            Self::lemma_wrap_add_exec(self.x_offset, 1);
        }
        self.x_offset = self.x_offset.wrapping_add(1);
        let advance: u32 = if self.poller.slot_count() > 0 && self.poller.snapshot(0).buttons.y {
            12
        } else {
            2
        };
        proof {
            Self::lemma_wrap_add_exec(self.y_offset, advance);
            assert(self@.slots =~= polled_slots(old(self)@.slots, reports@));
        }
        self.y_offset = self.y_offset.wrapping_add(advance);
        StepOutcome::Frame(
            FrameOutput { processed: pump.processed, actions: pump.actions, present },
        )
    }

    /// The wrapping addition the hardware performs agrees with the modular
    /// one the contracts state.
    proof fn lemma_wrap_add_exec(value: u32, delta: u32)
        ensures
            vstd::wrapping::u32_specs::wrapping_add(value, delta) == wrap_add(value, delta),
    {
        if value + delta > u32::MAX {
            vstd::arithmetic::div_mod::lemma_mod_multiples_vanish(
                -1,
                value + delta,
                0x1_0000_0000,
            );
            assert(0x1_0000_0000int * (-1) + (value + delta) == value + delta - 0x1_0000_0000);
            vstd::arithmetic::div_mod::lemma_small_mod(
                (value + delta - 0x1_0000_0000) as nat,
                0x1_0000_0000,
            );
        } else {
            vstd::arithmetic::div_mod::lemma_small_mod((value + delta) as nat, 0x1_0000_0000);
        }
    }

    /// Current lifecycle state.
    pub fn state(&self) -> (state: DriverState)
        ensures
            state == self@.state,
    {
        self.state
    }

    /// Whether the running flag is currently set.
    pub fn is_running(&self) -> (running: bool)
        ensures
            running == self@.running,
    {
        self.running.is_set()
    }

    /// Read-only view of the surface, for consumers of the frame content.
    pub fn surface(&self) -> (surface: &PixelSurface)
        ensures
            surface@ == self@.surface,
    {
        &self.surface
    }

    /// Read-only view of the device poller and its published snapshots.
    pub fn poller(&self) -> (poller: &DevicePoller)
        ensures
            poller@ == self@.slots,
    {
        &self.poller
    }
}

} // verus!
