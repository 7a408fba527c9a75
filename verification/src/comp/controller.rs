//! The standard controller: eight buttons behind a shift register that the
//! CPU strobes and then reads out one bit at a time.

use vstd::prelude::*;

verus! {

/// The eight buttons of a controller.
#[allow(non_camel_case_types)]
#[derive(Clone, Copy, Debug, PartialEq, Eq, Structural)]
pub enum ControllerButtons {
    RIGHT,
    LEFT,
    DOWN,
    UP,
    START,
    SELECT,
    BUTTON_B,
    BUTTON_A,
}

impl ControllerButtons {
    /// The position of the button in the order in which the shift register
    /// reports them: A, B, Select, Start, Up, Down, Left, Right.
    pub open spec fn spec_index(self) -> u8 {
        match self {
            ControllerButtons::BUTTON_A => 0,
            ControllerButtons::BUTTON_B => 1,
            ControllerButtons::SELECT => 2,
            ControllerButtons::START => 3,
            ControllerButtons::UP => 4,
            ControllerButtons::DOWN => 5,
            ControllerButtons::LEFT => 6,
            ControllerButtons::RIGHT => 7,
        }
    }

    /// The bit that stands for the button in the pressed-state byte.
    pub open spec fn spec_mask(self) -> u8 {
        match self {
            ControllerButtons::BUTTON_A => 0b0000_0001,
            ControllerButtons::BUTTON_B => 0b0000_0010,
            ControllerButtons::SELECT => 0b0000_0100,
            ControllerButtons::START => 0b0000_1000,
            ControllerButtons::UP => 0b0001_0000,
            ControllerButtons::DOWN => 0b0010_0000,
            ControllerButtons::LEFT => 0b0100_0000,
            ControllerButtons::RIGHT => 0b1000_0000,
        }
    }

    /// The bit that stands for the button in the pressed-state byte.
    #[verifier::when_used_as_spec(spec_mask)]
    pub fn mask(self) -> (m: u8)
        ensures
            m == self.spec_mask(),
    {
        match self {
            ControllerButtons::BUTTON_A => 0b0000_0001,
            ControllerButtons::BUTTON_B => 0b0000_0010,
            ControllerButtons::SELECT => 0b0000_0100,
            ControllerButtons::START => 0b0000_1000,
            ControllerButtons::UP => 0b0001_0000,
            ControllerButtons::DOWN => 0b0010_0000,
            ControllerButtons::LEFT => 0b0100_0000,
            ControllerButtons::RIGHT => 0b1000_0000,
        }
    }
}

/// What a controller is, as a value: the strobe latch, the position of the
/// shift register and one bit per button.
pub struct ControllerState {
    pub strobe: bool,
    pub index: u8,
    pub pressed: u8,
}

impl ControllerState {
    /// A controller at power-on: nothing pressed, strobe low, ready to report
    /// button A.
    pub open spec fn initial() -> ControllerState {
        ControllerState { strobe: false, index: 0, pressed: 0 }
    }

    /// The state after the CPU writes `data` to the controller register: bit 0 is
    /// latched as the strobe, and a high strobe rewinds the shift register.
    pub open spec fn write(self, data: u8) -> ControllerState {
        let strobe = data & 1 == 1;
        ControllerState { strobe, index: if strobe { 0 } else { self.index }, pressed: self.pressed }
    }

    /// The bit that a read reports: the button at the register's position,
    /// and 1 once all eight have been shifted out.
    pub open spec fn read_value(self) -> u8 {
        if self.index > 7 {
            1
        } else {
            (self.pressed >> self.index) & 1
        }
    }

    /// The state after a read: the register advances unless the strobe holds
    /// it at button A or it is already exhausted.
    pub open spec fn after_read(self) -> ControllerState {
        if self.index > 7 || self.strobe {
            self
        } else {
            ControllerState { index: (self.index + 1) as u8, ..self }
        }
    }

    /// The state after `n` reads in a row.
    pub open spec fn after_reads(self, n: nat) -> ControllerState
        decreases n,
    {
        if n == 0 {
            self
        } else {
            self.after_read().after_reads((n - 1) as nat)
        }
    }

    /// The state after the host reports a button as pressed or released.
    pub open spec fn set_button(self, button: ControllerButtons, pressed: bool) -> ControllerState {
        ControllerState {
            pressed: if pressed {
                self.pressed | button.spec_mask()
            } else {
                self.pressed & !button.spec_mask()
            },
            ..self
        }
    }

    /// Whether `button` is held down.
    pub open spec fn is_pressed(self, button: ControllerButtons) -> bool {
        self.pressed & button.spec_mask() != 0
    }
}

/// A controller as the CPU sees it at `$4016`.
pub struct Controller {
    strobe: bool,
    button_idx: u8,
    button_status: u8,
}

impl View for Controller {
    type V = ControllerState;

    closed spec fn view(&self) -> ControllerState {
        ControllerState {
            strobe: self.strobe,
            index: self.button_idx,
            pressed: self.button_status,
        }
    }
}

impl Controller {
    /// A controller with nothing pressed.
    pub fn new() -> (c: Self)
        ensures
            c@ == ControllerState::initial(),
    {
        Controller { strobe: false, button_idx: 0, button_status: 0 }
    }

    /// The CPU writes the strobe: bit 0 of `data`.
    pub fn write(&mut self, data: u8)
        ensures
            final(self)@ == old(self)@.write(data),
    {
        self.strobe = data & 1 == 1;
        if self.strobe {
            self.button_idx = 0;
        }
    }

    /// The CPU reads the next button: 1 if it is pressed, 0 if not, and 1
    /// once all eight have been read.
    pub fn read(&mut self) -> (resp: u8)
        ensures
            resp == old(self)@.read_value(),
            resp <= 1,
            final(self)@ == old(self)@.after_read(),
    {
        proof {
            lemma_read_is_a_bit(self@);
        }
        if self.button_idx > 7 {
            return 1;
        }
        let resp: u8 = (self.button_status >> self.button_idx) & 1;
        if !self.strobe {
            self.button_idx += 1;
        }
        resp
    }

    /// The bit that the next read will report, without shifting the register.
    pub fn peek(&self) -> (resp: u8)
        ensures
            resp == self@.read_value(),
    {
        if self.button_idx > 7 {
            1
        } else {
            (self.button_status >> self.button_idx) & 1
        }
    }

    /// The host reports a button as pressed or released.
    pub fn set_button_pressed_status(&mut self, button: ControllerButtons, pressed: bool)
        ensures
            final(self)@ == old(self)@.set_button(button, pressed),
    {
        if pressed {
            self.button_status = self.button_status | button.mask();
        } else {
            self.button_status = self.button_status & !button.mask();
        }
    }
}

/// A read reports either 0 or 1.
pub proof fn lemma_read_is_a_bit(s: ControllerState)
    ensures
        s.read_value() == 0 || s.read_value() == 1,
{
    let p = s.pressed;
    let i = s.index;
    assert((p >> i) & 1 == 0 || (p >> i) & 1 == 1) by (bit_vector);
}

/// While the strobe is high the register does not move: after the CPU writes
/// a byte with bit 0 set, any number of reads leaves the controller as it
/// was, and the next read reports button A, bit 0 of the pressed state.
pub proof fn lemma_strobe_holds_button_a(s: ControllerState, data: u8, n: nat)
    requires
        data & 1 == 1,
    ensures
        s.write(data).after_reads(n) == s.write(data),
        s.write(data).after_reads(n).read_value() == s.pressed & 1,
    decreases n,
{
    let w = s.write(data);
    assert(w.strobe && w.index == 0 && w.pressed == s.pressed);
    assert(w.after_read() == w);
    if n > 0 {
        lemma_strobe_holds_button_a(s, data, (n - 1) as nat);
    }
    let p = s.pressed;
    assert((p >> 0u8) & 1 == p & 1) by (bit_vector);
}

/// With the strobe low, eight reads report the buttons in the order A, B,
/// Select, Start, Up, Down, Left, Right, and every read after them reports 1.
pub proof fn lemma_shift_order(s: ControllerState, button: ControllerButtons, n: nat)
    requires
        !s.strobe,
        s.index == 0,
    ensures
        (s.after_reads(button.spec_index() as nat).read_value() == 1) == s.is_pressed(button),
        n >= 8 ==> s.after_reads(n).read_value() == 1,
{
    lemma_reads_advance(s, button.spec_index() as nat);
    let p = s.pressed;
    assert({
        &&& ((p >> 0u8) & 1 == 1) == (p & 0b0000_0001 != 0)
        &&& ((p >> 1u8) & 1 == 1) == (p & 0b0000_0010 != 0)
        &&& ((p >> 2u8) & 1 == 1) == (p & 0b0000_0100 != 0)
        &&& ((p >> 3u8) & 1 == 1) == (p & 0b0000_1000 != 0)
        &&& ((p >> 4u8) & 1 == 1) == (p & 0b0001_0000 != 0)
        &&& ((p >> 5u8) & 1 == 1) == (p & 0b0010_0000 != 0)
        &&& ((p >> 6u8) & 1 == 1) == (p & 0b0100_0000 != 0)
        &&& ((p >> 7u8) & 1 == 1) == (p & 0b1000_0000 != 0)
    }) by (bit_vector);
    if n >= 8 {
        lemma_reads_advance(s, n);
    }
}

/// With the strobe low, `n` reads move the register `n` places, up to the
/// eighth, where it stays.
pub proof fn lemma_reads_advance(s: ControllerState, n: nat)
    requires
        !s.strobe,
        s.index <= 8,
    ensures
        s.after_reads(n) == (ControllerState {
            index: if s.index + n <= 8 { (s.index + n) as u8 } else { 8 },
            ..s
        }),
    decreases n,
{
    if n > 0 {
        lemma_reads_advance(s.after_read(), (n - 1) as nat);
    }
}

} // verus!
