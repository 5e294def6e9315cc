//! What the e-ink screen shows: the frame on screen and how messages change
//! it, where the calibration frame puts its border and labels, and how a
//! display buffer maps to pixels.
use vstd::prelude::*;

verus! {

/// Width of the display, in pixels.
pub const WIDTH: u32 = 800;

/// Height of the display, in pixels.
pub const HEIGHT: u32 = 480;

/// What the screen is told about.
#[derive(Clone, Debug)]
pub enum ScreenMessage {
    UpdateLifxBulb { source: u32, power: bool },
    UpdateLifxGroup { group: String, brightness: u16 },
}

/// What is on screen. It is also a state machine: `update` gives the next
/// frame for a message.
#[derive(Clone, Copy, Debug, PartialEq, Eq, Structural)]
pub enum Frame {
    Calibration,
    Empty,
}

impl Frame {
    /// The frame after `message`: the calibration frame stays on screen
    /// whatever the message, and so does any other frame.
    pub fn update(self, message: ScreenMessage) -> (r: Frame)
        ensures
            r == self,
    {
        match (self, message) {
            (Frame::Calibration, _) => Frame::Calibration,
            (frame, _) => frame,
        }
    }
}

/// The frame that a key of the frame designer selects: `c` the
/// calibration frame, `e` the empty one; any other key selects none.
pub fn frame_for_key(key: char) -> (r: Option<Frame>)
    ensures
        key == 'c' ==> r == Some(Frame::Calibration),
        key == 'e' ==> r == Some(Frame::Empty),
        key != 'c' && key != 'e' ==> r is None,
{
    if key == 'c' {
        Some(Frame::Calibration)
    } else if key == 'e' {
        Some(Frame::Empty)
    } else {
        None
    }
}

/// A rectangle: its top-left corner and its size.
#[derive(Clone, Copy, Debug, PartialEq, Eq, Structural)]
pub struct Bounds {
    pub x: i32,
    pub y: i32,
    pub width: u32,
    pub height: u32,
}

/// A text and where its top-left corner goes.
#[derive(Clone, Copy, Debug)]
pub struct Label {
    pub text: &'static str,
    pub x: i32,
    pub y: i32,
}

/// The width of a character of the calibration font, in pixels.
pub const CHAR_WIDTH: u32 = 6;

/// The height of a line of the calibration font, without its spacing.
pub const CHAR_HEIGHT: u32 = 8;

/// The border of the calibration frame: one pixel in from each edge.
pub fn calibration_border() -> (r: Bounds)
    ensures
        r == (Bounds { x: 1, y: 1, width: (WIDTH - 2) as u32, height: (HEIGHT - 2) as u32 }),
{
    Bounds { x: 1, y: 1, width: WIDTH - 2, height: HEIGHT - 2 }
}

/// The labels of the four corners of the calibration frame, each one pixel
/// in from its corner.
pub fn calibration_labels() -> (r: Vec<Label>)
    ensures
        r@.len() == 4,
        r@[0] == (Label { text: "top-left", x: 1, y: 1 }),
        r@[1] == (Label { text: "top-right", x: (WIDTH - CHAR_WIDTH * 9 - 1) as i32, y: 1 }),
        r@[2] == (Label { text: "bottom-left", x: 1, y: (HEIGHT - CHAR_HEIGHT - 1) as i32 }),
        r@[3] == (Label {
            text: "bottom-right",
            x: (WIDTH - CHAR_WIDTH * 12 - 1) as i32,
            y: (HEIGHT - CHAR_HEIGHT - 1) as i32,
        }),
{
    let right_of_top: i32 = (WIDTH - CHAR_WIDTH * 9 - 1) as i32;
    let right_of_bottom: i32 = (WIDTH - CHAR_WIDTH * 12 - 1) as i32;
    let bottom: i32 = (HEIGHT - CHAR_HEIGHT - 1) as i32;
    let mut r = Vec::new();
    r.push(Label { text: "top-left", x: 1, y: 1 });
    r.push(Label { text: "top-right", x: right_of_top, y: 1 });
    r.push(Label { text: "bottom-left", x: 1, y: bottom });
    r.push(Label { text: "bottom-right", x: right_of_bottom, y: bottom });
    r
}

/// Bit `i` of `byte`, the most significant bit first.
pub open spec fn msb_bit(byte: u8, i: int) -> bool {
    (byte >> ((7 - i) as u8)) & 1 == 1
}

/// A pixel of the screen and whether it is on.
#[derive(Clone, Copy, Debug, PartialEq, Eq, Structural)]
pub struct Pixel {
    pub x: i32,
    pub y: i32,
    pub on: bool,
}

/// The pixel that bit `idx` of `buffer` stands for: the bits run row by
/// row, the most significant bit of each byte first.
pub open spec fn pixel_of(buffer: Seq<u8>, idx: int) -> Pixel {
    Pixel {
        x: (idx % (WIDTH as int)) as i32,
        y: (idx / (WIDTH as int)) as i32,
        on: msb_bit(buffer[idx / 8], idx % 8),
    }
}

/// The pixels of a display buffer, one for each of its bits, in order. A
/// buffer of the screen holds `WIDTH * HEIGHT / 8` bytes; one of another
/// length is read all the same, its bits running on past the last row or
/// stopping short of it.
pub fn buffer_to_pixels(buffer: &[u8]) -> (r: Vec<Pixel>)
    requires
        buffer@.len() * 8 <= u32::MAX,
    ensures
        r@.len() == buffer@.len() * 8,
        forall|i: int| 0 <= i < r@.len() ==> #[trigger] r@[i] == pixel_of(buffer@, i),
{
    let mut r: Vec<Pixel> = Vec::new();
    let mut byte_index: usize = 0;
    while byte_index < buffer.len()
        invariant
            buffer@.len() * 8 <= u32::MAX,
            byte_index <= buffer@.len(),
            r@.len() == byte_index * 8,
            forall|i: int| 0 <= i < r@.len() ==> #[trigger] r@[i] == pixel_of(buffer@, i),
        decreases buffer@.len() - byte_index,
    {
        let byte = buffer[byte_index];
        let mut bit: u32 = 0;
        while bit < 8
            invariant
                buffer@.len() * 8 <= u32::MAX,
                byte_index < buffer@.len(),
                byte == buffer@[byte_index as int],
                bit <= 8,
                r@.len() == byte_index * 8 + bit,
                forall|i: int| 0 <= i < r@.len() ==> #[trigger] r@[i] == pixel_of(buffer@, i),
            decreases 8 - bit,
        {
            let idx: u32 = (byte_index as u32) * 8 + bit;
            let on = (byte >> ((7 - bit) as u8)) & 1 == 1;
            proof {
                assert(idx / 8 == byte_index && idx % 8 == bit) by (nonlinear_arith)
                    requires
                        idx == byte_index * 8 + bit,
                        bit < 8,
                ;
            }
            r.push(Pixel { x: (idx % WIDTH) as i32, y: (idx / WIDTH) as i32, on });
            bit = bit + 1;
        }
        byte_index = byte_index + 1;
    }
    r
}

/// What the window of the screen simulator is told.
#[derive(Clone, Debug)]
pub enum UiMessage {
    Update(Vec<u8>),
    Clear,
}

/// What waiting for the next message came to.
#[derive(Clone, Debug)]
pub enum UiInput {
    /// No sender is left.
    Disconnected,
    /// Nothing came in time; the window's events are due.
    Timeout,
    Message(UiMessage),
}

/// What the window does next.
#[derive(Clone, Debug)]
pub enum UiAction {
    /// The loop ends.
    Stop,
    /// Nothing changes on screen.
    Wait,
    /// The window is cleared, then shows the pixels of this buffer.
    Show(Vec<u8>),
    /// The window is cleared.
    Clear,
}

/// What the window does with what waiting brought.
pub fn ui_step(input: UiInput) -> (r: UiAction)
    ensures
        input is Disconnected ==> r is Stop,
        input is Timeout ==> r is Wait,
        input matches UiInput::Message(UiMessage::Clear) ==> r is Clear,
        input matches UiInput::Message(UiMessage::Update(b)) ==> r matches UiAction::Show(s) && s@
            == b@,
{
    match input {
        UiInput::Disconnected => UiAction::Stop,
        UiInput::Timeout => UiAction::Wait,
        UiInput::Message(UiMessage::Update(buffer)) => UiAction::Show(buffer),
        UiInput::Message(UiMessage::Clear) => UiAction::Clear,
    }
}

} // verus!
