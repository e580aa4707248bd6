//! The text display used for diagnostics: a fixed grid of cells, two bytes
//! each (character, then attribute). On hardware this is the memory-mapped
//! text buffer; here the grid is explicit data. Lines are written top to
//! bottom; once the grid is full, everything scrolls up one row and writing
//! continues on the last row. Lines longer than the width are cut off.

use vstd::prelude::*;

verus! {

pub const SCREEN_WIDTH: usize = 80;  // cells per row
pub const SCREEN_HEIGHT: usize = 25;  // rows

/// Bytes of the text buffer: two bytes per cell.
pub const SCREEN_BYTES: usize = SCREEN_WIDTH * SCREEN_HEIGHT * 2;

/// Attribute cycle for printed characters: colours on a white background.
pub open spec fn palette() -> Seq<u8> {
    seq![0x74u8, 0x76, 0x7E, 0x72, 0x73, 0x71, 0x75]
}

/// A blank cell pair: a space with the grey-on-black attribute.
pub open spec fn blank_byte(i: int) -> u8 {
    if i % 2 == 0 {
        32u8
    } else {
        0x07u8
    }
}

/// An all-blank screen.
pub open spec fn blank_screen() -> Seq<u8> {
    Seq::new(SCREEN_BYTES as nat, |i: int| blank_byte(i))
}

/// The screen scrolled up one row: every row but the last takes the bytes of
/// the row below it, and the last row becomes blank.
pub open spec fn scrolled(s: Seq<u8>) -> Seq<u8> {
    Seq::new(
        SCREEN_BYTES as nat,
        |i: int|
            if i < (SCREEN_HEIGHT - 1) * SCREEN_WIDTH * 2 {
                s[i + SCREEN_WIDTH * 2]
            } else {
                blank_byte(i)
            },
    )
}

/// The screen with `msg` written on `row`: cell `c` of that row shows byte
/// `msg[c]` with the palette attribute for `c`; cells past the end of the
/// message, and every other row, keep their bytes.
pub open spec fn printed(s: Seq<u8>, row: int, msg: Seq<u8>) -> Seq<u8> {
    Seq::new(
        SCREEN_BYTES as nat,
        |i: int|
            {
                let base = row * (SCREEN_WIDTH * 2);
                let col = (i - base) / 2;
                if base <= i < base + SCREEN_WIDTH * 2 && col < msg.len() {
                    if i % 2 == 0 {
                        msg[col]
                    } else {
                        palette()[col % 7]
                    }
                } else {
                    s[i]
                }
            },
    )
}

/// The writer's abstract state: the screen bytes and the row the next line
/// goes to.
pub ghost struct VgaView {
    pub screen: Seq<u8>,
    pub line: nat,
}

/// What one printed line does to the display: scroll first if the grid is
/// full, then write on the current row and advance.
pub open spec fn spec_print(v: VgaView, msg: Seq<u8>) -> VgaView {
    let s = if v.line >= SCREEN_HEIGHT {
        scrolled(v.screen)
    } else {
        v.screen
    };
    let row = if v.line >= SCREEN_HEIGHT {
        (SCREEN_HEIGHT - 1) as nat
    } else {
        v.line
    };
    VgaView { screen: printed(s, row as int, msg), line: row + 1 }
}

/// The diagnostic text display.
pub struct VgaWriter {
    pub screen: Vec<u8>,
    pub line: usize,
}

impl View for VgaWriter {
    type V = VgaView;

    open spec fn view(&self) -> VgaView {
        VgaView { screen: self.screen@, line: self.line as nat }
    }
}

impl VgaWriter {
    /// The screen buffer has its fixed size.
    pub open spec fn wf(&self) -> bool {
        self.screen@.len() == SCREEN_BYTES
    }

    /// A writer over a blank screen, starting at the top row.
    pub fn new() -> (w: VgaWriter)
        ensures
            w.wf(),
            w@.line == 0,
            w@.screen == blank_screen(),
    {
        let mut screen: Vec<u8> = Vec::new();
        let mut k: usize = 0;
        while k < SCREEN_BYTES
            invariant
                k <= SCREEN_BYTES,
                k % 2 == 0,
                screen@.len() == k,
                forall|i: int| 0 <= i < k ==> screen@[i] == blank_byte(i),
            decreases SCREEN_BYTES - k,
        {
            screen.push(32);
            screen.push(0x07);
            k = k + 2;
        }
        proof {
            assert(screen@ =~= blank_screen());
        }
        VgaWriter { screen, line: 0 }
    }

    /// Scrolls the display up one row and leaves the cursor on the last row.
    pub fn scroll_screen(&mut self)
        requires
            old(self).wf(),
        ensures
            final(self).wf(),
            final(self)@.screen == scrolled(old(self)@.screen),
            final(self)@.line == SCREEN_HEIGHT - 1,
    {
        let ghost orig = self.screen@;
        let mut row: usize = 0;
        while row < SCREEN_HEIGHT - 1
            invariant
                row <= SCREEN_HEIGHT - 1,
                self.screen@.len() == SCREEN_BYTES,
                forall|i: int| 0 <= i < row * 160 ==> self.screen@[i] == scrolled(orig)[i],
                forall|i: int| row * 160 <= i < SCREEN_BYTES ==> self.screen@[i] == orig[i],
            decreases SCREEN_HEIGHT - 1 - row,
        {
            let mut col: usize = 0;
            while col < SCREEN_WIDTH
                invariant
                    col <= SCREEN_WIDTH,
                    row < SCREEN_HEIGHT - 1,
                    self.screen@.len() == SCREEN_BYTES,
                    forall|i: int|
                        0 <= i < row * 160 + col * 2 ==> self.screen@[i] == scrolled(orig)[i],
                    forall|i: int|
                        row * 160 + col * 2 <= i < SCREEN_BYTES ==> self.screen@[i] == orig[i],
                decreases SCREEN_WIDTH - col,
            {
                let dst = row * 160 + col * 2;
                let lo = self.screen[dst + 160];
                let hi = self.screen[dst + 161];
                self.screen[dst] = lo;
                self.screen[dst + 1] = hi;
                col = col + 1;
            }
            row = row + 1;
        }
        let mut col: usize = 0;
        while col < SCREEN_WIDTH
            invariant
                col <= SCREEN_WIDTH,
                self.screen@.len() == SCREEN_BYTES,
                forall|i: int|
                    0 <= i < (SCREEN_HEIGHT - 1) * 160 + col * 2 ==> self.screen@[i] == scrolled(
                        orig,
                    )[i],
                forall|i: int|
                    (SCREEN_HEIGHT - 1) * 160 + col * 2 <= i < SCREEN_BYTES ==> self.screen@[i]
                        == orig[i],
            decreases SCREEN_WIDTH - col,
        {
            let dst = (SCREEN_HEIGHT - 1) * 160 + col * 2;
            self.screen[dst] = 32;
            self.screen[dst + 1] = 0x07;
            col = col + 1;
        }
        proof {
            assert(self.screen@ =~= scrolled(orig));
        }
        self.line = SCREEN_HEIGHT - 1;
    }

    /// Writes one line of text and advances the cursor, scrolling first when
    /// the display is full.
    pub fn print(&mut self, msg: &[u8])
        requires
            old(self).wf(),
        ensures
            final(self).wf(),
            final(self)@ == spec_print(old(self)@, msg@),
    {
        if self.line >= SCREEN_HEIGHT {
            self.scroll_screen();
        }
        let row = self.line;
        let ghost s0 = self.screen@;
        let colors: [u8; 7] = [0x74, 0x76, 0x7E, 0x72, 0x73, 0x71, 0x75];
        proof {
            assert(colors@ =~= palette());
        }
        let limit = if msg.len() < SCREEN_WIDTH {
            msg.len()
        } else {
            SCREEN_WIDTH
        };
        let mut c: usize = 0;
        while c < limit
            invariant
                c <= limit,
                row <= SCREEN_HEIGHT - 1,
                limit <= msg@.len(),
                limit <= SCREEN_WIDTH,
                limit == if msg@.len() < SCREEN_WIDTH {
                    msg@.len() as usize
                } else {
                    SCREEN_WIDTH
                },
                colors@ == palette(),
                self.screen@.len() == SCREEN_BYTES,
                forall|i: int|
                    row * 160 <= i < row * 160 + c * 2 ==> self.screen@[i] == printed(
                        s0,
                        row as int,
                        msg@,
                    )[i],
                forall|i: int|
                    0 <= i < SCREEN_BYTES && !(row * 160 <= i < row * 160 + c * 2)
                        ==> self.screen@[i] == s0[i],
            decreases limit - c,
        {
            self.screen[row * 160 + c * 2] = msg[c];
            self.screen[row * 160 + c * 2 + 1] = colors[c % 7];
            c = c + 1;
        }
        proof {
            assert(self.screen@ =~= printed(s0, row as int, msg@));
        }
        self.line = row + 1;
    }

    /// The row the next line will be written to.
    pub fn line(&self) -> (l: usize)
        ensures
            l == self@.line,
    {
        self.line
    }

    /// Moves the cursor to the given row.
    pub fn set_line(&mut self, line: usize)
        ensures
            final(self)@.line == line,
            final(self)@.screen == old(self)@.screen,
            final(self).wf() == old(self).wf(),
    {
        self.line = line;
    }
}

} // verus!
