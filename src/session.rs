use vstd::prelude::*;
use crossterm::style::{Attribute, Color};
use crate::buffer::{Buffer, Patch, TextError};
use crate::grid::{Grid, Paint, diff, lemma_changed_below_same};
use crate::ui::{Overflow, Rect};

verus! {

/// The state of one terminal session: the screen's size, the capabilities that
/// were negotiated, the canvas being painted (`working`) and the last canvas
/// that reached the terminal (`committed`).
///
/// Terminal input and output stay with the caller: the session says which
/// patches a frame needs, and is told when they were written.
pub struct Crossterm {
    screen: Rect,
    buffer: Buffer,
    prev_buffer: Buffer,
    mouse_capture: bool,
    keyboard_enhancement: bool,
}

impl Crossterm {
    /// The canvas being painted.
    pub closed spec fn working(&self) -> Grid {
        self.buffer@
    }

    /// What the terminal shows, as far as the session knows.
    pub closed spec fn committed(&self) -> Grid {
        self.prev_buffer@
    }

    pub closed spec fn spec_screen(&self) -> Rect {
        self.screen
    }

    pub closed spec fn spec_mouse_capture(&self) -> bool {
        self.mouse_capture
    }

    pub closed spec fn spec_keyboard_enhancement(&self) -> bool {
        self.keyboard_enhancement
    }

    pub closed spec fn wf(&self) -> bool {
        &&& self.screen.x == 0
        &&& self.screen.y == 0
        &&& self.screen.width <= u16::MAX
        &&& self.screen.height <= u16::MAX
        &&& self.buffer.wf()
        &&& self.prev_buffer.wf()
        &&& self.buffer@.width == self.screen.width
        &&& self.buffer@.height == self.screen.height
    }

    /// A session on a screen of `cols` columns and `rows` rows, with both
    /// canvases blank, as a freshly cleared screen is.
    pub fn new(cols: u16, rows: u16, mouse_capture: bool, keyboard_enhancement: bool) -> (r: Crossterm)
        ensures
            r.wf(),
            r.screen() == (Rect { x: 0, y: 0, width: cols as u32, height: rows as u32 }),
            r.working() == Grid::blank(cols as nat, rows as nat),
            r.committed() == Grid::blank(cols as nat, rows as nat),
            r.mouse_capture() == mouse_capture,
            r.keyboard_enhancement() == keyboard_enhancement,
    {
        let screen = Rect { x: 0, y: 0, width: cols as u32, height: rows as u32 };
        assert(screen.width * screen.height <= usize::MAX) by (nonlinear_arith)
            requires
                screen.width <= u16::MAX,
                screen.height <= u16::MAX,
        ;
        Crossterm {
            screen,
            buffer: Buffer::new(screen),
            prev_buffer: Buffer::new(screen),
            mouse_capture,
            keyboard_enhancement,
        }
    }

    /// The full screen.
    #[verifier::when_used_as_spec(spec_screen)]
    pub fn screen(&self) -> (r: Rect)
        ensures
            r == self.spec_screen(),
    {
        self.screen
    }

    /// Whether mouse capture was enabled for this session.
    #[verifier::when_used_as_spec(spec_mouse_capture)]
    pub fn mouse_capture(&self) -> (r: bool)
        ensures
            r == self.spec_mouse_capture(),
    {
        self.mouse_capture
    }

    /// Whether keyboard enhancement flags were pushed for this session.
    #[verifier::when_used_as_spec(spec_keyboard_enhancement)]
    pub fn keyboard_enhancement(&self) -> (r: bool)
        ensures
            r == self.spec_keyboard_enhancement(),
    {
        self.keyboard_enhancement
    }

    /// Takes a new screen size: the working canvas is blank at the new size and
    /// the committed one is forgotten, so that the next frame repaints every cell.
    pub fn resize(&mut self, cols: u16, rows: u16)
        requires
            old(self).wf(),
        ensures
            final(self).wf(),
            final(self).screen() == (Rect { x: 0, y: 0, width: cols as u32, height: rows as u32 }),
            final(self).working() == Grid::blank(cols as nat, rows as nat),
            final(self).committed() == Grid::blank(0, 0),
            diff(final(self).working(), final(self).committed()) == Seq::new(
                cols as nat * rows as nat,
                |i: int| final(self).working().patch_at(i),
            ),
            final(self).mouse_capture() == old(self).mouse_capture(),
            final(self).keyboard_enhancement() == old(self).keyboard_enhancement(),
    {
        let screen = Rect { x: 0, y: 0, width: cols as u32, height: rows as u32 };
        assert(screen.width * screen.height <= usize::MAX) by (nonlinear_arith)
            requires
                screen.width <= u16::MAX,
                screen.height <= u16::MAX,
        ;
        self.screen = screen;
        self.buffer = Buffer::new(screen);
        self.prev_buffer = Buffer::new(Rect { x: 0, y: 0, width: 0, height: 0 });
        assert(diff(self.working(), self.committed()) =~= Seq::new(
            cols as nat * rows as nat,
            |i: int| self.working().patch_at(i),
        ));
    }

    /// Sets the background color of every cell of the working canvas inside `rect`.
    pub fn set_background(&mut self, rect: Rect, color: Color)
        requires
            old(self).wf(),
        ensures
            final(self).wf(),
            final(self).working() == old(self).working().fill(rect, Paint::Background(color)),
            final(self).committed() == old(self).committed(),
            final(self).screen() == old(self).screen(),
            final(self).mouse_capture() == old(self).mouse_capture(),
            final(self).keyboard_enhancement() == old(self).keyboard_enhancement(),
    {
        self.buffer.fill_background(rect, color);
    }

    /// Sets the foreground color of every cell of the working canvas inside `rect`.
    pub fn set_foreground(&mut self, rect: Rect, color: Color)
        requires
            old(self).wf(),
        ensures
            final(self).wf(),
            final(self).working() == old(self).working().fill(rect, Paint::Foreground(color)),
            final(self).committed() == old(self).committed(),
            final(self).screen() == old(self).screen(),
            final(self).mouse_capture() == old(self).mouse_capture(),
            final(self).keyboard_enhancement() == old(self).keyboard_enhancement(),
    {
        self.buffer.fill_foreground(rect, color);
    }

    /// Sets the text attribute of every cell of the working canvas inside `rect`.
    pub fn set_attributes(&mut self, rect: Rect, attr: Attribute)
        requires
            old(self).wf(),
        ensures
            final(self).wf(),
            final(self).working() == old(self).working().fill(rect, Paint::Emphasis(attr)),
            final(self).committed() == old(self).committed(),
            final(self).screen() == old(self).screen(),
            final(self).mouse_capture() == old(self).mouse_capture(),
            final(self).keyboard_enhancement() == old(self).keyboard_enhancement(),
    {
        self.buffer.fill_attribute(rect, attr);
    }

    /// Writes `text` into `rect` of the working canvas, as `Buffer::write_text` does.
    pub fn set_text(&mut self, rect: Rect, text: &str, overflow: Overflow) -> (r: Result<(), TextError>)
        requires
            old(self).wf(),
        ensures
            final(self).wf(),
            overflow == Overflow::Char ==> r is Ok && final(self).working() == old(self).working().write_text(
                rect,
                text@,
            ),
            overflow == Overflow::Word ==> r == Err::<(), TextError>(TextError::UnsupportedOverflow)
                && final(self).working() == old(self).working(),
            final(self).committed() == old(self).committed(),
            final(self).screen() == old(self).screen(),
            final(self).mouse_capture() == old(self).mouse_capture(),
            final(self).keyboard_enhancement() == old(self).keyboard_enhancement(),
    {
        self.buffer.write_text(rect, text, overflow)
    }

    /// The patches that the next frame must write: `None` when the working
    /// canvas shows nothing new, so that an idle frame writes nothing.
    pub fn render_frame(&self) -> (r: Option<Vec<Patch>>)
        requires
            self.wf(),
        ensures
            r is None <==> diff(self.working(), self.committed()).len() == 0,
            r matches Some(patches) ==> patches@ == diff(self.working(), self.committed()),
            self.working().cells == self.committed().cells ==> r is None,
    {
        proof {
            lemma_changed_below_same(self.working().cells, self.working().cells.len());
        }
        let patches = self.buffer.diff(&self.prev_buffer);
        if patches.len() == 0 {
            None
        } else {
            Some(patches)
        }
    }

    /// Records that the patches of `render_frame` reached the terminal: the
    /// working canvas becomes the committed one.
    pub fn commit_frame(&mut self)
        requires
            old(self).wf(),
        ensures
            final(self).wf(),
            final(self).committed() == old(self).working(),
            final(self).working() == old(self).working(),
            final(self).screen() == old(self).screen(),
            final(self).mouse_capture() == old(self).mouse_capture(),
            final(self).keyboard_enhancement() == old(self).keyboard_enhancement(),
    {
        self.prev_buffer = self.buffer.snapshot();
    }
}

} // verus!
