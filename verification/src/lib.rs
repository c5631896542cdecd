//! A marquee: a message slides in from the right edge of a fixed-width
//! character field, crosses it, slides out on the left, and starts over.
//!
//! The core is `render`, a pure function from a tick position to the row of
//! characters shown at that tick.  `ScrollingTextGenerator` owns the tick
//! counter and produces one row per tick; a caller drives it from a periodic
//! timer and hands each row to a display.

use vstd::prelude::*;
use vstd::arithmetic::div_mod::lemma_mod_add_multiples_vanish;

verus! {

/// Number of character cells visible in the field at once.
pub const LABEL_WIDTH: usize = 40;

/// Milliseconds between ticks of the driving timer.
pub const SCROLL_SPEED: u32 = 50;

/// The message that scrolls across the field.
pub fn message() -> (r: &'static str)
    ensures
        r@ == message_view(),
{
    "Hello World"
}

/// The characters of the scrolling message.
pub open spec fn message_view() -> Seq<char> {
    "Hello World"@
}

/// The character shown in column `i` of a field of width `w` when the reduced
/// scroll position is `p` (so `0 <= p < w + msg.len()`).
///
/// While `p < w` the message is entering from the right: its first
/// `min(msg.len(), p)` characters sit right-aligned against column `w - p`.
/// Once `p >= w` it is exiting on the left: the characters from index `p - w`
/// onward sit at column 0.  Every other column is blank.
pub open spec fn cell_at(p: int, msg: Seq<char>, w: int, i: int) -> char {
    if p < w {
        let start = w - p;
        let visible = if msg.len() <= p {
            msg.len() as int
        } else {
            p
        };
        if start <= i && i < start + visible {
            msg[i - start]
        } else {
            ' '
        }
    } else {
        let text_pos = p - w;
        if 0 <= i && i + text_pos < msg.len() {
            msg[i + text_pos]
        } else {
            ' '
        }
    }
}

/// The whole row of `w` characters shown at tick `position`.  The position is
/// reduced modulo the cycle length `w + msg.len()`, so the display is periodic
/// in `position` with that period.
pub open spec fn render_spec(position: nat, msg: Seq<char>, w: nat) -> Seq<char> {
    let total = w + msg.len();
    let p = if total == 0 {
        0
    } else {
        position % total
    };
    Seq::new(w, |i: int| cell_at(p as int, msg, w as int, i))
}

/// Relies on `String`'s `FromIterator<char>` impl: collecting characters
/// yields the string of exactly those characters, in order.
#[verifier::external_body]
fn chars_to_string(chars: &Vec<char>) -> (r: String)
    ensures
        r@ == chars@,
{
    chars.iter().collect()
}

/// Renders the row of `field_width` characters shown at tick `position`:
/// blanks everywhere except where the cyclically repositioned `message`
/// crosses the field.
pub fn render(position: usize, message: &str, field_width: usize) -> (r: String)
    requires
        message@.len() + field_width <= usize::MAX,
    ensures
        r@ == render_spec(position as nat, message@, field_width as nat),
        r@.len() == field_width,
{
    let len = message.unicode_len();
    let total = field_width + len;
    let p = if total == 0 {
        0
    } else {
        position % total
    };
    let mut row: Vec<char> = Vec::new();
    let mut i: usize = 0;
    while i < field_width
        invariant
            i <= field_width,
            len == message@.len(),
            len + field_width <= usize::MAX,
            total == field_width + len,
            p == (if total == 0 {
                0
            } else {
                (position as nat) % (total as nat)
            }),
            row@ =~= Seq::new(i as nat, |j: int| cell_at(p as int, message@, field_width as int, j)),
        decreases field_width - i,
    {
        let c: char;
        if p < field_width {
            let start = field_width - p;
            let visible = if len <= p {
                len
            } else {
                p
            };
            if start <= i && i < start + visible {
                c = message.get_char(i - start);
            } else {
                c = ' ';
            }
        } else {
            let text_pos = p - field_width;
            if i + text_pos < len {
                c = message.get_char(i + text_pos);
            } else {
                c = ' ';
            }
        }
        row.push(c);
        i = i + 1;
    }
    chars_to_string(&row)
}

/// Owns the tick counter and produces one row of the marquee per tick.
///
/// The counter is kept reduced below the cycle length, so it never overflows
/// however long the animation runs.
pub struct ScrollingTextGenerator {
    pub message: String,
    pub field_width: usize,
    pub position: usize,
}

impl ScrollingTextGenerator {
    /// The scroll cycle length: the position wraps after this many ticks.
    pub open spec fn total(self) -> nat {
        (self.field_width + self.message@.len()) as nat
    }

    /// The counter stays reduced below the cycle length (and at zero when the
    /// cycle is empty), and the cycle length fits the machine word.
    pub open spec fn wf(self) -> bool {
        &&& self.message@.len() + self.field_width <= usize::MAX
        &&& (if self.total() == 0 {
            self.position == 0
        } else {
            self.position < self.total()
        })
    }

    /// A generator at the start of the cycle: nothing of the message is
    /// visible yet.
    pub fn new(message: String, field_width: usize) -> (r: Self)
        requires
            message@.len() + field_width <= usize::MAX,
        ensures
            r.wf(),
            r.message@ == message@,
            r.field_width == field_width,
            r.position == 0,
    {
        ScrollingTextGenerator { message, field_width, position: 0 }
    }

    /// Advances the counter by one tick, wrapping at the cycle length, and
    /// renders the row shown after that tick.
    pub fn tick(&mut self) -> (r: String)
        requires
            old(self).wf(),
        ensures
            final(self).wf(),
            final(self).message@ == old(self).message@,
            final(self).field_width == old(self).field_width,
            final(self).position == (if old(self).total() == 0 {
                0int
            } else {
                (old(self).position + 1) % (old(self).total() as int)
            }),
            r@ == render_spec(
                final(self).position as nat,
                old(self).message@,
                old(self).field_width as nat,
            ),
            r@.len() == old(self).field_width,
    {
        let len = self.message.as_str().unicode_len();
        let total = self.field_width + len;
        if total == 0 {
            self.position = 0;
        } else {
            self.position = (self.position + 1) % total;
        }
        render(self.position, self.message.as_str(), self.field_width)
    }
}

/// The display is periodic in the tick position: advancing a full cycle of
/// `field_width + message length` ticks shows the same row again.
pub proof fn lemma_render_periodic(position: nat, msg: Seq<char>, w: nat)
    ensures
        render_spec(position + w + msg.len(), msg, w) == render_spec(position, msg, w),
{
    let total = w + msg.len();
    if total > 0 {
        lemma_mod_add_multiples_vanish(position as int, total as int);
        assert(render_spec(position + total, msg, w) =~= render_spec(position, msg, w));
    }
}

/// Rendering is a pure function of the position, message and width: two
/// renders of the same inputs produce the same row, character for character.
pub proof fn lemma_render_deterministic(
    r1: Seq<char>,
    r2: Seq<char>,
    position: nat,
    msg: Seq<char>,
    w: nat,
)
    requires
        r1 == render_spec(position, msg, w),
        r2 == render_spec(position, msg, w),
    ensures
        r1 == r2,
{
}

} // verus!
