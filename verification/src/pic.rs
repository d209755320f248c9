//! The bridge to the two chained interrupt controllers: which vectors they
//! own, which lines they hold back, and how often an interrupt was ended.

use vstd::prelude::*;

verus! {

/// Number of interrupt lines of one controller.
pub const LINES: u8 = 8;

/// What is known of the pair of controllers.
pub struct PicState {
    /// First vector of the primary controller.
    pub offset_1: u8,
    /// First vector of the secondary controller.
    pub offset_2: u8,
    /// Whether the controllers have been programmed with their offsets.
    pub initialized: bool,
    /// Interrupt mask of the primary controller: a set bit holds a line back.
    pub mask_1: u8,
    /// Interrupt mask of the secondary controller.
    pub mask_2: u8,
    /// End-of-interrupt commands that the primary controller was sent.
    pub ended_1: u64,
    /// End-of-interrupt commands that the secondary controller was sent.
    pub ended_2: u64,
}

/// Whether a controller whose first vector is `offset` owns `vector`.
pub open spec fn owns(offset: u8, vector: u8) -> bool {
    offset <= vector && vector < offset + LINES
}

/// Whether the mask lets the line `line` of its controller through.
pub open spec fn line_open(mask: u8, line: u8) -> bool {
    (mask >> line) & 1 == 0
}

/// One more, as far as 64 bits count.
pub open spec fn counted(n: u64) -> u64 {
    if n < u64::MAX {
        (n + 1) as u64
    } else {
        n
    }
}

impl PicState {
    /// Whether one of the two controllers owns `vector`.
    pub open spec fn handles_interrupt(self, vector: u8) -> bool {
        owns(self.offset_1, vector) || owns(self.offset_2, vector)
    }

    /// The state after the end of the interrupt `vector` was signalled: the
    /// primary controller is told of every interrupt that the pair owns, the
    /// secondary one of its own as well, and nothing else changes.
    pub open spec fn notified(self, vector: u8) -> PicState {
        if self.handles_interrupt(vector) {
            PicState {
                ended_1: counted(self.ended_1),
                ended_2: if owns(self.offset_2, vector) {
                    counted(self.ended_2)
                } else {
                    self.ended_2
                },
                ..self
            }
        } else {
            self
        }
    }

    /// The state after `n` interrupts `vector` were ended one after another.
    pub open spec fn notified_times(self, vector: u8, n: nat) -> PicState
        decreases n,
    {
        if n == 0 {
            self
        } else {
            self.notified_times(vector, (n - 1) as nat).notified(vector)
        }
    }
}

/// The pair of chained controllers.
#[derive(Debug)]
pub struct ChainedPics {
    offset_1: u8,
    offset_2: u8,
    initialized: bool,
    mask_1: u8,
    mask_2: u8,
    ended_1: u64,
    ended_2: u64,
}

impl View for ChainedPics {
    type V = PicState;

    closed spec fn view(&self) -> PicState {
        PicState {
            offset_1: self.offset_1,
            offset_2: self.offset_2,
            initialized: self.initialized,
            mask_1: self.mask_1,
            mask_2: self.mask_2,
            ended_1: self.ended_1,
            ended_2: self.ended_2,
        }
    }
}

impl ChainedPics {
    /// Controllers that are to own the eight vectors from `offset_1` and the
    /// eight from `offset_2`. They are not programmed yet and hold every line
    /// back.
    pub fn new(offset_1: u8, offset_2: u8) -> (pics: ChainedPics)
        requires
            offset_1 + LINES <= u8::MAX,
            offset_2 + LINES <= u8::MAX,
        ensures
            pics@ == (PicState {
                offset_1,
                offset_2,
                initialized: false,
                mask_1: u8::MAX,
                mask_2: u8::MAX,
                ended_1: 0,
                ended_2: 0,
            }),
    {
        ChainedPics {
            offset_1,
            offset_2,
            initialized: false,
            mask_1: u8::MAX,
            mask_2: u8::MAX,
            ended_1: 0,
            ended_2: 0,
        }
    }

    /// Programs the offsets into the controllers. The masks stay.
    pub fn initialize(&mut self)
        ensures
            final(self)@ == (PicState { initialized: true, ..old(self)@ }),
    {
        self.initialized = true;
    }

    /// The two interrupt masks, the primary controller's first.
    pub fn read_masks(&self) -> (masks: (u8, u8))
        ensures
            masks == (self@.mask_1, self@.mask_2),
    {
        (self.mask_1, self.mask_2)
    }

    /// Sets the two interrupt masks.
    pub fn write_masks(&mut self, mask_1: u8, mask_2: u8)
        ensures
            final(self)@ == (PicState { mask_1, mask_2, ..old(self)@ }),
    {
        self.mask_1 = mask_1;
        self.mask_2 = mask_2;
    }

    /// Whether one of the two controllers owns `vector`.
    pub fn handles_interrupt(&self, vector: u8) -> (r: bool)
        ensures
            r == self@.handles_interrupt(vector),
    {
        Self::pic_handles(self.offset_1, vector) || Self::pic_handles(self.offset_2, vector)
    }

    fn pic_handles(offset: u8, vector: u8) -> (r: bool)
        ensures
            r == owns(offset, vector),
    {
        offset <= vector && vector - offset < LINES
    }

    /// How often the end of an interrupt was signalled to the primary and to
    /// the secondary controller.
    pub fn ended(&self) -> (counts: (u64, u64))
        ensures
            counts == (self@.ended_1, self@.ended_2),
    {
        (self.ended_1, self.ended_2)
    }

    /// Signals the end of the interrupt `vector` to the controllers that took
    /// part in it. A vector that the pair does not own changes nothing.
    pub fn notify_end_of_interrupt(&mut self, vector: u8)
        ensures
            final(self)@ == old(self)@.notified(vector),
    {
        if self.handles_interrupt(vector) {
            if Self::pic_handles(self.offset_2, vector) {
                self.ended_2 = self.ended_2.saturating_add(1);
            }
            self.ended_1 = self.ended_1.saturating_add(1);
        }
    }
}

/// After `n` interrupts of one vector that the controllers own, the primary
/// controller has been told of `n` more ends of interrupt, and the masks, the
/// offsets and the programming are as before.
pub proof fn lemma_interrupts_ended(state: PicState, vector: u8, n: nat)
    requires
        state.handles_interrupt(vector),
        state.ended_1 + n <= u64::MAX,
    ensures
        state.notified_times(vector, n).ended_1 == state.ended_1 + n,
        state.notified_times(vector, n).mask_1 == state.mask_1,
        state.notified_times(vector, n).mask_2 == state.mask_2,
        state.notified_times(vector, n).offset_1 == state.offset_1,
        state.notified_times(vector, n).offset_2 == state.offset_2,
        state.notified_times(vector, n).initialized == state.initialized,
    decreases n,
{
    if n > 0 {
        lemma_interrupts_ended(state, vector, (n - 1) as nat);
    }
}

} // verus!
