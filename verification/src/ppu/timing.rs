use vstd::prelude::*;
use crate::model::ModelType;
use crate::ppu::{PPU, sprites_fit, scanline_drawn, sprite_line, sprite_height, VRAM_SIZE, VRAM_TOTAL_BANKS, OAM_SIZE,
    CGB_BG_PALETTE_DATA_SIZE, CGB_OBJ_PALETTE_DATA_SIZE, FRAME_BUFFER_SIZE, FRAME_PIXELS};
use crate::ppu::oam::{scan_result, selected_sprites};

verus! {

/// The last dot of a line's drawing period (mode 3): 172 dots after the
/// 80-dot OAM scan, plus the fine horizontal scroll and six dots per object.
pub open spec fn mode3_end(scx: u8, objects: nat) -> int {
    80 + 172 + (scx % 8) + 6 * objects - 1
}

impl PPU {
    /// The states the dot clock can run from: at most ten objects and, while
    /// the LCD is on (LCDC bit 7; with it off the clock stands still), the
    /// dot counter inside a line (0..=455), LY inside a frame (0..=153), the
    /// window line counter no further than the lines drawn so far, and,
    /// between the OAM scan and the drawing of a visible line, objects
    /// that still lie on the line.
    pub open spec fn can_tick(self) -> bool {
        &&& self.wf()
        &&& self.sprites.len() <= 10
        &&& self.lcdc & 0x80 != 0 ==> {
            &&& self.dots <= 455
            &&& self.ly <= 153
            &&& self.window_line <= self.ly + (if self.dots >= 80 { 1int } else { 0int })
            &&& (1 <= self.dots <= 79 && self.mode != 1 && !self.skip_frame ==> sprites_fit(self))
        }
    }

    /// Whether a dot starting from `self` begins a line (dot 0) outside
    /// V-blank in a frame that is shown, so the OAM scan runs.
    pub open spec fn scans_oam(self) -> bool {
        self.dots == 0 && self.mode != 1 && !self.skip_frame
    }

    /// Whether a dot starting from `self` reaches dot 80 of a visible line
    /// of a shown frame, so the line is drawn.
    pub open spec fn draws_line(self) -> bool {
        self.dots == 79 && self.mode != 1 && self.ly < 144 && !self.skip_frame
    }

    /// The dot clock moved on by one dot, after any OAM scan and before any
    /// drawing and the STAT refresh: the mode follows the dot within the
    /// line (2, then 3, then 0; V-blank stays 1), and at the end of a line
    /// LY moves on; line 144 starts V-blank (the second component), line 154
    /// wraps to 0 and completes the frame (the third).
    pub open spec fn dot_step(self) -> (PPU, bool, bool) {
        let d = self.dots + 1;
        let mode_in_line = |m: u8| if self.mode != 1 { m } else { 1u8 };
        if d <= 79 {
            (PPU { dots: d as u16, mode: mode_in_line(2), ..self }, false, false)
        } else if d <= mode3_end(self.scx, self.sprites@.len()) {
            (PPU { dots: d as u16, mode: mode_in_line(3), ..self }, false, false)
        } else if d <= 455 {
            (PPU { dots: d as u16, mode: mode_in_line(0), ..self }, false, false)
        } else if self.ly + 1 == 144 {
            (PPU { dots: 0, ly: 144, mode: 1, ..self }, true, false)
        } else if self.ly + 1 == 154 {
            (PPU { dots: 0, ly: 0, window_line: 0, mode: 0, skip_frame: false, ..self }, false, true)
        } else {
            (PPU { dots: 0, ly: (self.ly + 1) as u8, ..self }, false, false)
        }
    }
}

/// One dot of the PPU took `p` (with interrupt flag `f`) to `q` (with `g`),
/// `frame` telling whether it completed a frame: nothing happens while
/// the LCD is off; otherwise the OAM scan runs at the start of a line, the
/// dot clock moves on, the line is drawn when it reaches dot 80, V-blank
/// requests its interrupt (bit 0), and STAT is refreshed.
pub open spec fn dot_ticked(p: PPU, f: u8, q: PPU, g: u8, frame: bool) -> bool {
    if p.lcdc & 0x80 == 0 {
        q == p && g == f && !frame
    } else {
        let scanned = PPU { sprites: q.sprites, ..p };
        let (s, vblank, done) = scanned.dot_step();
        let drawn = PPU { stat: s.stat, ..q };
        let f1 = if vblank { f | 0x01 } else { f };
        &&& (if p.scans_oam() { scan_result(p, q.sprites@) } else { q.sprites == p.sprites })
        &&& (if p.draws_line() { scanline_drawn(s, drawn) } else { drawn == s })
        &&& q.stat == s.stat_refreshed()
        &&& g == s.stat_refresh_flag(f1)
        &&& frame == done
    }
}

/// The last of several dots: `m` (flag `h`) to `q` (flag `g`), where
/// `before` tells whether an earlier dot completed a frame and `frame`
/// whether any did.
pub open spec fn last_dot(m: PPU, h: u8, before: bool, q: PPU, g: u8, last: bool, frame: bool) -> bool {
    dot_ticked(m, h, q, g, last) && frame == (before || last)
}

/// `n` dots took `p` (flag `f`) to `q` (flag `g`); `frame` tells whether
/// one of them completed a frame.
pub open spec fn dots_ticked(p: PPU, f: u8, n: nat, q: PPU, g: u8, frame: bool) -> bool
    decreases n,
{
    if n == 0 {
        q == p && g == f && !frame
    } else {
        exists|m: PPU, h: u8, before: bool, last: bool|
            #![trigger last_dot(m, h, before, q, g, last, frame)]
            dots_ticked(p, f, (n - 1) as nat, m, h, before) && last_dot(m, h, before, q, g, last, frame)
    }
}

impl PPU {
    /// Runs the PPU for `cycles` dots; tells whether a frame was completed
    /// (and is ready to be shown).
    pub fn tick(&mut self, if_flag: &mut u8, cycles: u8) -> (frame: bool)
        requires
            old(self).can_tick(),
        ensures
            final(self).can_tick(),
            dots_ticked(*old(self), *old(if_flag), cycles as nat, *final(self), *final(if_flag), frame),
    {
        let ghost p = *self;
        let ghost f = *if_flag;
        let mut frame = false;
        let mut i: u8 = 0;
        while i < cycles
            invariant
                0 <= i <= cycles,
                self.can_tick(),
                dots_ticked(p, f, i as nat, *self, *if_flag, frame),
            decreases cycles - i,
        {
            let ghost m = *self;
            let ghost h = *if_flag;
            let ghost before = frame;
            let done = self.single_tick(if_flag);
            frame = frame || done;
            proof {
                let n = (i + 1) as nat;
                assert(dots_ticked(p, f, (n - 1) as nat, m, h, before) && last_dot(m, h, before, *self, *if_flag, done, frame));
                assert(dots_ticked(p, f, n, *self, *if_flag, frame));
            }
            i = i + 1;
        }
        frame
    }

    /// Whether every object on the list that is flipped vertically still
    /// lies on the current line (see `sprites_fit`).
    pub fn sprites_on_line(&self) -> (r: bool)
        ensures
            r == sprites_fit(*self),
    {
        let height: u8 = if self.lcdc & 0x04 != 0 { 16 } else { 8 };
        let mut i: usize = 0;
        while i < self.sprites.len()
            invariant
                0 <= i <= self.sprites.len(),
                height == sprite_height(self.lcdc),
                forall|j: int|
                    0 <= j < i && #[trigger] self.sprites@[j].attributes & 0x40 != 0 ==> sprite_line(*self, self.sprites@[j])
                        < sprite_height(self.lcdc),
            decreases self.sprites.len() - i,
        {
            let s = self.sprites[i];
            if s.attributes & 0x40 != 0 && self.ly.wrapping_sub(s.y) >= height {
                return false;
            }
            i = i + 1;
        }
        true
    }

    /// Whether the dot clock may run from this state (see `can_tick`).
    pub fn ready_to_tick(&self) -> (r: bool)
        ensures
            r == self.can_tick(),
    {
        if self.vram.len() != VRAM_SIZE * VRAM_TOTAL_BANKS || self.oam.len() != OAM_SIZE || self.bg_palette_data.len()
            != CGB_BG_PALETTE_DATA_SIZE || self.obj_palette_data.len() != CGB_OBJ_PALETTE_DATA_SIZE || self.frame_buffer.len()
            != FRAME_BUFFER_SIZE || self.frame_buffer_pixel_priorities.len() != FRAME_PIXELS {
            return false;
        }
        if self.model_type == ModelType::Color && self.vram_bank > 1 {
            return false;
        }
        if self.mode > 3 || self.sprites.len() > 10 {
            return false;
        }
        if self.lcdc & 0x80 == 0 {
            return true;
        }
        if self.dots > 455 || self.ly > 153 {
            return false;
        }
        let allowance: u16 = if self.dots >= 80 { 1 } else { 0 };
        if self.window_line as u16 > self.ly as u16 + allowance {
            return false;
        }
        if 1 <= self.dots && self.dots <= 79 && self.mode != 1 && !self.skip_frame {
            return self.sprites_on_line();
        }
        true
    }

    /// One dot of the PPU: tells whether it completed a frame.
    pub fn single_tick(&mut self, if_flag: &mut u8) -> (frame: bool)
        requires
            old(self).can_tick(),
        ensures
            final(self).can_tick(),
            dot_ticked(*old(self), *old(if_flag), *final(self), *final(if_flag), frame),
    {
        if self.lcdc & 0x80 == 0 {
            return false;
        }
        if self.dots == 0 && self.mode != 1 && !self.skip_frame {
            self.oam_scan();
        }
        let ghost scanned = *self;
        self.dots = self.dots + 1;
        let scx_penalty = self.scx % 8;
        let sprite_penalty = self.sprites.len() as u8 * 6;
        let mode3_end: u16 = 80 + 172 + scx_penalty as u16 + sprite_penalty as u16 - 1;
        let mode0_start = mode3_end + 1;
        let mode0_end: u16 = 455;
        let mut frame = false;
        if self.dots <= 79 {
            if self.mode != 1 {
                self.mode = 2;
            }
        } else if self.dots >= 80 && self.dots <= mode3_end {
            if self.mode != 1 {
                self.mode = 3;
                if self.dots == 80 && self.ly < 144 && !self.skip_frame {
                    proof {
                        assert(sprites_fit(*self));
                    }
                    self.render_scanline();
                }
            }
        } else if self.dots >= mode0_start && self.dots <= mode0_end {
            if self.mode != 1 {
                self.mode = 0;
            }
        } else {
            self.dots = 0;
            self.ly = self.ly + 1;
            if self.ly == 144 {
                self.mode = 1;
                *if_flag = *if_flag | 0x01;
            } else if self.ly == 154 {
                self.ly = 0;
                self.window_line = 0;
                self.mode = 0;
                self.skip_frame = false;
                frame = true;
            }
        }
        self.update_stat_state(if_flag);
        frame
    }
}

/// While the LCD is off, running the dot clock for any number of dots
/// changes nothing, requests no interrupt and completes no frame.
pub proof fn lemma_lcd_off_holds(p: PPU, f: u8, n: nat, q: PPU, g: u8, frame: bool)
    requires
        p.lcdc & 0x80 == 0,
        dots_ticked(p, f, n, q, g, frame),
    ensures
        q == p,
        g == f,
        !frame,
    decreases n,
{
    if n > 0 {
        let (m, h, before, last) = choose|m: PPU, h: u8, before: bool, last: bool|
            dots_ticked(p, f, (n - 1) as nat, m, h, before) && last_dot(m, h, before, q, g, last, frame);
        lemma_lcd_off_holds(p, f, (n - 1) as nat, m, h, before);
    }
}

/// Dots in a frame: 154 lines of 456 dots.
pub const DOTS_PER_FRAME: u32 = 70224;

/// How far into the frame the dot clock is: 456 dots per line.
pub open spec fn frame_position(p: PPU) -> int {
    p.ly * 456 + p.dots
}

/// One dot moves the frame position on by one, wrapping after the last dot
/// of line 153, which is the dot that completes the frame; the LCD control
/// register is left alone.
proof fn lemma_one_dot(m: PPU, h: u8, q: PPU, g: u8, last: bool)
    requires
        m.lcdc & 0x80 != 0,
        m.dots <= 455,
        m.ly <= 153,
        m.sprites.len() <= 10,
        dot_ticked(m, h, q, g, last),
    ensures
        q.sprites.len() <= 10,
        frame_position(q) == (frame_position(m) + 1) % (DOTS_PER_FRAME as int),
        last == (frame_position(m) == DOTS_PER_FRAME - 1),
        q.lcdc == m.lcdc,
        q.dots <= 455,
        q.ly <= 153,
{
    let scanned = PPU { sprites: q.sprites, ..m };
    let (s, vblank, done) = scanned.dot_step();
    let drawn = PPU { stat: s.stat, ..q };
    assert(drawn.dots == s.dots && drawn.ly == s.ly && drawn.lcdc == s.lcdc);
    if m.scans_oam() {
        q.sprites@.to_multiset_ensures();
        selected_sprites(m).to_multiset_ensures();
    }
    assert(q.sprites.len() <= 10);
    let pos = frame_position(m);
    assert(0 <= pos <= 70223);
    if m.dots + 1 <= 455 {
        assert(frame_position(q) == pos + 1);
        vstd::arithmetic::div_mod::lemma_small_mod((pos + 1) as nat, 70224);
    } else if m.ly + 1 == 154 {
        assert(pos == 70223);
        assert(frame_position(q) == 0);
    } else {
        assert(frame_position(q) == pos + 1);
        vstd::arithmetic::div_mod::lemma_small_mod((pos + 1) as nat, 70224);
    }
}

/// While the LCD is on, the dot clock keeps time: after `n` dots the frame
/// position has moved on by `n` (modulo the 70224 dots of a frame), and a
/// frame was completed exactly when the position passed the frame's last
/// dot.
pub proof fn lemma_dot_clock_keeps_time(p: PPU, f: u8, n: nat, q: PPU, g: u8, frame: bool)
    requires
        p.lcdc & 0x80 != 0,
        p.dots <= 455,
        p.ly <= 153,
        p.sprites.len() <= 10,
        dots_ticked(p, f, n, q, g, frame),
    ensures
        q.sprites.len() <= 10,
        frame_position(q) == (frame_position(p) + n) % (DOTS_PER_FRAME as int),
        frame == (frame_position(p) + n >= DOTS_PER_FRAME),
        q.lcdc == p.lcdc,
        q.dots <= 455,
        q.ly <= 153,
    decreases n,
{
    if n > 0 {
        let (m, h, before, last) = choose|m: PPU, h: u8, before: bool, last: bool|
            dots_ticked(p, f, (n - 1) as nat, m, h, before) && last_dot(m, h, before, q, g, last, frame);
        lemma_dot_clock_keeps_time(p, f, (n - 1) as nat, m, h, before);
        lemma_one_dot(m, h, q, g, last);
        let k = frame_position(p) + n - 1;
        assert(0 <= frame_position(p) < DOTS_PER_FRAME);
        vstd::arithmetic::div_mod::lemma_add_mod_noop(k, 1, DOTS_PER_FRAME as int);
        vstd::arithmetic::div_mod::lemma_small_mod(1, DOTS_PER_FRAME as nat);
        if k < DOTS_PER_FRAME {
            vstd::arithmetic::div_mod::lemma_small_mod(k as nat, DOTS_PER_FRAME as nat);
        }
    }
}


impl PPU {
    /// `sprites_fit` for this PPU with LCDC and LY replaced.
    pub fn sprites_fit_as(&self, lcdc: u8, ly: u8) -> (r: bool)
        ensures
            r == sprites_fit(PPU { lcdc, ly, ..*self }),
    {
        let ghost q = PPU { lcdc, ly, ..*self };
        let height: u8 = if lcdc & 0x04 != 0 { 16 } else { 8 };
        let mut i: usize = 0;
        while i < self.sprites.len()
            invariant
                0 <= i <= self.sprites.len(),
                q == (PPU { lcdc, ly, ..*self }),
                height == sprite_height(lcdc),
                forall|j: int|
                    0 <= j < i && #[trigger] q.sprites@[j].attributes & 0x40 != 0 ==> sprite_line(q, q.sprites@[j])
                        < sprite_height(q.lcdc),
            decreases self.sprites.len() - i,
        {
            let s = self.sprites[i];
            if s.attributes & 0x40 != 0 && ly.wrapping_sub(s.y) >= height {
                proof {
                    assert(q.sprites@[i as int] == s);
                    assert(q.sprites@[i as int].attributes & 0x40 != 0 && sprite_line(q, q.sprites@[i as int])
                        >= sprite_height(q.lcdc));
                }
                return false;
            }
            i = i + 1;
        }
        true
    }

    /// `can_tick` for this PPU with its timing fields replaced.
    pub fn can_tick_as(&self, lcdc: u8, ly: u8, dots: u16, window_line: u8, mode: u8, skip_frame: bool) -> (r: bool)
        ensures
            r == (PPU { lcdc, ly, dots, window_line, mode, skip_frame, ..*self }).can_tick(),
    {
        if self.vram.len() != VRAM_SIZE * VRAM_TOTAL_BANKS || self.oam.len() != OAM_SIZE || self.bg_palette_data.len()
            != CGB_BG_PALETTE_DATA_SIZE || self.obj_palette_data.len() != CGB_OBJ_PALETTE_DATA_SIZE || self.frame_buffer.len()
            != FRAME_BUFFER_SIZE || self.frame_buffer_pixel_priorities.len() != FRAME_PIXELS {
            return false;
        }
        if self.model_type == ModelType::Color && self.vram_bank > 1 {
            return false;
        }
        if mode > 3 || self.sprites.len() > 10 {
            return false;
        }
        if lcdc & 0x80 == 0 {
            return true;
        }
        if dots > 455 || ly > 153 {
            return false;
        }
        let allowance: u16 = if dots >= 80 { 1 } else { 0 };
        if window_line as u16 > ly as u16 + allowance {
            return false;
        }
        if 1 <= dots && dots <= 79 && mode != 1 && !skip_frame {
            proof {
                lemma_sprites_fit_same(
                    PPU { lcdc, ly, ..*self },
                    PPU { lcdc, ly, dots, window_line, mode, skip_frame, ..*self },
                );
            }
            return self.sprites_fit_as(lcdc, ly);
        }
        true
    }
}

/// `sprites_fit` depends only on the object list, LY and LCDC.
pub proof fn lemma_sprites_fit_same(p: PPU, q: PPU)
    requires
        p.sprites == q.sprites,
        p.ly == q.ly,
        p.lcdc == q.lcdc,
    ensures
        sprites_fit(p) == sprites_fit(q),
{
    if sprites_fit(p) {
        assert forall|j: int|
            0 <= j < q.sprites@.len() && #[trigger] q.sprites@[j].attributes & 0x40 != 0 implies sprite_line(
            q,
            q.sprites@[j],
        ) < sprite_height(q.lcdc) by {
            assert(p.sprites@[j] == q.sprites@[j]);
        }
    }
    if sprites_fit(q) {
        assert forall|j: int|
            0 <= j < p.sprites@.len() && #[trigger] p.sprites@[j].attributes & 0x40 != 0 implies sprite_line(
            p,
            p.sprites@[j],
        ) < sprite_height(p.lcdc) by {
            assert(p.sprites@[j] == q.sprites@[j]);
        }
    }
}

} // verus!
