use vstd::prelude::*;
use crate::model::ModelType;
use crate::ppu::{PPU, Sprite, sprite_height, sprite_line, sprites_fit};

verus! {

/// OAM entry `i` (0..40) read as an object: its coordinates without the
/// 16/8 screen offsets (wrapping), and its index as its priority.
pub open spec fn oam_entry(p: PPU, i: int) -> Sprite {
    Sprite {
        y: ((p.oam@[4 * i] - 16) % 256) as u8,
        x: ((p.oam@[4 * i + 1] - 8) % 256) as u8,
        tile_index: p.oam@[4 * i + 2],
        attributes: p.oam@[4 * i + 3],
        priority: i as u8,
    }
}

/// Whether an object covers the current line.
pub open spec fn on_line(p: PPU, s: Sprite) -> bool {
    sprite_line(p, s) < sprite_height(p.lcdc)
}

/// The objects among the first `n` OAM entries that cover the current
/// line, in OAM order.
pub open spec fn visible_entries(p: PPU, n: int) -> Seq<Sprite>
    decreases n,
{
    if n <= 0 {
        Seq::empty()
    } else {
        let prev = visible_entries(p, n - 1);
        if on_line(p, oam_entry(p, n - 1)) {
            prev.push(oam_entry(p, n - 1))
        } else {
            prev
        }
    }
}

/// At most the first ten objects of a list.
pub open spec fn first_ten(v: Seq<Sprite>) -> Seq<Sprite> {
    if v.len() <= 10 {
        v
    } else {
        v.take(10)
    }
}

/// The objects the OAM scan selects: the first ten (in OAM order) that
/// cover the current line.
pub open spec fn selected_sprites(p: PPU) -> Seq<Sprite> {
    first_ten(visible_entries(p, 40))
}

/// Objects are ordered by OAM index alone on a Color model whose object
/// priority mode has bit 0 clear; otherwise by x, then OAM index.
pub open spec fn by_oam_order(p: PPU) -> bool {
    p.model_type == ModelType::Color && p.object_priority_mode & 0x01 == 0
}

/// The drawing key of an object: objects are drawn from the largest key
/// down, so the one with the smallest key ends up on top.
pub open spec fn draw_key(s: Sprite, by_index: bool) -> int {
    if by_index {
        s.priority as int
    } else {
        s.x as int * 256 + s.priority as int
    }
}

/// Keys strictly decrease along the list.
pub open spec fn drawing_order(v: Seq<Sprite>, by_index: bool) -> bool {
    forall|i: int, j: int| 0 <= i < j < v.len() ==> draw_key(#[trigger] v[i], by_index) > draw_key(#[trigger] v[j], by_index)
}

/// `sprites` is what the OAM scan leaves for the current line: the
/// selected objects, each once, in drawing order.
pub open spec fn scan_result(p: PPU, sprites: Seq<Sprite>) -> bool {
    &&& sprites.to_multiset() == selected_sprites(p).to_multiset()
    &&& drawing_order(sprites, by_oam_order(p))
}

/// The visible entries are in OAM order (priority = OAM index) and all
/// cover the line.
proof fn lemma_visible_entries(p: PPU, n: int)
    requires
        0 <= n <= 40,
    ensures
        visible_entries(p, n).len() <= n,
        forall|a: int| 0 <= a < visible_entries(p, n).len() ==> (#[trigger] visible_entries(p, n)[a]).priority < n,
        forall|a: int, b: int|
            0 <= a < b < visible_entries(p, n).len() ==> (#[trigger] visible_entries(p, n)[a]).priority
                < (#[trigger] visible_entries(p, n)[b]).priority,
        forall|a: int| 0 <= a < visible_entries(p, n).len() ==> on_line(p, #[trigger] visible_entries(p, n)[a]),
    decreases n,
{
    if n > 0 {
        lemma_visible_entries(p, n - 1);
        assert(oam_entry(p, n - 1).priority == n - 1);
    }
}

/// The visible entries among the first `i` are a prefix of those among the
/// first `j >= i`.
proof fn lemma_visible_prefix(p: PPU, i: int, j: int)
    requires
        0 <= i <= j,
    ensures
        visible_entries(p, i).len() <= visible_entries(p, j).len(),
        forall|a: int| 0 <= a < visible_entries(p, i).len() ==> #[trigger] visible_entries(p, j)[a] == visible_entries(p, i)[a],
    decreases j - i,
{
    if i < j {
        lemma_visible_prefix(p, i, j - 1);
    }
}

/// Whether `a` is drawn before `b`: by OAM index alone, or by x and then
/// OAM index, larger first.
pub fn draws_before(a: &Sprite, b: &Sprite, by_index: bool) -> (r: bool)
    ensures
        r == (draw_key(*a, by_index) > draw_key(*b, by_index)),
{
    if a.x == b.x || by_index {
        a.priority > b.priority
    } else {
        a.x > b.x
    }
}

impl PPU {
    /// Selects the objects of the current line (the first ten in OAM order
    /// that cover it) and orders them for drawing.
    pub fn oam_scan(&mut self)
        requires
            old(self).wf(),
        ensures
            final(self).wf(),
            *final(self) == (PPU { sprites: final(self).sprites, ..*old(self) }),
            scan_result(*old(self), final(self).sprites@),
            final(self).sprites.len() <= 10,
            forall|m: int| 0 <= m < final(self).sprites.len() ==> on_line(*old(self), #[trigger] final(self).sprites@[m]),
            sprites_fit(*final(self)),
    {
        let ghost p = *self;
        let height: u8 = if self.lcdc & 0x04 != 0 { 16 } else { 8 };
        let mut found: Vec<Sprite> = Vec::new();
        let mut i: usize = 0;
        while i < 40 && found.len() < 10
            invariant
                *self == p,
                p.wf(),
                0 <= i <= 40,
                height == sprite_height(p.lcdc),
                found@ == first_ten(visible_entries(p, i as int)),
            decreases 40 - i,
        {
            let base = i * 4;
            let sprite_y = self.oam[base].wrapping_sub(16);
            let sprite_x = self.oam[base + 1].wrapping_sub(8);
            let tile_index = self.oam[base + 2];
            let attributes = self.oam[base + 3];
            let diff = self.ly.wrapping_sub(sprite_y);
            let s = Sprite { y: sprite_y, x: sprite_x, tile_index, attributes, priority: i as u8 };
            proof {
                assert(s == oam_entry(p, i as int));
                assert((diff < height) == on_line(p, s));
                lemma_visible_entries(p, i as int);
            }
            if diff < height {
                found.push(s);
            }
            proof {
                assert(found@ =~= first_ten(visible_entries(p, i + 1)));
            }
            i = i + 1;
        }
        proof {
            lemma_visible_prefix(p, i as int, 40);
            lemma_visible_entries(p, 40);
            lemma_visible_entries(p, i as int);
            assert(found@ =~= selected_sprites(p));
        }
        let by_index = self.model_type == ModelType::Color && self.object_priority_mode & 0x01 == 0;
        let mut sorted: Vec<Sprite> = Vec::new();
        let mut k: usize = 0;
        proof {
            assert(sorted@ =~= found@.take(0));
        }
        while k < found.len()
            invariant
                *self == p,
                p.wf(),
                found@ == selected_sprites(p),
                found.len() <= 10,
                by_index == by_oam_order(p),
                0 <= k <= found.len(),
                forall|a: int, b: int|
                    0 <= a < b < found.len() ==> (#[trigger] found@[a]).priority < (#[trigger] found@[b]).priority,
                forall|a: int| 0 <= a < found.len() ==> on_line(p, #[trigger] found@[a]),
                sorted@.to_multiset() == found@.take(k as int).to_multiset(),
                sorted.len() == k,
                drawing_order(sorted@, by_index),
                forall|m: int, j: int|
                    0 <= m < sorted.len() && k <= j < found.len() ==> (#[trigger] sorted@[m]).priority
                        < (#[trigger] found@[j]).priority,
                forall|m: int| 0 <= m < sorted.len() ==> on_line(p, #[trigger] sorted@[m]),
            decreases found.len() - k,
        {
            let s = found[k];
            let mut pos: usize = 0;
            while pos < sorted.len() && draws_before(&sorted[pos], &s, by_index)
                invariant
                    0 <= pos <= sorted.len(),
                    forall|m: int| 0 <= m < pos ==> draw_key(#[trigger] sorted@[m], by_index) > draw_key(s, by_index),
                decreases sorted.len() - pos,
            {
                pos = pos + 1;
            }
            let ghost before = sorted@;
            proof {
                assert forall|m: int| pos <= m < before.len() implies draw_key(#[trigger] before[m], by_index) < draw_key(
                    s,
                    by_index,
                ) by {
                    assert(before[pos as int].priority < s.priority);
                    assert(before[m].priority < s.priority);
                    if m > pos {
                        assert(draw_key(before[pos as int], by_index) > draw_key(before[m], by_index));
                    }
                }
                before.insert_ensures(pos as int, s);
            }
            sorted.insert(pos, s);
            proof {
                vstd::seq_lib::to_multiset_insert(before, pos as int, s);
                assert(found@.take(k + 1) =~= found@.take(k as int).push(s));
                found@.take(k as int).to_multiset_ensures();
                assert forall|a: int, b: int| 0 <= a < b < sorted.len() implies draw_key(#[trigger] sorted@[a], by_index)
                    > draw_key(#[trigger] sorted@[b], by_index) by {
                    if b < pos {
                    } else if b == pos {
                    } else if a < pos {
                        assert(sorted@[b] == before[b - 1]);
                    } else if a == pos {
                        assert(sorted@[b] == before[b - 1]);
                    } else {
                        assert(sorted@[a] == before[a - 1]);
                        assert(sorted@[b] == before[b - 1]);
                    }
                }
                assert forall|m: int, j: int| 0 <= m < sorted.len() && k + 1 <= j < found.len() implies (
                #[trigger] sorted@[m]).priority < (#[trigger] found@[j]).priority by {
                    if m < pos {
                    } else if m == pos {
                    } else {
                        assert(sorted@[m] == before[m - 1]);
                    }
                }
                assert forall|m: int| 0 <= m < sorted.len() implies on_line(p, #[trigger] sorted@[m]) by {
                    if m > pos {
                        assert(sorted@[m] == before[m - 1]);
                    }
                }
            }
            k = k + 1;
        }
        proof {
            assert(found@.take(found.len() as int) =~= found@);
        }
        self.sprites = sorted;
    }
}

} // verus!
