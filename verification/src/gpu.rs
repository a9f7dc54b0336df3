//! The video compositor: the frame that the emulated video generator
//! draws, and the stack of overlay layers that native code draws into.

pub mod layer;
pub mod video;

use vstd::prelude::*;
use crate::cpu::alu::{set_bit, with_bit};
use crate::cpu::instructions::INTERRUPT_FLAGS;
use crate::gpu::layer::{Layer, LayerModel};
use crate::gpu::video::{
    all_gray, glyph_address, glyph_address_of, gray, gray_of, is_gray_level, palette_shade,
    render_line, shade_of, tile_pixel, tile_pixel_of, with_line, BGP, FRAME_BYTES, LCDC,
    LINE_CYCLES, LY,
};
use crate::cpu::alu::{bit_is_set, test_bit};
use crate::mmu::{MemoryModel, Mmu};

verus! {

/// Names a layer by its place in the stack, the lowest being 0.
#[derive(Clone, Copy, Debug, PartialEq, Eq, Structural)]
pub struct LayerHandle {
    pub index: usize,
}

/// Why a layer was not popped.
#[derive(Clone, Copy, Debug, PartialEq, Eq, Structural)]
pub enum LayerError {
    /// The handle does not name the topmost layer.
    NotOnTop,
}

/// The mathematical content of the compositor.
pub struct GpuModel {
    /// Cycles into the current line.
    pub clock: nat,
    /// The frame of the emulated video: three equal bytes a pixel, row by
    /// row.
    pub frame: Seq<u8>,
    /// Whether a frame was completed since this was last asked.
    pub frame_ready: bool,
    /// The overlay layers, lowest first.
    pub layers: Seq<LayerModel>,
}

/// The shade of pixel (`px`, `py`) of the tile that an overlay cell names.
pub open spec fn glyph_shade(m: MemoryModel, tile: u8, px: u8, py: u8) -> u8 {
    palette_shade(m.read(BGP), tile_pixel(m, glyph_address(tile), px, py))
}

/// The shade that the first `n` layers show at pixel (`x`, `y`): that of
/// the highest among them whose cell there is not transparent.
pub open spec fn overlay_shade(layers: Seq<LayerModel>, n: nat, m: MemoryModel, x: int, y: int)
    -> Option<u8>
    decreases n,
{
    if n == 0 {
        None
    } else {
        match layers[n - 1].cell(x / 8, y / 8) {
            Some(tile) => Some(glyph_shade(m, tile, (x % 8) as u8, (y % 8) as u8)),
            None => overlay_shade(layers, (n - 1) as nat, m, x, y),
        }
    }
}

impl GpuModel {
    pub open spec fn wf(self) -> bool {
        &&& self.clock < 456
        &&& self.frame.len() == 69120
        &&& all_gray(self.frame)
        &&& forall|i: int| 0 <= i < self.layers.len() ==> (#[trigger] self.layers[i]).wf()
    }

    /// Byte `i` of the composited frame.
    pub open spec fn composite_byte(self, m: MemoryModel, i: int) -> u8 {
        let x = (i / 3) % 160;
        let y = i / 480;
        match overlay_shade(self.layers, self.layers.len(), m, x, y) {
            Some(shade) => gray(shade),
            None => self.frame[i],
        }
    }

    /// The composited frame: the emulated video with the layers on top of
    /// it, lowest first.
    pub open spec fn composite(self, m: MemoryModel) -> Seq<u8> {
        Seq::new(69120, |i: int| self.composite_byte(m, i))
    }

    /// The compositor of a new session: at the start of line 0, with a white
    /// frame and no layers.
    pub open spec fn initial() -> GpuModel {
        GpuModel {
            clock: 0,
            frame: Seq::new(69120, |i: int| 255u8),
            frame_ready: false,
            layers: Seq::empty(),
        }
    }

    pub open spec fn push_layer(self) -> GpuModel {
        GpuModel { layers: self.layers.push(LayerModel::blank()), ..self }
    }

    pub open spec fn pop_layer(self) -> GpuModel {
        GpuModel { layers: self.layers.drop_last(), ..self }
    }

    pub open spec fn with_layer(self, index: int, layer: LayerModel) -> GpuModel {
        GpuModel { layers: self.layers.update(index, layer), ..self }
    }

    /// The compositor and the memory after `ticks` more cycles, where the
    /// display is on. When a line ends, it is drawn if it is one of the
    /// 144 visible ones, and the line counter moves on; when the counter
    /// reaches line 144 the frame is complete and the vertical-blank
    /// interrupt is requested.
    pub open spec fn advance(self, m: MemoryModel, ticks: nat) -> (GpuModel, MemoryModel)
        recommends
            ticks <= 456,
    {
        if !test_bit(m.read(LCDC), 7) {
            (self, m)
        } else if self.clock + ticks < 456 {
            (GpuModel { clock: self.clock + ticks, ..self }, m)
        } else {
            let line = m.read(LY);
            let frame = if line < 144 { with_line(self.frame, m, line) } else { self.frame };
            let next: u8 = if line >= 153 { 0 } else { (line + 1) as u8 };
            let counted = m.write(LY, next);
            let clock = (self.clock + ticks - 456) as nat;
            if next == 144 {
                (
                    GpuModel { clock, frame, frame_ready: true, ..self },
                    counted.write(
                        INTERRUPT_FLAGS,
                        with_bit(counted.read(INTERRUPT_FLAGS), 0, true),
                    ),
                )
            } else {
                (GpuModel { clock, frame, ..self }, counted)
            }
        }
    }

    /// What the layers show at a pixel depends on their cells at that
    /// pixel alone.
    pub proof fn lemma_overlay_depends_on_cell(
        a: Seq<LayerModel>,
        b: Seq<LayerModel>,
        n: nat,
        m: MemoryModel,
        x: int,
        y: int,
    )
        requires
            n <= a.len(),
            n <= b.len(),
            forall|k: int|
                0 <= k < n ==> (#[trigger] a[k]).cell(x / 8, y / 8) == b[k].cell(x / 8, y / 8),
        ensures
            overlay_shade(a, n, m, x, y) == overlay_shade(b, n, m, x, y),
        decreases n,
    {
        if n > 0 {
            Self::lemma_overlay_depends_on_cell(a, b, (n - 1) as nat, m, x, y);
        }
    }

    /// With no layer pushed the composited frame is the emulated video.
    pub proof fn lemma_no_layers_is_identity(self, m: MemoryModel)
        requires
            self.wf(),
            self.layers.len() == 0,
        ensures
            self.composite(m) == self.frame,
    {
        assert(self.composite(m) =~= self.frame);
    }

    /// A layer that was just pushed shows nothing: the composited frame is
    /// what it was before the push, and a pop undoes the push.
    pub proof fn lemma_push_then_pop(self, m: MemoryModel)
        requires
            self.wf(),
        ensures
            self.push_layer().wf(),
            self.push_layer().composite(m) == self.composite(m),
            self.push_layer().pop_layer() == self,
    {
        let pushed = self.push_layer();
        assert(pushed.layers.drop_last() =~= self.layers);
        assert forall|i: int| 0 <= i < 69120 implies pushed.composite_byte(m, i)
            == self.composite_byte(m, i) by {
            let x = (i / 3) % 160;
            let y = i / 480;
            assert(in_grid_of_pixel(x, y));
            assert(pushed.layers[pushed.layers.len() - 1] == LayerModel::blank());
            assert(LayerModel::blank().cell(x / 8, y / 8).is_none());
            Self::lemma_overlay_depends_on_cell(pushed.layers, self.layers, self.layers.len(), m, x, y);
        }
        assert(pushed.composite(m) =~= self.composite(m));
    }

    /// A layer that is pushed changes the composited frame only where it
    /// shows something: at a pixel whose cell on the layer is transparent
    /// the frame is what it was before the push.
    pub proof fn lemma_pushed_layer_is_local(self, m: MemoryModel, layer: LayerModel, i: int)
        requires
            self.wf(),
            layer.wf(),
            0 <= i < 69120,
            layer.cell(((i / 3) % 160) / 8, (i / 480) / 8).is_none(),
        ensures
            self.push_layer().with_layer(self.layers.len() as int, layer).composite(m)[i]
                == self.composite(m)[i],
            self.push_layer().with_layer(self.layers.len() as int, layer).pop_layer() == self,
    {
        let pushed = self.push_layer().with_layer(self.layers.len() as int, layer);
        let x = (i / 3) % 160;
        let y = i / 480;
        assert(in_grid_of_pixel(x, y));
        assert(pushed.layers.len() == self.layers.len() + 1);
        assert(pushed.layers[self.layers.len() as int] == layer);
        assert(pushed.layers.drop_last() =~= self.layers);
        Self::lemma_overlay_depends_on_cell(pushed.layers, self.layers, self.layers.len(), m, x, y);
    }

    /// Two layers pushed one after the other and popped in the reverse
    /// order leave the stack as it was, and the composited frame is the
    /// same at each of the four steps.
    pub proof fn lemma_nested_push_pop(self, m: MemoryModel)
        requires
            self.wf(),
        ensures
            self.push_layer().composite(m) == self.composite(m),
            self.push_layer().push_layer().composite(m) == self.composite(m),
            self.push_layer().push_layer().pop_layer() == self.push_layer(),
            self.push_layer().push_layer().pop_layer().pop_layer() == self,
    {
        self.lemma_push_then_pop(m);
        self.push_layer().lemma_push_then_pop(m);
    }

    /// Drawing into one cell of a layer changes the composited frame in
    /// the eight by eight block of that cell and nowhere else.
    pub proof fn lemma_cell_is_local(
        self,
        m: MemoryModel,
        index: int,
        cx: int,
        cy: int,
        tile: Option<u8>,
        i: int,
    )
        requires
            self.wf(),
            0 <= index < self.layers.len(),
            0 <= cx < 20,
            0 <= cy < 18,
            0 <= i < 69120,
            !(((i / 3) % 160) / 8 == cx && (i / 480) / 8 == cy),
        ensures
            self.with_layer(index, self.layers[index].with_cell(cx, cy, tile)).composite(m)[i]
                == self.composite(m)[i],
    {
        let after = self.with_layer(index, self.layers[index].with_cell(cx, cy, tile));
        let x = (i / 3) % 160;
        let y = i / 480;
        assert(in_grid_of_pixel(x, y));
        assert forall|k: int| 0 <= k < self.layers.len() implies (#[trigger] after.layers[k]).cell(
            x / 8,
            y / 8,
        ) == self.layers[k].cell(x / 8, y / 8) by {
            if k == index {
                assert(self.layers[index].wf());
                self.layers[index].lemma_with_cell(cx, cy, tile, x / 8, y / 8);
            }
        }
        Self::lemma_overlay_depends_on_cell(after.layers, self.layers, self.layers.len(), m, x, y);
    }

    /// One tile drawn at cell (`cx`, `cy`) of a single, otherwise empty
    /// layer: inside the block of that cell the composited frame shows the
    /// tile, and everywhere else it is the emulated video.
    pub proof fn lemma_single_cell(self, m: MemoryModel, cx: int, cy: int, tile: u8, i: int)
        requires
            self.wf(),
            self.layers.len() == 0,
            0 <= cx < 20,
            0 <= cy < 18,
            0 <= i < 69120,
        ensures
            ({
                let drawn = self.push_layer().with_layer(
                    0,
                    LayerModel::blank().with_cell(cx, cy, Some(tile)),
                );
                let x = (i / 3) % 160;
                let y = i / 480;
                drawn.composite(m)[i] == if x / 8 == cx && y / 8 == cy {
                    gray(glyph_shade(m, tile, (x % 8) as u8, (y % 8) as u8))
                } else {
                    self.frame[i]
                }
            }),
    {
        let drawn = self.push_layer().with_layer(
            0,
            LayerModel::blank().with_cell(cx, cy, Some(tile)),
        );
        let x = (i / 3) % 160;
        let y = i / 480;
        assert(in_grid_of_pixel(x, y));
        LayerModel::blank().lemma_with_cell(cx, cy, Some(tile), x / 8, y / 8);
        assert(drawn.layers.len() == 1);
        assert(drawn.layers[0] == LayerModel::blank().with_cell(cx, cy, Some(tile)));
        assert(overlay_shade(drawn.layers, 0, m, x, y).is_none());
    }
}

/// A pixel of the screen lies in a cell of the grid.
pub open spec fn in_grid_of_pixel(x: int, y: int) -> bool {
    0 <= x < 160 && 0 <= y < 144 && 0 <= x / 8 < 20 && 0 <= y / 8 < 18
}

/// The video compositor.
pub struct Gpu {
    clock: u32,
    frame: Vec<u8>,
    frame_ready: bool,
    layers: Vec<Layer>,
}

impl View for Gpu {
    type V = GpuModel;

    closed spec fn view(&self) -> GpuModel {
        GpuModel {
            clock: self.clock as nat,
            frame: self.frame@,
            frame_ready: self.frame_ready,
            layers: Seq::new(self.layers@.len(), |i: int| self.layers@[i]@),
        }
    }
}

impl Gpu {
    /// A compositor at the start of line 0, with a white frame and no
    /// layers.
    pub fn new() -> (out: Gpu)
        ensures
            out@ == GpuModel::initial(),
            out@.wf(),
    {
        let mut frame: Vec<u8> = Vec::new();
        let mut i: usize = 0;
        while i < FRAME_BYTES
            invariant
                i <= FRAME_BYTES,
                frame@.len() == i,
                forall|j: int| 0 <= j < i ==> frame@[j] == 255,
            decreases FRAME_BYTES - i,
        {
            frame.push(255);
            i += 1;
        }
        assert(frame@ =~= Seq::new(69120, |i: int| 255u8));
        let out = Gpu { clock: 0, frame, frame_ready: false, layers: Vec::new() };
        assert(out@.layers =~= Seq::<LayerModel>::empty());
        out
    }

    /// Lets `ticks` cycles pass, at most a line's worth.
    pub fn advance(&mut self, mmu: &mut Mmu, ticks: u32)
        requires
            old(self)@.wf(),
            old(mmu)@.wf(),
            ticks <= 456,
        ensures
            (final(self)@, final(mmu)@) == old(self)@.advance(old(mmu)@, ticks as nat),
            final(self)@.wf(),
            final(mmu)@.wf(),
    {
        if !bit_is_set(mmu.read_byte(LCDC), 7) {
            return ;
        }
        if self.clock + ticks < LINE_CYCLES {
            self.clock = self.clock + ticks;
            return ;
        }
        let line: u8 = mmu.read_byte(LY);
        if line < 144 {
            render_line(&mut self.frame, mmu, line);
        }
        let next: u8 = if line >= 153 { 0 } else { line + 1 };
        mmu.write_byte(LY, next);
        self.clock = self.clock + ticks - LINE_CYCLES;
        if next == 144 {
            self.frame_ready = true;
            let requested: u8 = mmu.read_byte(INTERRUPT_FLAGS);
            mmu.write_byte(INTERRUPT_FLAGS, set_bit(requested, 0, true));
        }
    }

    /// Whether a frame was completed since the last call of this. Asking
    /// clears the mark.
    pub fn take_frame_ready(&mut self) -> (out: bool)
        ensures
            out == old(self)@.frame_ready,
            final(self)@ == (GpuModel { frame_ready: false, ..old(self)@ }),
    {
        let out: bool = self.frame_ready;
        self.frame_ready = false;
        out
    }

    /// The number of layers on the stack.
    pub fn layer_count(&self) -> (out: usize)
        ensures
            out == self@.layers.len(),
    {
        self.layers.len()
    }

    /// Pushes a new, wholly transparent layer and returns its handle.
    pub fn push_layer(&mut self) -> (handle: LayerHandle)
        requires
            old(self)@.wf(),
        ensures
            handle.index == old(self)@.layers.len(),
            final(self)@ == old(self)@.push_layer(),
            final(self)@.wf(),
    {
        let index: usize = self.layers.len();
        self.layers.push(Layer::new());
        assert(self@.layers =~= old(self)@.layers.push(LayerModel::blank()));
        LayerHandle { index }
    }

    /// The layer that `handle` names, to draw into.
    pub fn mut_layer(&mut self, handle: LayerHandle) -> (layer: &mut Layer)
        requires
            old(self)@.wf(),
            handle.index < old(self)@.layers.len(),
        ensures
            layer@ == old(self)@.layers[handle.index as int],
            layer@.wf(),
            final(self)@ == old(self)@.with_layer(handle.index as int, final(layer)@),
    {
        let ghost before = self@;
        let layer = &mut self.layers[handle.index];
        proof {
            assert(layer@ == before.layers[handle.index as int]);
            assert(Seq::new(
                after_borrow(self.layers)@.len(),
                |i: int| after_borrow(self.layers)@[i]@,
            ) =~= before.layers.update(handle.index as int, final(layer)@));
        }
        layer
    }

    /// The layer that `handle` names, to look at.
    pub fn layer(&self, handle: LayerHandle) -> (layer: &Layer)
        requires
            handle.index < self@.layers.len(),
        ensures
            layer@ == self@.layers[handle.index as int],
    {
        &self.layers[handle.index]
    }

    /// Retires the topmost layer, which `handle` must name. Any other
    /// handle is refused and the stack stays as it is.
    pub fn pop_layer(&mut self, handle: LayerHandle) -> (out: Result<(), LayerError>)
        requires
            old(self)@.wf(),
        ensures
            out.is_ok() == (handle.index + 1 == old(self)@.layers.len()),
            out.is_ok() ==> final(self)@ == old(self)@.pop_layer(),
            out.is_err() ==> out == Err::<(), LayerError>(LayerError::NotOnTop) && final(self)@
                == old(self)@,
            final(self)@.wf(),
    {
        if self.layers.len() > 0 && handle.index == self.layers.len() - 1 {
            self.layers.pop();
            assert(self@.layers =~= old(self)@.layers.drop_last());
            Ok(())
        } else {
            Err(LayerError::NotOnTop)
        }
    }

    /// The shade that the layers show at pixel (`x`, `y`), if any does.
    fn overlay_shade_of(&self, mmu: &Mmu, x: usize, y: usize) -> (out: Option<u8>)
        requires
            self@.wf(),
            mmu@.wf(),
            x < 160,
            y < 144,
        ensures
            out == overlay_shade(self@.layers, self@.layers.len(), mmu@, x as int, y as int),
            out matches Some(s) ==> s < 4,
    {
        let mut n: usize = self.layers.len();
        while n > 0
            invariant
                self@.wf(),
                mmu@.wf(),
                x < 160,
                y < 144,
                n <= self.layers@.len(),
                self@.layers.len() == self.layers@.len(),
                overlay_shade(self@.layers, self@.layers.len(), mmu@, x as int, y as int)
                    == overlay_shade(self@.layers, n as nat, mmu@, x as int, y as int),
            decreases n,
        {
            assert(self@.layers[n - 1] == self.layers@[n - 1]@);
            assert(self@.layers[n - 1].wf());
            match self.layers[n - 1].cell(x / 8, y / 8) {
                Some(tile) => {
                    let colour: u8 = tile_pixel_of(
                        mmu,
                        glyph_address_of(tile),
                        (x % 8) as u8,
                        (y % 8) as u8,
                    );
                    return Some(shade_of(mmu.read_byte(BGP), colour));
                },
                None => {},
            }
            n -= 1;
        }
        None
    }

    /// Composites the emulated video and the layers, lowest first, into
    /// one frame of three bytes a pixel.
    pub fn update_screen(&self, mmu: &Mmu) -> (out: Vec<u8>)
        requires
            self@.wf(),
            mmu@.wf(),
        ensures
            out@ == self@.composite(mmu@),
            out@.len() == 69120,
            all_gray(out@),
    {
        let mut out: Vec<u8> = Vec::new();
        let mut p: usize = 0;
        while p < 23040
            invariant
                self@.wf(),
                mmu@.wf(),
                p <= 23040,
                out@.len() == 3 * p,
                all_gray(out@),
                forall|i: int| 0 <= i < 3 * p ==> out@[i] == self@.composite_byte(mmu@, i),
            decreases 23040 - p,
        {
            let at: usize = 3 * p;
            match self.overlay_shade_of(mmu, p % 160, p / 160) {
                Some(shade) => {
                    let level: u8 = gray_of(shade);
                    out.push(level);
                    out.push(level);
                    out.push(level);
                },
                None => {
                    assert(is_gray_level(self@.frame[at as int]));
                    assert(is_gray_level(self@.frame[at + 1]));
                    assert(is_gray_level(self@.frame[at + 2]));
                    out.push(self.frame[at]);
                    out.push(self.frame[at + 1]);
                    out.push(self.frame[at + 2]);
                },
            }
            proof {
                assert forall|i: int| 3 * p <= i < 3 * p + 3 implies out@[i]
                    == self@.composite_byte(mmu@, i) by {
                    assert(i / 3 == p);
                    assert(i / 480 == p / 160);
                }
            }
            p += 1;
        }
        assert(out@ =~= self@.composite(mmu@));
        out
    }

    /// A copy of the frame of the emulated video, without the layers.
    pub fn frame(&self) -> (out: Vec<u8>)
        ensures
            out@ == self@.frame,
    {
        crate::mbc5::copy_bytes(&self.frame)
    }
}

} // verus!
