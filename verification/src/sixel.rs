//! Presenting a frame as sixel: its encoding, the cache that tells a new
//! frame from a repeated one, the cells of a tile-wise difference, and the
//! placing of an encoded image in a terminal buffer.

use ratatui::buffer::Buffer;
use vstd::prelude::*;

verus! {

/// What `String::from_utf8_lossy` makes of `bytes`: their text, with a
/// replacement character for each sequence that is not UTF-8.
pub uninterp spec fn lossy_text(bytes: Seq<u8>) -> Seq<char>;

/// `String::from_utf8_lossy` of std, made an owned string.
#[verifier::external_body]
pub(crate) fn utf8_lossy(bytes: &Vec<u8>) -> (out: String)
    ensures
        out@ == lossy_text(bytes@),
{
    String::from_utf8_lossy(bytes).to_string()
}

/// Why a frame was not encoded.
#[derive(Clone, Copy, Debug, PartialEq, Eq, Structural)]
pub enum SixelError {
    /// The bytes are not a frame of the size that the cache was made for,
    /// three bytes a pixel, or that size is not one that is encoded.
    NotAFrame,
    /// The encoder reported an error.
    Encoder,
}

/// The longest side of a frame that is handed to the encoder. The screen
/// of the console, 160 by 144 pixels, lies well within it.
pub const LARGEST_SIDE: i32 = 256;

/// Whether `bytes` are a frame of `width` by `height` pixels, three bytes
/// a pixel, with neither side longer than the longest that is encoded.
pub open spec fn is_frame(bytes: Seq<u8>, width: i32, height: i32) -> bool {
    &&& 1 <= width <= LARGEST_SIDE
    &&& 1 <= height <= LARGEST_SIDE
    &&& bytes.len() == 3 * width * height
}

/// Whether the encoder of icy_sixel, with the settings named at
/// `frame_sixel`, reports no error on a frame.
pub uninterp spec fn frame_encodes(bytes: Seq<u8>, width: i32, height: i32) -> bool;

/// The sixel data that the encoder of icy_sixel makes of a frame, told to
/// take the bytes as red, green and blue, to make a palette of at most
/// 256 colours of what it finds in them, not to diffuse, and to prefer a
/// short result.
pub uninterp spec fn frame_sixel(bytes: Seq<u8>, width: i32, height: i32) -> Seq<u8>;

/// `sixel_dither::initialize` and `sixel_output::encode` of icy_sixel,
/// with the objects that they need made and set up before them: the
/// sixel data of the frame, or nothing where the encoder reports an
/// error. The result depends on the bytes and the size alone.
///
/// The frame has to have three bytes for each pixel, at least one pixel,
/// and sides of at most `LARGEST_SIDE`, for two reasons. The encoder
/// computes in 32 bits with a sign: it multiplies the sides and the bytes
/// of a pixel, and when it samples the frame it walks an index through the
/// bytes in steps, the last of which leads past the end; with at most
/// 196608 bytes all of this stays far below 2147483647. And for every run
/// of a colour in a band of six rows it keeps a copy of the band's map, up
/// to 1536 bytes times the square of the width in all, which is about a
/// hundred megabytes at the largest width. On such a frame its palette
/// has between one and 256 colours, each part of them at most 248, so
/// that it makes its lookup table and every index that it computes lies
/// in what it has allocated.
#[verifier::external_body]
pub(crate) fn encode_frame(bytes: &[u8], width: i32, height: i32) -> (out: Option<Vec<u8>>)
    requires
        is_frame(bytes@, width, height),
    ensures
        out.is_some() == frame_encodes(bytes@, width, height),
        out matches Some(data) ==> data@ == frame_sixel(bytes@, width, height),
{
    let mut data: Vec<u8> = Vec::new();
    let mut output = icy_sixel::output::sixel_output::new(&mut data);
    output.set_encode_policy(icy_sixel::EncodePolicy::SIZE);
    let mut dither = icy_sixel::dither::sixel_dither::new(256).ok()?;
    let (format, largest) = (icy_sixel::PixelFormat::RGB888, icy_sixel::MethodForLargest::Norm);
    let (rep, quality) = (icy_sixel::MethodForRep::Auto, icy_sixel::Quality::LOW);
    dither.initialize(bytes, width, height, format, largest, rep, quality).ok()?;
    dither.set_pixelformat(format);
    dither.set_diffusion_type(icy_sixel::DiffusionMethod::None);
    output.encode(&mut bytes.to_vec(), width, height, 0, &mut dither).ok()?;
    drop(output);
    Some(data)
}

/// Whether `bytes` are a frame of `width` by `height` pixels.
pub fn check_frame(bytes: &[u8], width: i32, height: i32) -> (out: bool)
    ensures
        out == is_frame(bytes@, width, height),
{
    if width < 1 || width > LARGEST_SIDE || height < 1 || height > LARGEST_SIDE {
        return false;
    }
    let w: u64 = width as u64;
    let h: u64 = height as u64;
    assert(w * h <= 256 * 256) by (nonlinear_arith)
        requires
            w <= 256,
            h <= 256,
    ;
    let pixels: u64 = w * h;
    assert(3 * width * height == 3 * pixels) by (nonlinear_arith)
        requires
            pixels == w * h,
            w == width,
            h == height,
    ;
    bytes.len() as u64 == 3 * pixels
}

/// The mathematical content of the cache.
pub struct CachedSixelModel {
    pub sixel: Seq<char>,
    pub width: i32,
    pub height: i32,
    pub sixel_data: Seq<u8>,
}

impl CachedSixelModel {
    /// The text is the text of the cached data, where data is cached.
    pub open spec fn wf(self) -> bool {
        self.sixel_data.len() > 0 ==> self.sixel == lossy_text(self.sixel_data)
    }

    /// Whether `data` has to be shown: nothing is cached yet, or what is
    /// cached differs.
    pub open spec fn is_news(self, data: Seq<u8>) -> bool {
        self.sixel_data.len() == 0 || self.sixel_data != data
    }

    /// The cache after the encoding `data` has come in.
    pub open spec fn accept(self, data: Seq<u8>) -> CachedSixelModel {
        if self.is_news(data) {
            CachedSixelModel { sixel: lossy_text(data), sixel_data: data, ..self }
        } else {
            self
        }
    }
}

/// The last encoded frame, kept to tell whether the next one differs.
pub struct CachedSixel {
    sixel: String,
    width: i32,
    height: i32,
    sixel_data: Vec<u8>,
}

impl View for CachedSixel {
    type V = CachedSixelModel;

    closed spec fn view(&self) -> CachedSixelModel {
        CachedSixelModel {
            sixel: self.sixel@,
            width: self.width,
            height: self.height,
            sixel_data: self.sixel_data@,
        }
    }
}

impl CachedSixel {
    #[verifier::type_invariant]
    spec fn inv(self) -> bool {
        self@.wf()
    }

    /// An empty cache for frames of `width` by `height` pixels.
    pub fn new(width: usize, height: usize) -> (out: CachedSixel)
        requires
            width <= i32::MAX,
            height <= i32::MAX,
        ensures
            out@ == (CachedSixelModel {
                sixel: Seq::empty(),
                width: width as i32,
                height: height as i32,
                sixel_data: Seq::empty(),
            }),
            out@.wf(),
    {
        CachedSixel {
            sixel: String::new(),
            height: height as i32,
            width: width as i32,
            sixel_data: Vec::new(),
        }
    }

    /// The text of the cached frame: the text of the cached data, where
    /// data is cached.
    pub fn get_sixel(&self) -> (out: String)
        ensures
            out@ == self@.sixel,
            self@.wf(),
    {
        proof {
            use_type_invariant(self);
        }
        self.sixel.clone()
    }

    /// The width that frames are encoded with.
    pub fn width(&self) -> (out: i32)
        ensures
            out == self@.width,
    {
        self.width
    }

    /// The height that frames are encoded with.
    pub fn height(&self) -> (out: i32)
        ensures
            out == self@.height,
    {
        self.height
    }

    /// Encodes the frame `bytes` and takes the encoding as `accept` does.
    /// It succeeds exactly on a frame of the cache's size on which the
    /// encoder reports no error; in every other case the cache stays as it
    /// is.
    pub fn tick(&mut self, bytes: &[u8]) -> (out: Result<Option<String>, SixelError>)
        ensures
            out.is_ok() == (is_frame(bytes@, old(self)@.width, old(self)@.height) && frame_encodes(
                bytes@,
                old(self)@.width,
                old(self)@.height,
            )),
            match out {
                Ok(shown) => {
                    let data = frame_sixel(bytes@, old(self)@.width, old(self)@.height);
                    &&& final(self)@ == old(self)@.accept(data)
                    &&& match shown {
                        Some(text) => old(self)@.is_news(data) && text@ == lossy_text(data),
                        None => !old(self)@.is_news(data),
                    }
                },
                Err(e) => final(self)@ == old(self)@ && (e == SixelError::NotAFrame) == !is_frame(
                    bytes@,
                    old(self)@.width,
                    old(self)@.height,
                ),
            },
            final(self)@.wf(),
    {
        if !check_frame(bytes, self.width, self.height) {
            proof {
                use_type_invariant(&*self);
            }
            return Err(SixelError::NotAFrame);
        }
        match encode_frame(bytes, self.width, self.height) {
            Some(data) => Ok(self.accept(data)),
            None => {
                proof {
                    use_type_invariant(&*self);
                }
                Err(SixelError::Encoder)
            },
        }
    }

    /// Takes the encoding `data` of the current frame. Where it is news it
    /// is cached and its text returned, to be shown; where it repeats what
    /// is cached, nothing changes and nothing is returned.
    pub fn accept(&mut self, data: Vec<u8>) -> (out: Option<String>)
        ensures
            final(self)@ == old(self)@.accept(data@),
            match out {
                Some(text) => old(self)@.is_news(data@) && text@ == lossy_text(data@),
                None => !old(self)@.is_news(data@),
            },
            final(self)@.wf(),
    {
        proof {
            use_type_invariant(&*self);
        }
        if self.sixel_data.len() != 0 && same_bytes(&self.sixel_data, &data) {
            return None;
        }
        let text: String = utf8_lossy(&data);
        let shown: String = text.clone();
        *self = CachedSixel { sixel: text, width: self.width, height: self.height, sixel_data: data };
        Some(shown)
    }
}

/// Whether two vectors hold the same bytes.
pub fn same_bytes(a: &Vec<u8>, b: &Vec<u8>) -> (out: bool)
    ensures
        out == (a@ == b@),
{
    if a.len() != b.len() {
        return false;
    }
    let mut i: usize = 0;
    while i < a.len()
        invariant
            a@.len() == b@.len(),
            i <= a@.len(),
            forall|j: int| 0 <= j < i ==> a@[j] == b@[j],
        decreases a.len() - i,
    {
        if a[i] != b[i] {
            return false;
        }
        i += 1;
    }
    assert(a@ =~= b@);
    true
}

/// One tile that differs between two frames: its column and row, and the
/// text of its new bytes.
pub struct TileChange {
    pub x: usize,
    pub y: usize,
    pub text: String,
}

/// The mathematical content of a `TileChange`.
pub struct TileChangeModel {
    pub x: nat,
    pub y: nat,
    pub text: Seq<char>,
}

impl View for TileChange {
    type V = TileChangeModel;

    open spec fn view(&self) -> TileChangeModel {
        TileChangeModel { x: self.x as nat, y: self.y as nat, text: self.text@ }
    }
}

/// The number of chunks of `size` bytes that `len` bytes make, the last
/// one possibly shorter.
pub open spec fn chunk_count(len: nat, size: nat) -> nat
    recommends
        size > 0,
{
    ((len + size - 1) / size as int) as nat
}

/// Chunk number `k` of `data` cut into chunks of `size` bytes.
pub open spec fn chunk(data: Seq<u8>, size: nat, k: nat) -> Seq<u8>
    recommends
        size > 0,
        k * size < data.len(),
{
    data.subrange(
        (k * size) as int,
        if (k + 1) * size <= data.len() {
            ((k + 1) * size) as int
        } else {
            data.len() as int
        },
    )
}

/// The changes for the first `n` tiles: one for each tile whose three
/// bytes a pixel differ between the two frames, in the order of the tiles.
pub open spec fn tile_changes(
    old_data: Seq<u8>,
    new_data: Seq<u8>,
    tiles_x: nat,
    tile_size: nat,
    n: nat,
) -> Seq<TileChangeModel>
    decreases n,
{
    if n == 0 {
        Seq::empty()
    } else {
        let k = (n - 1) as nat;
        let before = tile_changes(old_data, new_data, tiles_x, tile_size, k);
        if chunk(old_data, 3 * tile_size, k) != chunk(new_data, 3 * tile_size, k) {
            before.push(
                TileChangeModel {
                    x: k % tiles_x,
                    y: k / tiles_x,
                    text: lossy_text(chunk(new_data, 3 * tile_size, k)),
                },
            )
        } else {
            before
        }
    }
}

/// The views of the items of a vector of changes.
pub open spec fn views_of(changes: Seq<TileChange>) -> Seq<TileChangeModel> {
    Seq::new(changes.len(), |i: int| changes[i]@)
}

/// A copy of the bytes of `data` from `from` up to `to`.
fn slice_of(data: &Vec<u8>, from: usize, to: usize) -> (out: Vec<u8>)
    requires
        from <= to <= data@.len(),
    ensures
        out@ == data@.subrange(from as int, to as int),
{
    let mut out: Vec<u8> = Vec::new();
    let mut i: usize = from;
    while i < to
        invariant
            from <= i <= to <= data@.len(),
            out@ == data@.subrange(from as int, i as int),
        decreases to - i,
    {
        out.push(data[i]);
        assert(data@.subrange(from as int, i as int).push(data@[i as int]) =~= data@.subrange(
            from as int,
            i + 1,
        ));
        i += 1;
    }
    out
}

/// The tiles that differ between two frames of equal length, each frame
/// three bytes a pixel and `width` pixels a row, cut into tiles of
/// `tile_size` pixels in a row.
pub fn diff(
    old_data: &Vec<u8>,
    new_data: &Vec<u8>,
    width: usize,
    height: usize,
    tile_size: usize,
) -> (out: Option<Vec<TileChange>>)
    requires
        old_data@.len() == new_data@.len(),
        0 < tile_size <= width,
        3 * tile_size <= usize::MAX,
        old_data@.len() + 3 * tile_size <= usize::MAX,
    ensures
        out matches Some(changes) && views_of(changes@) == tile_changes(
            old_data@,
            new_data@,
            (width / tile_size) as nat,
            tile_size as nat,
            chunk_count(old_data@.len(), (3 * tile_size) as nat),
        ),
{
    let mut changes: Vec<TileChange> = Vec::new();
    let tiles_x: usize = width / tile_size;
    assert(width / tile_size > 0) by (nonlinear_arith)
        requires
            0 < tile_size <= width,
    ;
    let size: usize = tile_size * 3;
    let len: usize = old_data.len();
    let count: usize = (len + size - 1) / size;
    let mut index: usize = 0;
    while index < count
        invariant
            old_data@.len() == new_data@.len() == len,
            size == 3 * tile_size,
            size > 0,
            tiles_x == width / tile_size,
            tiles_x > 0,
            count == chunk_count(len as nat, size as nat),
            len + size <= usize::MAX,
            index <= count,
            views_of(changes@) == tile_changes(
                old_data@,
                new_data@,
                tiles_x as nat,
                tile_size as nat,
                index as nat,
            ),
        decreases count - index,
    {
        assert(index * size < len) by (nonlinear_arith)
            requires
                index < count,
                count == (len + size - 1) / size as int,
                size > 0,
        ;
        let from: usize = index * size;
        let to: usize = if len - from >= size { from + size } else { len };
        assert((index + 1) * size == from + size) by (nonlinear_arith)
            requires
                from == index * size,
        ;
        let old_chunk: Vec<u8> = slice_of(old_data, from, to);
        let new_chunk: Vec<u8> = slice_of(new_data, from, to);
        assert(old_chunk@ == chunk(old_data@, (3 * tile_size) as nat, index as nat));
        assert(new_chunk@ == chunk(new_data@, (3 * tile_size) as nat, index as nat));
        if !same_bytes(&old_chunk, &new_chunk) {
            let change = TileChange {
                x: index % tiles_x,
                y: index / tiles_x,
                text: utf8_lossy(&new_chunk),
            };
            changes.push(change);
            assert(views_of(changes@) =~= tile_changes(
                old_data@,
                new_data@,
                tiles_x as nat,
                tile_size as nat,
                index as nat,
            ).push(change@));
        }
        index += 1;
    }
    Some(changes)
}

/// A rectangle of terminal cells.
#[derive(Clone, Copy, Debug, PartialEq, Eq, Structural)]
pub struct Rect {
    pub x: u16,
    pub y: u16,
    pub width: u16,
    pub height: u16,
}

/// `a + b`, kept to what sixteen bits hold.
pub open spec fn saturating_sum(a: u16, b: u16) -> u16 {
    if a + b > 0xFFFF {
        0xFFFFu16
    } else {
        (a + b) as u16
    }
}

impl Rect {
    pub open spec fn spec_right(self) -> u16 {
        saturating_sum(self.x, self.width)
    }

    pub open spec fn spec_bottom(self) -> u16 {
        saturating_sum(self.y, self.height)
    }

    /// Whether the cell at column `x` and row `y` lies in the rectangle.
    pub open spec fn holds(self, x: int, y: int) -> bool {
        self.x <= x < self.spec_right() && self.y <= y < self.spec_bottom()
    }

    /// Whether every cell of `inner` lies in the rectangle.
    pub open spec fn covers(self, inner: Rect) -> bool {
        self.x <= inner.x && inner.spec_right() <= self.spec_right() && self.y <= inner.y
            && inner.spec_bottom() <= self.spec_bottom()
    }

    /// The first column behind the rectangle.
    #[verifier::when_used_as_spec(spec_right)]
    pub fn right(self) -> (out: u16)
        ensures
            out == self.spec_right(),
    {
        self.x.saturating_add(self.width)
    }

    /// The first row below the rectangle.
    #[verifier::when_used_as_spec(spec_bottom)]
    pub fn bottom(self) -> (out: u16)
        ensures
            out == self.spec_bottom(),
    {
        self.y.saturating_add(self.height)
    }
}

/// The width and height that `Rect::new` of ratatui gives to a rectangle
/// asked for with more than 65535 cells: it scales both down, keeping
/// their ratio.
pub uninterp spec fn clipped_size(width: u16, height: u16) -> (u16, u16);

/// The rectangle that `Rect::new` of ratatui makes.
pub open spec fn new_rect(x: u16, y: u16, width: u16, height: u16) -> Rect {
    if width as int * height as int <= 0xFFFF {
        Rect { x, y, width, height }
    } else {
        Rect { x, y, width: clipped_size(width, height).0, height: clipped_size(width, height).1 }
    }
}

/// `Rect::new` of ratatui: the rectangle asked for, where it has at most
/// 65535 cells, and else one at the same place with a clipped size, which
/// is in neither direction more than what was asked for.
#[verifier::external_body]
pub(crate) fn rect_new(x: u16, y: u16, width: u16, height: u16) -> (out: Rect)
    ensures
        out.x == x,
        out.y == y,
        (out.width, out.height) == if width as int * height as int <= 0xFFFF {
            (width, height)
        } else {
            clipped_size(width, height)
        },
        out.width <= width,
        out.height <= height,
{
    let r = ratatui::layout::Rect::new(x, y, width, height);
    Rect { x: r.x, y: r.y, width: r.width, height: r.height }
}

/// Where an image of the size of `rect` is drawn in `area`, if it is: at
/// the top left corner of `area`; cut to `area` with `overdraw`, and
/// without it only where it fits.
pub open spec fn render_area_of(rect: Rect, area: Rect, overdraw: bool) -> Option<Rect> {
    if overdraw {
        Some(
            new_rect(
                area.x,
                area.y,
                if rect.width < area.width { rect.width } else { area.width },
                if rect.height < area.height { rect.height } else { area.height },
            ),
        )
    } else if rect.width > area.width || rect.height > area.height {
        None
    } else {
        Some(new_rect(area.x, area.y, rect.width, rect.height))
    }
}

/// Where an image of the size of `rect` is drawn in `area`: a rectangle
/// that lies inside `area`.
pub fn render_area(rect: Rect, area: Rect, overdraw: bool) -> (out: Option<Rect>)
    ensures
        out == render_area_of(rect, area, overdraw),
        out matches Some(r) ==> area.covers(r),
{
    if overdraw {
        return Some(
            rect_new(
                area.x,
                area.y,
                if rect.width < area.width { rect.width } else { area.width },
                if rect.height < area.height { rect.height } else { area.height },
            ),
        );
    }
    if rect.width > area.width || rect.height > area.height {
        return None;
    }
    Some(rect_new(area.x, area.y, rect.width, rect.height))
}

#[verifier::external_type_specification]
#[verifier::external_body]
pub struct ExBuffer(Buffer);

/// The area of the terminal that a buffer stands for.
pub uninterp spec fn buffer_area(buf: Buffer) -> Rect;

/// The symbol of each cell of a buffer, by column and row on the
/// terminal.
pub uninterp spec fn buffer_symbols(buf: Buffer) -> Map<(int, int), Seq<char>>;

/// For each cell of a buffer, by column and row on the terminal, whether
/// it is skipped when the buffer is brought to the screen.
pub uninterp spec fn buffer_skips(buf: Buffer) -> Map<(int, int), bool>;

/// The number of cells that a buffer holds.
pub uninterp spec fn buffer_cells(buf: Buffer) -> nat;

/// Whether a buffer holds one cell for each position of its area, and at
/// most 65535 of them.
pub open spec fn buffer_sound(buf: Buffer) -> bool {
    buffer_area(buf).width * buffer_area(buf).height <= 0xFFFF && buffer_cells(buf)
        == buffer_area(buf).width * buffer_area(buf).height
}

/// The length of the field `content` of a ratatui buffer.
#[verifier::external_body]
pub(crate) fn cells_of(buf: &Buffer) -> (out: usize)
    ensures
        out == buffer_cells(*buf),
{
    buf.content.len()
}

/// The field `area` of a ratatui buffer.
#[verifier::external_body]
pub(crate) fn area_of(buf: &Buffer) -> (out: Rect)
    ensures
        out == buffer_area(*buf),
{
    let a = buf.area;
    Rect { x: a.x, y: a.y, width: a.width, height: a.height }
}

/// `Buffer::get_mut` and `Cell::set_symbol` of ratatui: the cell at
/// (`x`, `y`) gets the symbol, and nothing else changes. The cell has to
/// lie in the buffer's area, and the buffer to hold one cell for each
/// position of its area and at most 65535 of them, so that the place of
/// the cell can be computed and is there.
#[verifier::external_body]
pub(crate) fn set_symbol_at(buf: &mut Buffer, x: u16, y: u16, symbol: &str)
    requires
        buffer_area(*old(buf)).holds(x as int, y as int),
        buffer_sound(*old(buf)),
    ensures
        buffer_area(*final(buf)) == buffer_area(*old(buf)),
        buffer_cells(*final(buf)) == buffer_cells(*old(buf)),
        buffer_symbols(*final(buf)) == buffer_symbols(*old(buf)).insert(
            (x as int, y as int),
            symbol@,
        ),
        buffer_skips(*final(buf)) == buffer_skips(*old(buf)),
{
    buf.get_mut(x, y).set_symbol(symbol);
}

/// `Buffer::get_mut` and `Cell::set_skip` of ratatui: the cell at
/// (`x`, `y`) gets the mark, and nothing else changes. The demands are
/// those of `set_symbol_at`.
#[verifier::external_body]
pub(crate) fn set_skip_at(buf: &mut Buffer, x: u16, y: u16, skip: bool)
    requires
        buffer_area(*old(buf)).holds(x as int, y as int),
        buffer_sound(*old(buf)),
    ensures
        buffer_area(*final(buf)) == buffer_area(*old(buf)),
        buffer_cells(*final(buf)) == buffer_cells(*old(buf)),
        buffer_symbols(*final(buf)) == buffer_symbols(*old(buf)),
        buffer_skips(*final(buf)) == buffer_skips(*old(buf)).insert((x as int, y as int), skip),
{
    buf.get_mut(x, y).set_skip(skip);
}

/// Whether an image can be drawn into `r` of the buffer: `r` is not empty
/// and lies in the buffer's area, and the buffer holds one cell for each
/// position of its area and at most 65535 of them.
pub open spec fn drawable(r: Rect, buf: Buffer) -> bool {
    r.x < r.spec_right() && r.y < r.spec_bottom() && buffer_area(buf).covers(r) && buffer_sound(
        buf,
    )
}

/// The skip marks after an image has been drawn into `r`: every cell of
/// `r` but its first is marked.
pub open spec fn skips_after(before: Map<(int, int), bool>, r: Rect) -> Map<(int, int), bool> {
    Map::new(
        |k: (int, int)| before.dom().contains(k) || r.holds(k.0, k.1) && k != (r.x as int, r.y as int),
        |k: (int, int)|
            if r.holds(k.0, k.1) && k != (r.x as int, r.y as int) {
                true
            } else {
                before[k]
            },
    )
}

/// Draws the encoded image `data` of the size of `rect` into `area` of
/// the buffer: its text becomes the symbol of the first cell, and every
/// other cell that the image covers is marked to be skipped, so that
/// nothing is written over the image. Where the image is not drawn the
/// buffer stays as it is.
pub fn render_sixel(rect: Rect, data: &str, area: Rect, buf: &mut Buffer, overdraw: bool)
    requires
        render_area_of(rect, area, overdraw) matches Some(r) ==> drawable(r, *old(buf)),
    ensures
        buffer_area(*final(buf)) == buffer_area(*old(buf)),
        buffer_cells(*final(buf)) == buffer_cells(*old(buf)),
        match render_area_of(rect, area, overdraw) {
            None => buffer_symbols(*final(buf)) == buffer_symbols(*old(buf)) && buffer_skips(
                *final(buf),
            ) == buffer_skips(*old(buf)),
            Some(r) => buffer_symbols(*final(buf)) == buffer_symbols(*old(buf)).insert(
                (r.x as int, r.y as int),
                data@,
            ) && buffer_skips(*final(buf)) == skips_after(buffer_skips(*old(buf)), r),
        },
{
    let r: Rect = match render_area(rect, area, overdraw) {
        None => {
            return ;
        },
        Some(r) => r,
    };
    set_symbol_at(buf, r.x, r.y, data);
    let ghost before = buffer_skips(*buf);
    let right: u16 = r.right();
    let bottom: u16 = r.bottom();
    let mut y: u16 = r.y;
    while y < bottom
        invariant
            drawable(r, *buf),
            buffer_area(*buf) == buffer_area(*old(buf)),
            buffer_symbols(*buf) == buffer_symbols(*old(buf)).insert(
                (r.x as int, r.y as int),
                data@,
            ),
            right == r.spec_right(),
            bottom == r.spec_bottom(),
            r.y <= y <= bottom,
            buffer_skips(*buf) =~= Map::new(
                |k: (int, int)|
                    before.dom().contains(k) || r.holds(k.0, k.1) && k != (r.x as int, r.y as int)
                        && k.1 < y,
                |k: (int, int)|
                    if r.holds(k.0, k.1) && k != (r.x as int, r.y as int) && k.1 < y {
                        true
                    } else {
                        before[k]
                    },
            ),
        decreases bottom - y,
    {
        let mut x: u16 = r.x;
        while x < right
            invariant
                drawable(r, *buf),
                buffer_area(*buf) == buffer_area(*old(buf)),
                buffer_symbols(*buf) == buffer_symbols(*old(buf)).insert(
                    (r.x as int, r.y as int),
                    data@,
                ),
                right == r.spec_right(),
                bottom == r.spec_bottom(),
                r.y <= y < bottom,
                r.x <= x <= right,
                buffer_skips(*buf) =~= Map::new(
                    |k: (int, int)|
                        before.dom().contains(k) || r.holds(k.0, k.1) && k != (
                            r.x as int,
                            r.y as int,
                        ) && (k.1 < y || k.1 == y && k.0 < x),
                    |k: (int, int)|
                        if r.holds(k.0, k.1) && k != (r.x as int, r.y as int) && (k.1 < y || k.1
                            == y && k.0 < x) {
                            true
                        } else {
                            before[k]
                        },
                ),
            decreases right - x,
        {
            if !(x == r.x && y == r.y) {
                set_skip_at(buf, x, y, true);
            }
            x += 1;
        }
        y += 1;
    }
    assert(buffer_skips(*buf) =~= skips_after(before, r));
}

/// Draws the encoded image as `render_sixel` does, where the buffer has
/// room for it; returns whether it had. Where it has not, the buffer stays
/// as it is.
pub fn render_sixel_checked(
    rect: Rect,
    data: &str,
    area: Rect,
    buf: &mut Buffer,
    overdraw: bool,
) -> (done: bool)
    ensures
        done == match render_area_of(rect, area, overdraw) {
            Some(r) => drawable(r, *old(buf)),
            None => true,
        },
        buffer_area(*final(buf)) == buffer_area(*old(buf)),
        buffer_cells(*final(buf)) == buffer_cells(*old(buf)),
        !done ==> buffer_symbols(*final(buf)) == buffer_symbols(*old(buf)) && buffer_skips(
            *final(buf),
        ) == buffer_skips(*old(buf)),
        done ==> match render_area_of(rect, area, overdraw) {
            None => buffer_symbols(*final(buf)) == buffer_symbols(*old(buf)) && buffer_skips(
                *final(buf),
            ) == buffer_skips(*old(buf)),
            Some(r) => buffer_symbols(*final(buf)) == buffer_symbols(*old(buf)).insert(
                (r.x as int, r.y as int),
                data@,
            ) && buffer_skips(*final(buf)) == skips_after(buffer_skips(*old(buf)), r),
        },
{
    let whole: Rect = area_of(buf);
    let cells: usize = cells_of(buf);
    let w: u32 = whole.width as u32;
    let h: u32 = whole.height as u32;
    assert(w * h <= 0xFFFF * 0xFFFF) by (nonlinear_arith)
        requires
            w <= 0xFFFF,
            h <= 0xFFFF,
    ;
    let fits: bool = match render_area(rect, area, overdraw) {
        None => true,
        Some(r) => r.x < r.right() && r.y < r.bottom() && whole.x <= r.x && r.right()
            <= whole.right() && whole.y <= r.y && r.bottom() <= whole.bottom() && w * h <= 0xFFFF
            && cells as u64 == (w * h) as u64,
    };
    if fits {
        render_sixel(rect, data, area, buf, overdraw);
    }
    fits
}

} // verus!
