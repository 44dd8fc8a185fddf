use vstd::prelude::*;

use rustc_hash::FxHashMap;

verus! {

/// The 64 colours of the NES palette as red, green and blue.
pub open spec fn nes_palette() -> Seq<[u8; 3]> {
    seq![
        [0x80u8, 0x80u8, 0x80u8],
        [0x00u8, 0x3Du8, 0xA6u8],
        [0x00u8, 0x12u8, 0xB0u8],
        [0x44u8, 0x00u8, 0x96u8],
        [0xA1u8, 0x00u8, 0x5Eu8],
        [0xC7u8, 0x00u8, 0x28u8],
        [0xBAu8, 0x06u8, 0x00u8],
        [0x8Cu8, 0x17u8, 0x00u8],
        [0x5Cu8, 0x2Fu8, 0x00u8],
        [0x10u8, 0x45u8, 0x00u8],
        [0x05u8, 0x4Au8, 0x00u8],
        [0x00u8, 0x47u8, 0x2Eu8],
        [0x00u8, 0x41u8, 0x66u8],
        [0x00u8, 0x00u8, 0x00u8],
        [0x05u8, 0x05u8, 0x05u8],
        [0x05u8, 0x05u8, 0x05u8],
        [0xC7u8, 0xC7u8, 0xC7u8],
        [0x00u8, 0x77u8, 0xFFu8],
        [0x21u8, 0x55u8, 0xFFu8],
        [0x82u8, 0x37u8, 0xFAu8],
        [0xEBu8, 0x2Fu8, 0xB5u8],
        [0xFFu8, 0x29u8, 0x50u8],
        [0xFFu8, 0x22u8, 0x00u8],
        [0xD6u8, 0x32u8, 0x00u8],
        [0xC4u8, 0x62u8, 0x00u8],
        [0x35u8, 0x80u8, 0x00u8],
        [0x05u8, 0x8Fu8, 0x00u8],
        [0x00u8, 0x8Au8, 0x55u8],
        [0x00u8, 0x99u8, 0xCCu8],
        [0x21u8, 0x21u8, 0x21u8],
        [0x09u8, 0x09u8, 0x09u8],
        [0x09u8, 0x09u8, 0x09u8],
        [0xFFu8, 0xFFu8, 0xFFu8],
        [0x0Fu8, 0xD7u8, 0xFFu8],
        [0x69u8, 0xA2u8, 0xFFu8],
        [0xD4u8, 0x80u8, 0xFFu8],
        [0xFFu8, 0x45u8, 0xF3u8],
        [0xFFu8, 0x61u8, 0x8Bu8],
        [0xFFu8, 0x88u8, 0x33u8],
        [0xFFu8, 0x9Cu8, 0x12u8],
        [0xFAu8, 0xBCu8, 0x20u8],
        [0x9Fu8, 0xE3u8, 0x0Eu8],
        [0x2Bu8, 0xF0u8, 0x35u8],
        [0x0Cu8, 0xF0u8, 0xA4u8],
        [0x05u8, 0xFBu8, 0xFFu8],
        [0x5Eu8, 0x5Eu8, 0x5Eu8],
        [0x0Du8, 0x0Du8, 0x0Du8],
        [0x0Du8, 0x0Du8, 0x0Du8],
        [0xFFu8, 0xFFu8, 0xFFu8],
        [0xA6u8, 0xFCu8, 0xFFu8],
        [0xB3u8, 0xECu8, 0xFFu8],
        [0xDAu8, 0xABu8, 0xEBu8],
        [0xFFu8, 0xA8u8, 0xF9u8],
        [0xFFu8, 0xABu8, 0xB3u8],
        [0xFFu8, 0xD2u8, 0xB0u8],
        [0xFFu8, 0xEFu8, 0xA6u8],
        [0xFFu8, 0xF7u8, 0x9Cu8],
        [0xD7u8, 0xE8u8, 0x95u8],
        [0xA6u8, 0xEDu8, 0xAFu8],
        [0xA2u8, 0xF2u8, 0xDAu8],
        [0x99u8, 0xFFu8, 0xFCu8],
        [0xDDu8, 0xDDu8, 0xDDu8],
        [0x11u8, 0x11u8, 0x11u8],
        [0x11u8, 0x11u8, 0x11u8],
    ]
}

/// Where the pixel (x, y) starts in a buffer of rows `width` tiles of eight
/// RGB pixels wide.
pub open spec fn pixel_offset(width: int, x: u8, y: u8) -> int {
    y * (width * 24) + x * 3
}

/// An RGB picture of `PLAYGROUND_WIDTH` tiles of eight pixels per row.
pub struct TextureBuffer<const PLAYGROUND_WIDTH: u32, const VISIBLE_LINES: u16> {
    pub buffer: [u8; 184320],
    pub colors: [[u8; 3]; 64],
}

impl<const PLAYGROUND_WIDTH: u32, const VISIBLE_LINES: u16> TextureBuffer<
    PLAYGROUND_WIDTH,
    VISIBLE_LINES,
> {
    /// The colour table.
    pub open spec fn colors_of(&self) -> Seq<[u8; 3]> {
        self.colors@
    }

    /// A black picture with the NES palette as its colour table.
    pub fn new() -> (r: Self)
        ensures
            forall|i: int| 0 <= i < 184320 ==> r.buffer@[i] == 0,
            r.colors_of() == nes_palette(),
    {
        let buffer: [u8; 184320] = [0; 184320];

        let colors = [
            [0x80, 0x80, 0x80],
            [0x00, 0x3D, 0xA6],
            [0x00, 0x12, 0xB0],
            [0x44, 0x00, 0x96],
            [0xA1, 0x00, 0x5E],
            [0xC7, 0x00, 0x28],
            [0xBA, 0x06, 0x00],
            [0x8C, 0x17, 0x00],
            [0x5C, 0x2F, 0x00],
            [0x10, 0x45, 0x00],
            [0x05, 0x4A, 0x00],
            [0x00, 0x47, 0x2E],
            [0x00, 0x41, 0x66],
            [0x00, 0x00, 0x00],
            [0x05, 0x05, 0x05],
            [0x05, 0x05, 0x05],
            [0xC7, 0xC7, 0xC7],
            [0x00, 0x77, 0xFF],
            [0x21, 0x55, 0xFF],
            [0x82, 0x37, 0xFA],
            [0xEB, 0x2F, 0xB5],
            [0xFF, 0x29, 0x50],
            [0xFF, 0x22, 0x00],
            [0xD6, 0x32, 0x00],
            [0xC4, 0x62, 0x00],
            [0x35, 0x80, 0x00],
            [0x05, 0x8F, 0x00],
            [0x00, 0x8A, 0x55],
            [0x00, 0x99, 0xCC],
            [0x21, 0x21, 0x21],
            [0x09, 0x09, 0x09],
            [0x09, 0x09, 0x09],
            [0xFF, 0xFF, 0xFF],
            [0x0F, 0xD7, 0xFF],
            [0x69, 0xA2, 0xFF],
            [0xD4, 0x80, 0xFF],
            [0xFF, 0x45, 0xF3],
            [0xFF, 0x61, 0x8B],
            [0xFF, 0x88, 0x33],
            [0xFF, 0x9C, 0x12],
            [0xFA, 0xBC, 0x20],
            [0x9F, 0xE3, 0x0E],
            [0x2B, 0xF0, 0x35],
            [0x0C, 0xF0, 0xA4],
            [0x05, 0xFB, 0xFF],
            [0x5E, 0x5E, 0x5E],
            [0x0D, 0x0D, 0x0D],
            [0x0D, 0x0D, 0x0D],
            [0xFF, 0xFF, 0xFF],
            [0xA6, 0xFC, 0xFF],
            [0xB3, 0xEC, 0xFF],
            [0xDA, 0xAB, 0xEB],
            [0xFF, 0xA8, 0xF9],
            [0xFF, 0xAB, 0xB3],
            [0xFF, 0xD2, 0xB0],
            [0xFF, 0xEF, 0xA6],
            [0xFF, 0xF7, 0x9C],
            [0xD7, 0xE8, 0x95],
            [0xA6, 0xED, 0xAF],
            [0xA2, 0xF2, 0xDA],
            [0x99, 0xFF, 0xFC],
            [0xDD, 0xDD, 0xDD],
            [0x11, 0x11, 0x11],
            [0x11, 0x11, 0x11],
        ];
        assert(colors@ =~= nes_palette());

        Self { buffer, colors }
    }

    fn pick_offset(&self, x: u8, y: u8) -> (r: usize)
        requires
            pixel_offset(PLAYGROUND_WIDTH as int, x, y) + 3 <= 184320,
            PLAYGROUND_WIDTH as int * 24 <= usize::MAX,
        ensures
            r == pixel_offset(PLAYGROUND_WIDTH as int, x, y),
    {
        let pitch = PLAYGROUND_WIDTH as usize * 8 * 3;
        assert((y as int) * pitch <= pixel_offset(PLAYGROUND_WIDTH as int, x, y)) by (nonlinear_arith)
            requires
                pitch == PLAYGROUND_WIDTH as int * 24,
                pixel_offset(PLAYGROUND_WIDTH as int, x, y) == y * (PLAYGROUND_WIDTH as int * 24) + x * 3,
                x >= 0,
        ;
        let offset = (y as usize) * pitch + x as usize * 3;
        offset as usize
    }

    /// Paints the pixel (x, y) with colour `colors_idx` of the colour table.
    pub fn insert_color(&mut self, x: u8, y: u8, colors_idx: usize)
        requires
            colors_idx < 64,
            pixel_offset(PLAYGROUND_WIDTH as int, x, y) + 3 <= 184320,
            PLAYGROUND_WIDTH as int * 24 <= usize::MAX,
        ensures
            final(self).colors_of() == old(self).colors_of(),
            final(self).buffer@ == painted(
                old(self).buffer@,
                pixel_offset(PLAYGROUND_WIDTH as int, x, y),
                old(self).colors_of()[colors_idx as int],
            ),
    {
        let offset = self.pick_offset(x, y);
        let color = self.colors[colors_idx];
        let ghost before = self.buffer@;
        for n in 0..3usize
            invariant
                offset + 3 <= 184320,
                self.colors == old(self).colors,
                color == old(self).colors@[colors_idx as int],
                self.buffer@.len() == 184320,
                forall|i: int|
                    0 <= i < 184320 ==> self.buffer@[i] == (if offset <= i < offset + n {
                        color[i - offset]
                    } else {
                        before[i]
                    }),
        {
            self.buffer[offset + n] = color[n];
        }
        assert(self.buffer@ =~= painted(before, offset as int, color));
    }
}

/// The buffer with the three bytes at `offset` replaced by a colour.
pub open spec fn painted(b: Seq<u8>, offset: int, c: [u8; 3]) -> Seq<u8> {
    b.update(offset, c[0]).update(offset + 1, c[1]).update(offset + 2, c[2])
}

/// Every pixel of row `y` lies in the buffer.
pub open spec fn row_fits(width: int, y: u8) -> bool {
    forall|x: u8| #[trigger] pixel_offset(width, x, y) + 3 <= 184320
}

/// The buffer after the pixels `dots`, each an X position and a colour
/// index, were painted in order on row `y`.
pub open spec fn paint_dots(
    b: Seq<u8>,
    width: int,
    y: u8,
    dots: Seq<(u8, usize)>,
    colors: Seq<[u8; 3]>,
) -> Seq<u8>
    decreases dots.len(),
{
    if dots.len() == 0 {
        b
    } else {
        painted(
            paint_dots(b, width, y, dots.drop_last(), colors),
            pixel_offset(width, dots.last().0, y),
            colors[dots.last().1 as int],
        )
    }
}

/// Painting two runs of pixels is painting the first and then the second.
pub proof fn lemma_paint_concat(
    b: Seq<u8>,
    width: int,
    y: u8,
    d1: Seq<(u8, usize)>,
    d2: Seq<(u8, usize)>,
    colors: Seq<[u8; 3]>,
)
    ensures
        paint_dots(b, width, y, d1 + d2, colors) == paint_dots(
            paint_dots(b, width, y, d1, colors),
            width,
            y,
            d2,
            colors,
        ),
    decreases d2.len(),
{
    if d2.len() == 0 {
        assert(d1 + d2 =~= d1);
    } else {
        assert((d1 + d2).drop_last() =~= d1 + d2.drop_last());
        assert((d1 + d2).last() == d2.last());
        lemma_paint_concat(b, width, y, d1, d2.drop_last(), colors);
    }
}

/// Painting keeps the buffer's length.
pub proof fn lemma_paint_len(
    b: Seq<u8>,
    width: int,
    y: u8,
    dots: Seq<(u8, usize)>,
    colors: Seq<[u8; 3]>,
)
    requires
        b.len() == 184320,
        width >= 0,
        row_fits(width, y),
    ensures
        paint_dots(b, width, y, dots, colors).len() == b.len(),
    decreases dots.len(),
{
    if dots.len() > 0 {
        lemma_paint_len(b, width, y, dots.drop_last(), colors);
        let o = pixel_offset(width, dots.last().0, y);
        assert(o + 3 <= 184320);
        assert(o >= 0) by (nonlinear_arith)
            requires
                o == y * (width * 24) + dots.last().0 * 3,
                o + 3 <= 184320,
                y >= 0,
                width >= 0,
                dots.last().0 >= 0,
        ;
    }
}

/// The colours of one line of sprites, by X position.
pub type ColorTable = FxHashMap<u8, usize>;

/// What a colour table holds: the colour stored under each X position.
pub uninterp spec fn color_table(m: ColorTable) -> Map<u8, usize>;

/// `FxHashMap::default`: a table with no entries.
#[verifier::external_body]
pub(crate) fn color_table_new() -> (m: ColorTable)
    ensures
        color_table(m).dom() == Set::<u8>::empty(),
{
    FxHashMap::default()
}

/// `HashMap::contains_key` on a colour table: whether the X position has a
/// colour.
#[verifier::external_body]
pub(crate) fn color_table_contains(m: &ColorTable, x: u8) -> (r: bool)
    ensures
        r == color_table(*m).contains_key(x),
{
    m.contains_key(&x)
}

/// `HashMap::insert` on a colour table: the X position now has the colour,
/// every other entry stays.
#[verifier::external_body]
pub(crate) fn color_table_insert(m: &mut ColorTable, x: u8, c: usize)
    ensures
        color_table(*final(m)) == color_table(*old(m)).insert(x, c),
{
    m.insert(x, c);
}

/// `HashMap::get` on a colour table, the colour copied out.
#[verifier::external_body]
pub(crate) fn color_table_get(m: &ColorTable, x: u8) -> (r: Option<usize>)
    ensures
        r == (if color_table(*m).contains_key(x) {
            Some(color_table(*m)[x])
        } else {
            None
        }),
{
    m.get(&x).copied()
}

/// The entries of a colour table for the X positions `0..n`, in order.
pub open spec fn table_dots(m: Map<u8, usize>, n: int) -> Seq<(u8, usize)>
    decreases n,
{
    if n <= 0 {
        Seq::empty()
    } else {
        let x = (n - 1) as u8;
        table_dots(m, n - 1) + if m.contains_key(x) {
            seq![(x, m[x])]
        } else {
            Seq::empty()
        }
    }
}

/// Every colour of the table is one the picture can show.
pub open spec fn table_colors_ok(m: Map<u8, usize>) -> bool {
    forall|x: u8| m.contains_key(x) ==> #[trigger] m[x] < 64
}

impl<const PLAYGROUND_WIDTH: u32, const VISIBLE_LINES: u16> TextureBuffer<
    PLAYGROUND_WIDTH,
    VISIBLE_LINES,
> {
    /// Paints row `y` with the colours of the table, each at its X
    /// position.
    pub fn insert_colors(&mut self, color_info: ColorTable, y: u8)
        requires
            table_colors_ok(color_table(color_info)),
            old(self).colors_of().len() == 64,
            row_fits(PLAYGROUND_WIDTH as int, y),
            PLAYGROUND_WIDTH as int * 24 <= usize::MAX,
        ensures
            final(self).buffer@ == paint_dots(
                old(self).buffer@,
                PLAYGROUND_WIDTH as int,
                y,
                table_dots(color_table(color_info), 256),
                old(self).colors_of(),
            ),
            final(self).colors_of() == old(self).colors_of(),
    {
        let ghost m = color_table(color_info);
        let ghost b0 = self.buffer@;
        let mut x: u16 = 0;
        while x < 256
            invariant
                x <= 256,
                m == color_table(color_info),
                table_colors_ok(m),
                self.colors_of() == old(self).colors_of(),
                self.colors_of().len() == 64,
                row_fits(PLAYGROUND_WIDTH as int, y),
                PLAYGROUND_WIDTH as int * 24 <= usize::MAX,
                self.buffer@ == paint_dots(
                    b0,
                    PLAYGROUND_WIDTH as int,
                    y,
                    table_dots(m, x as int),
                    self.colors_of(),
                ),
            decreases 256 - x,
        {
            let k = x as u8;
            match color_table_get(&color_info, k) {
                Some(c) => {
                    proof {
                        lemma_paint_concat(
                            b0,
                            PLAYGROUND_WIDTH as int,
                            y,
                            table_dots(m, x as int),
                            seq![(k, c)],
                            self.colors_of(),
                        );
                        assert(seq![(k, c)].drop_last() =~= Seq::<(u8, usize)>::empty());
                        assert(pixel_offset(PLAYGROUND_WIDTH as int, k, y) + 3 <= 184320);
                    }
                    let ghost before = self.buffer@;
                    self.insert_color(k, y, c);
                    proof {
                        assert(((x + 1 - 1) as u8) == k);
                        assert(table_dots(m, x + 1) == table_dots(m, x as int) + seq![(k, c)]);
                        assert(seq![(k, c)].last() == (k, c));
                        let e = seq![(k, c)].drop_last();
                        assert(e.len() == 0);
                        assert(paint_dots(before, PLAYGROUND_WIDTH as int, y, e, self.colors_of())
                            == before);
                        assert(paint_dots(
                            before,
                            PLAYGROUND_WIDTH as int,
                            y,
                            seq![(k, c)],
                            self.colors_of(),
                        ) == self.buffer@);
                    }
                },
                None => {
                    assert(((x + 1 - 1) as u8) == k);
                    assert(table_dots(m, x + 1) =~= table_dots(m, x as int));
                },
            }
            x += 1;
        }
    }
}

} // verus!
