use crate::bits::signed;
use crate::register_maps::IORegisters;
use vstd::array::spec_array_update;
use vstd::prelude::*;

verus! {

/// A pixel of a composed row. `Transparent` occurs only in the row of an object, never
/// in a finished row.
#[derive(Clone, Copy, PartialEq, Eq, Debug, Structural)]
pub enum GameboyColor {
    Transparent,
    White,
    LightGray,
    DarkGray,
    Black,
}

impl GameboyColor {
    /// The pixel as `0xAARRGGBB`, fully opaque. A transparent pixel shows as black.
    pub open spec fn spec_argb(self) -> u32 {
        match self {
            GameboyColor::White => 0xFF9BBC0F,
            GameboyColor::LightGray => 0xFF8BAC0F,
            GameboyColor::DarkGray => 0xFF306230,
            GameboyColor::Black => 0xFF0F380F,
            GameboyColor::Transparent => 0xFF0F380F,
        }
    }

    /// The pixel as `0xAARRGGBB`.
    #[verifier::when_used_as_spec(spec_argb)]
    pub fn argb(self) -> (value: u32)
        ensures
            value == self.spec_argb(),
    {
        match self {
            GameboyColor::White => 0xFF9BBC0F,
            GameboyColor::LightGray => 0xFF8BAC0F,
            GameboyColor::DarkGray => 0xFF306230,
            GameboyColor::Black => 0xFF0F380F,
            GameboyColor::Transparent => 0xFF0F380F,
        }
    }
}

/// One object (sprite) of the attribute table.
#[derive(Copy, Clone, Debug, PartialEq, Eq, Structural)]
pub struct OamEntry {
    /// The row of the object's top edge, plus 16.
    pub y_coord: u8,
    /// The column of the object's left edge, plus 8.
    pub x_coord: u8,
    /// The number of the object's first tile.
    pub data_tile_num: u8,
    /// The object hides behind every background pixel that is not white.
    pub sprite_priority: bool,
    /// The object is drawn upside down.
    pub y_flip: bool,
    /// The object is drawn mirrored.
    pub x_flip: bool,
    /// The object takes its shades from the second object palette.
    pub palette: bool,
}

impl OamEntry {
    /// The attribute byte: bit 3 priority, bit 2 vertical flip, bit 1 horizontal flip,
    /// bit 0 palette.
    pub open spec fn attributes(self) -> u8 {
        ((if self.sprite_priority { 8int } else { 0 }) + (if self.y_flip { 4int } else { 0 }) + (
        if self.x_flip { 2int } else { 0 }) + (if self.palette { 1int } else { 0 })) as u8
    }

    /// The entry's four bytes in table order.
    pub open spec fn bytes(self) -> Seq<u8> {
        seq![self.y_coord, self.x_coord, self.data_tile_num, self.attributes()]
    }

    /// The entry that four bytes of the table stand for. The high four bits of the
    /// attribute byte are dropped.
    pub open spec fn from_bytes(bytes: Seq<u8>) -> OamEntry {
        OamEntry {
            y_coord: bytes[0],
            x_coord: bytes[1],
            data_tile_num: bytes[2],
            sprite_priority: (bytes[3] / 8) % 2 == 1,
            y_flip: (bytes[3] / 4) % 2 == 1,
            x_flip: (bytes[3] / 2) % 2 == 1,
            palette: bytes[3] % 2 == 1,
        }
    }

    /// The entry with its byte number `k` replaced by `value`.
    pub open spec fn with_byte(self, k: int, value: u8) -> OamEntry {
        OamEntry::from_bytes(self.bytes().update(k, value))
    }

    /// The object covers the scanline `line`, where objects are `height` rows high: the
    /// line is at or below the object's top row and above its bottom edge.
    pub open spec fn spec_on_line(self, line: u8, height: u8) -> bool {
        self.y_coord <= line + 16 < self.y_coord + height
    }

    /// Whether the object covers a scanline.
    #[verifier::when_used_as_spec(spec_on_line)]
    pub fn on_line(self, line: u8, height: u8) -> (covers: bool)
        ensures
            covers == self.spec_on_line(line, height),
    {
        (self.y_coord as u16) <= (line as u16) + 16 && (line as u16) + 16 < (self.y_coord as u16)
            + (height as u16)
    }

    /// Decodes four bytes of the table.
    pub fn decode(bytes: [u8; 4]) -> (entry: OamEntry)
        ensures
            entry == OamEntry::from_bytes(bytes@),
    {
        OamEntry {
            y_coord: bytes[0],
            x_coord: bytes[1],
            data_tile_num: bytes[2],
            sprite_priority: (bytes[3] / 8) % 2 == 1,
            y_flip: (bytes[3] / 4) % 2 == 1,
            x_flip: (bytes[3] / 2) % 2 == 1,
            palette: bytes[3] % 2 == 1,
        }
    }

    /// Encodes the entry as its four bytes.
    pub fn encode(&self) -> (bytes: [u8; 4])
        ensures
            bytes@ == self.bytes(),
    {
        let mut byte_4: u8 = 0;
        if self.sprite_priority {
            byte_4 += 8;
        }
        if self.y_flip {
            byte_4 += 4;
        }
        if self.x_flip {
            byte_4 += 2;
        }
        if self.palette {
            byte_4 += 1;
        }
        let bytes: [u8; 4] = [self.y_coord, self.x_coord, self.data_tile_num, byte_4];
        assert(bytes@ =~= self.bytes());
        bytes
    }
}

impl Default for OamEntry {
    fn default() -> (entry: OamEntry)
        ensures
            entry == OamEntry::from_bytes(seq![0u8, 0u8, 0u8, 0u8]),
    {
        OamEntry {
            y_coord: 0,
            x_coord: 0,
            data_tile_num: 0,
            sprite_priority: false,
            y_flip: false,
            x_flip: false,
            palette: false,
        }
    }
}

/// Decoding the bytes of an entry gives the entry back.
pub proof fn lemma_oam_entry_round_trip(entry: OamEntry)
    ensures
        OamEntry::from_bytes(entry.bytes()) == entry,
{
}

/// The object attribute table: forty entries of four bytes each.
#[derive(Copy, Clone, Debug)]
pub struct OAM {
    pub oam_entries: [OamEntry; 40],
}

impl OAM {
    /// The byte at `offset` from the start of the table.
    pub open spec fn byte_at(self, offset: int) -> u8 {
        self.oam_entries[offset / 4].bytes()[offset % 4]
    }

    /// The table after a write of `value` to bus address `addr`, which lies in
    /// `0xFE00..0xFEA0`.
    pub open spec fn spec_set(self, addr: usize, value: u8) -> OAM {
        OAM {
            oam_entries: spec_array_update(
                self.oam_entries,
                (addr - 0xFE00) / 4,
                self.oam_entries[(addr - 0xFE00) / 4].with_byte((addr - 0xFE00) % 4, value),
            ),
        }
    }

    /// Writes `value` to the byte of the table at bus address `addr`.
    pub fn set(&mut self, addr: usize, value: u8)
        requires
            0xFE00 <= addr < 0xFEA0,
        ensures
            *final(self) == old(self).spec_set(addr, value),
    {
        let slot: usize = (addr - 0xFE00) / 4;
        let mut bytes: [u8; 4] = self.oam_entries[slot].encode();
        bytes[(addr - 0xFE00) % 4] = value;
        self.oam_entries[slot] = OamEntry::decode(bytes);
    }

    /// The 160 bytes of the table.
    pub fn to_bytes(&self) -> (bytes: [u8; 0xA0])
        ensures
            forall|offset: int| 0 <= offset < 0xA0 ==> bytes[offset] == self.byte_at(offset),
    {
        let mut bytes: [u8; 0xA0] = [0; 0xA0];
        let mut slot: usize = 0;
        while slot < 40
            invariant
                slot <= 40,
                forall|offset: int| 0 <= offset < 4 * slot ==> bytes[offset] == self.byte_at(offset),
            decreases 40 - slot,
        {
            let entry: [u8; 4] = self.oam_entries[slot].encode();
            bytes[4 * slot] = entry[0];
            bytes[4 * slot + 1] = entry[1];
            bytes[4 * slot + 2] = entry[2];
            bytes[4 * slot + 3] = entry[3];
            slot += 1;
        }
        bytes
    }

    /// The table that 160 bytes stand for: entry `slot` is made of the four bytes from
    /// offset `4 * slot`.
    pub fn from_bytes(bytes: [u8; 0xA0]) -> (oam: OAM)
        ensures
            forall|slot: int|
                0 <= slot < 40 ==> oam.oam_entries[slot] == OamEntry::from_bytes(
                    bytes@.subrange(4 * slot, 4 * slot + 4),
                ),
    {
        let mut oam_entries: [OamEntry; 40] = [OamEntry::default(); 40];
        let mut slot: usize = 0;
        while slot < 40
            invariant
                slot <= 40,
                forall|k: int|
                    0 <= k < slot ==> oam_entries[k] == OamEntry::from_bytes(
                        bytes@.subrange(4 * k, 4 * k + 4),
                    ),
            decreases 40 - slot,
        {
            let entry: [u8; 4] = [
                bytes[4 * slot],
                bytes[4 * slot + 1],
                bytes[4 * slot + 2],
                bytes[4 * slot + 3],
            ];
            assert(entry@ =~= bytes@.subrange(4 * slot, 4 * slot + 4));
            oam_entries[slot] = OamEntry::decode(entry);
            slot += 1;
        }
        OAM { oam_entries }
    }

    /// Reads the byte at offset `addr` from the start of the table.
    pub fn get(&self, addr: usize) -> (value: u8)
        requires
            addr < 0xA0,
        ensures
            value == self.byte_at(addr as int),
    {
        let bytes: [u8; 4] = self.oam_entries[addr / 4].encode();
        bytes[addr % 4]
    }
}

/// Whether bit `bit_num` of `num` is set.
pub open spec fn spec_check_bit(num: u8, bit_num: u8) -> bool {
    num & (1u8 << bit_num) != 0
}

/// Whether bit `bit_num` of `num` is set.
#[verifier::when_used_as_spec(spec_check_bit)]
pub fn check_bit(num: u8, bit_num: u8) -> (set: bool)
    requires
        bit_num < 8,
    ensures
        set == spec_check_bit(num, bit_num),
{
    num & (1u8 << bit_num) != 0
}

/// A zero byte has no bit set.
pub proof fn lemma_zero_has_no_bit(bit_num: u8)
    by (bit_vector)
    ensures
        0u8 & (1u8 << bit_num) == 0,
{
}

/// The colour number of pixel `i` of a tile row, counted from the left: bit `7 - i` of
/// the row's high byte gives its bit 1, the same bit of the low byte its bit 0.
pub open spec fn color_number(high_byte: u8, low_byte: u8, i: int) -> u8 {
    ((if spec_check_bit(high_byte, (7 - i) as u8) { 2int } else { 0 }) + (if spec_check_bit(
        low_byte,
        (7 - i) as u8,
    ) { 1int } else { 0 })) as u8
}

/// The shade with the given number.
pub open spec fn shade(color_id: u8) -> GameboyColor {
    if color_id == 0 {
        GameboyColor::White
    } else if color_id == 1 {
        GameboyColor::LightGray
    } else if color_id == 2 {
        GameboyColor::DarkGray
    } else {
        GameboyColor::Black
    }
}

/// The shade number that a palette gives to a colour number: the two bits of the
/// palette at twice the colour number.
pub open spec fn palette_entry(color_number: u8, palette: u8) -> u8 {
    if color_number == 0 {
        palette % 4
    } else if color_number == 1 {
        (palette / 4) % 4
    } else if color_number == 2 {
        (palette / 16) % 4
    } else {
        palette / 64
    }
}

/// The pixel that a colour number stands for under a palette. Colour number zero of an
/// object is transparent.
pub open spec fn spec_get_color(color_number: u8, palette: u8, is_sprite: bool) -> GameboyColor {
    if color_number == 0 && is_sprite {
        GameboyColor::Transparent
    } else {
        shade(palette_entry(color_number, palette))
    }
}

/// The eight pixels of a tile row, from the left.
pub open spec fn color_row(high_byte: u8, low_byte: u8, palette: u8, is_sprite: bool) -> Seq<
    GameboyColor,
> {
    Seq::new(8, |i: int| spec_get_color(color_number(high_byte, low_byte, i), palette, is_sprite))
}

/// The list with the object `e` put in before the first object that is not to the
/// right of it.
pub open spec fn insert_sprite(list: Seq<OamEntry>, e: OamEntry) -> Seq<OamEntry>
    decreases list.len(),
{
    if list.len() == 0 || list[0].x_coord <= e.x_coord {
        seq![e] + list
    } else {
        seq![list[0]] + insert_sprite(list.drop_first(), e)
    }
}

/// The objects in the order in which they are drawn: from the right-most to the
/// left-most, so that the left-most is drawn last and shows on top. Of two objects in
/// the same column, the one that came later in `found` is drawn first.
pub open spec fn draw_order(found: Seq<OamEntry>) -> Seq<OamEntry>
    decreases found.len(),
{
    if found.len() == 0 {
        Seq::empty()
    } else {
        insert_sprite(draw_order(found.drop_last()), found.last())
    }
}

/// Putting an object in leaves the others in their order, one place further on from
/// where it went in.
pub proof fn lemma_insert_sprite(list: Seq<OamEntry>, e: OamEntry, at: int)
    requires
        0 <= at <= list.len(),
        forall|k: int| 0 <= k < at ==> list[k].x_coord > e.x_coord,
        at < list.len() ==> list[at].x_coord <= e.x_coord,
    ensures
        insert_sprite(list, e) == list.insert(at, e),
    decreases list.len(),
{
    if at == 0 {
        assert(insert_sprite(list, e) =~= list.insert(at, e));
    } else {
        lemma_insert_sprite(list.drop_first(), e, at - 1);
        assert(insert_sprite(list, e) =~= list.insert(at, e));
    }
}

/// The first place in the list, at or after `from`, whose object is not to the right
/// of `e`; the end of the list where there is none.
proof fn insert_point(list: Seq<OamEntry>, e: OamEntry, from: int) -> (at: int)
    requires
        0 <= from <= list.len(),
        forall|k: int| 0 <= k < from ==> list[k].x_coord > e.x_coord,
    ensures
        0 <= at <= list.len(),
        forall|k: int| 0 <= k < at ==> list[k].x_coord > e.x_coord,
        at < list.len() ==> list[at].x_coord <= e.x_coord,
    decreases list.len() - from,
{
    if from < list.len() && list[from].x_coord > e.x_coord {
        insert_point(list, e, from + 1)
    } else {
        from
    }
}

/// The objects come out of `draw_order` as many as went in, each of them one that
/// went in, and no object stands before one that is further to the right.
pub proof fn lemma_draw_order(found: Seq<OamEntry>)
    ensures
        draw_order(found).len() == found.len(),
        draw_order(found).to_multiset() == found.to_multiset(),
        forall|a: int, b: int|
            0 <= a <= b < found.len() ==> draw_order(found)[a].x_coord >= draw_order(
                found,
            )[b].x_coord,
    decreases found.len(),
{
    if found.len() == 0 {
        assert(draw_order(found) =~= found);
    } else {
        let rest = found.drop_last();
        let e = found.last();
        let list = draw_order(rest);
        lemma_draw_order(rest);
        let at = insert_point(list, e, 0);
        lemma_insert_sprite(list, e, at);
        let out = list.insert(at, e);
        assert(out == draw_order(found));
        vstd::seq_lib::to_multiset_insert(list, at, e);
        assert(found =~= rest.push(e));
        vstd::seq_lib::to_multiset_build(rest, e);
        assert forall|a: int, b: int| 0 <= a <= b < found.len() implies out[a].x_coord
            >= out[b].x_coord by {
            if a < at && b > at {
                assert(out[b] == list[b - 1]);
                assert(list[at].x_coord >= list[b - 1].x_coord);
            } else if a > at {
                assert(out[a] == list[a - 1]);
                assert(out[b] == list[b - 1]);
            }
        }
    }
}

/// A tile of eight rows of eight pixels, decoded under a palette.
#[derive(Copy, Clone, Debug)]
pub struct Tile {
    pub color_map: [[GameboyColor; 8]; 8],
}

impl Tile {
    /// Decodes the sixteen bytes of a tile: each row has its low byte first, then its
    /// high byte.
    pub fn from(data: [u8; 16], palette: u8) -> (tile: Tile)
        ensures
            forall|i: int, j: int|
                0 <= i < 8 && 0 <= j < 8 ==> tile.color_map[i][j] == spec_get_color(
                    color_number(data[2 * i + 1], data[2 * i], j),
                    palette,
                    false,
                ),
    {
        let mut color_map: [[GameboyColor; 8]; 8] = [[GameboyColor::White; 8]; 8];
        let mut i: usize = 0;
        while i < 8
            invariant
                i <= 8,
                forall|k: int, j: int|
                    0 <= k < i && 0 <= j < 8 ==> color_map[k][j] == spec_get_color(
                        color_number(data[2 * k + 1], data[2 * k], j),
                        palette,
                        false,
                    ),
            decreases 8 - i,
        {
            let ind: usize = 2 * i;
            let mut color_vec: Vec<GameboyColor> = Vec::new();
            PPU::get_color_line(&mut color_vec, data[ind + 1], data[ind], palette, false);
            let mut row: [GameboyColor; 8] = [GameboyColor::White; 8];
            let mut j: usize = 0;
            while j < 8
                invariant
                    j <= 8,
                    color_vec@.len() == 8,
                    forall|k: int| 0 <= k < j ==> row[k] == color_vec@[k],
                decreases 8 - j,
            {
                row[j] = color_vec[j];
                j += 1;
            }
            color_map[i] = row;
            i += 1;
        }
        Tile { color_map }
    }
}

/// The phase of the video generator.
#[derive(Copy, Clone, PartialEq, Eq, Debug, Structural)]
pub enum Mode {
    /// Horizontal blank.
    Mode0,
    /// Vertical blank.
    Mode1,
    /// Object search.
    Mode2,
    /// Pixel transfer.
    Mode3,
    /// The display is switched off.
    Off,
}

/// The video generator: video memory, the object table, and the register block.
#[derive(Clone, Copy, Debug)]
pub struct PPU {
    pub vram: [u8; 0x2000],
    pub oam: OAM,
    pub io_registers: IORegisters,
    pub mode: Mode,
}

impl PPU {
    /// With video memory all zero and a background palette that shows colour number
    /// zero as white, every pixel of background and window is white, whatever the
    /// scanline, the scroll and the window; and with no objects that is the line drawn.
    pub proof fn lemma_blank_background(self)
        requires
            forall|i: int| 0 <= i < 0x2000 ==> self.vram[i] == 0,
            self.io_registers.bgp % 4 == 0,
        ensures
            forall|p: int| 0 <= p < 160 ==> self.background_line()[p] == GameboyColor::White,
            self.spec_draw(Seq::empty()) == self.background_line(),
    {
        assert forall|p: int| 0 <= p < 160 implies self.background_line()[p]
            == GameboyColor::White by {
            let q = self.io_registers.scx % 8 + p;
            let x = (q / 8) as u8;
            let i = q % 8;
            lemma_zero_has_no_bit((7 - i) as u8);
            let map = self.tile_map_address(x);
            assert(0x1800 <= map < 0x2000);
            let address = self.tile_data_address(self.vram[map], self.picture_row(x) % 8);
            assert(0 <= address && address + 1 < 0x2000);
            assert(self.tile_pixels(x)[i] == GameboyColor::White);
        }
    }

    /// Object search selects ten objects at most, each of them an entry of the object
    /// table that covers the current scanline, and puts none before one that is further
    /// to the right: drawn in this order, the left-most of overlapping objects shows.
    pub proof fn lemma_object_search(self)
        ensures
            self.spec_object_search().len() <= 10,
            forall|a: int|
                0 <= a < self.spec_object_search().len() ==> (
                #[trigger] self.spec_object_search()[a]).spec_on_line(
                    self.io_registers.ly,
                    self.spec_sprite_height(),
                ),
            forall|a: int, b: int|
                0 <= a <= b < self.spec_object_search().len() ==> self.spec_object_search()[a].x_coord
                    >= self.spec_object_search()[b].x_coord,
    {
        let found = self.found_objects(40);
        let sorted = self.spec_object_search();
        self.lemma_found_objects(40);
        lemma_draw_order(found);
        assert forall|a: int| 0 <= a < sorted.len() implies (#[trigger] sorted[a]).spec_on_line(
            self.io_registers.ly,
            self.spec_sprite_height(),
        ) by {
            vstd::seq_lib::to_multiset_contains(sorted, sorted[a]);
            vstd::seq_lib::to_multiset_contains(found, sorted[a]);
            assert(sorted.contains(sorted[a]));
            let k = choose|k: int| 0 <= k < found.len() && found[k] == sorted[a];
            assert(found[k].spec_on_line(self.io_registers.ly, self.spec_sprite_height()));
        }
    }

    /// Of the first `n` entries of the object table, ten at most are found, and each
    /// of them covers the current scanline.
    pub proof fn lemma_found_objects(self, n: int)
        ensures
            self.found_objects(n).len() <= 10,
            forall|k: int|
                0 <= k < self.found_objects(n).len() ==> (#[trigger] self.found_objects(
                    n,
                )[k]).spec_on_line(self.io_registers.ly, self.spec_sprite_height()),
        decreases n,
    {
        if n > 0 {
            self.lemma_found_objects(n - 1);
        }
    }

    /// A line drawn has 160 pixels, none of them transparent.
    pub proof fn lemma_draw_is_opaque(self, sprites: Seq<OamEntry>)
        ensures
            self.spec_draw(sprites).len() == 160,
            forall|x: int| 0 <= x < 160 ==> self.spec_draw(sprites)[x] != GameboyColor::Transparent,
        decreases sprites.len(),
    {
        if sprites.len() > 0 {
            self.lemma_draw_is_opaque(sprites.drop_last());
        }
    }

    /// The video generator at power-on around the given registers: video memory and the
    /// object table hold zeros, and the display is off.
    pub open spec fn spec_new(io_registers: IORegisters) -> PPU {
        PPU {
            vram: crate::bits::zeros::<0x2000>(),
            oam: OAM {
                oam_entries: vstd::array::spec_array_fill_for_copy_type::<OamEntry, 40>(
                    OamEntry::from_bytes(seq![0u8, 0u8, 0u8, 0u8]),
                ),
            },
            io_registers,
            mode: Mode::Off,
        }
    }

    /// The height of an object in rows: sixteen where the control register's size bit
    /// is set, else eight.
    pub open spec fn spec_sprite_height(self) -> u8 {
        if self.io_registers.lcdc.obj_size == 1 {
            16
        } else {
            8
        }
    }

    /// Of the first `n` entries of the object table, the first ten at most that cover
    /// the current scanline, in table order.
    pub open spec fn found_objects(self, n: int) -> Seq<OamEntry>
        decreases n,
    {
        if n <= 0 {
            Seq::empty()
        } else if self.found_objects(n - 1).len() < 10 && self.oam.oam_entries[n - 1].spec_on_line(
            self.io_registers.ly,
            self.spec_sprite_height(),
        ) {
            self.found_objects(n - 1).push(self.oam.oam_entries[n - 1])
        } else {
            self.found_objects(n - 1)
        }
    }

    /// The objects that object search selects for the current scanline, in drawing
    /// order.
    pub open spec fn spec_object_search(self) -> Seq<OamEntry> {
        draw_order(self.found_objects(40))
    }

    /// The window, not the background, fills tile column `x` of the current scanline:
    /// the window is enabled, the line is at or below the window's top, and the column
    /// is at or right of its left edge.
    pub open spec fn window_covers(self, x: u8) -> bool {
        self.io_registers.lcdc.window_enable == 1 && self.io_registers.ly >= self.io_registers.wy
            && x + 7 >= self.io_registers.wx
    }

    /// The row of the tile map's picture that the current scanline shows in tile column
    /// `x`: for the window counted from the window's top, for the background moved by
    /// the vertical scroll and wrapping at 256.
    pub open spec fn picture_row(self, x: u8) -> u8 {
        if self.window_covers(x) {
            (self.io_registers.ly - self.io_registers.wy) as u8
        } else {
            ((self.io_registers.scy + self.io_registers.ly) % 256) as u8
        }
    }

    /// Where in video memory the tile map holds the tile number for tile column `x` of
    /// the current scanline. Each map has 32 by 32 entries and lies at `0x1800` or
    /// `0x1C00`, as the control register selects for the window and for the background.
    pub open spec fn tile_map_address(self, x: u8) -> int {
        if self.window_covers(x) {
            (if self.io_registers.lcdc.window_tile_map_area == 0 {
                0x1800int
            } else {
                0x1C00int
            }) + (x + 7 - self.io_registers.wx) / 8 + 32 * (self.picture_row(x) / 8)
        } else {
            (if self.io_registers.lcdc.bg_tile_map_area == 0 {
                0x1800int
            } else {
                0x1C00int
            }) + (self.io_registers.scx / 8 + x) % 32 + 32 * (self.picture_row(x) / 8)
        }
    }

    /// Where in video memory the low byte of row `row` of the tile with number
    /// `tile_index` lies. The control register selects whether tile numbers are unsigned
    /// and count from `0x0000` or signed and count from `0x1000`.
    pub open spec fn tile_data_address(self, tile_index: u8, row: u8) -> int {
        if self.io_registers.lcdc.bg_window_tile_data_area == 0 {
            0x1000 + 16 * signed(tile_index) + 2 * row
        } else {
            16 * tile_index + 2 * row
        }
    }

    /// The eight pixels of tile column `x` of the current scanline, before scrolling.
    pub open spec fn tile_pixels(self, x: u8) -> Seq<GameboyColor> {
        let address = self.tile_data_address(
            self.vram[self.tile_map_address(x)],
            self.picture_row(x) % 8,
        );
        color_row(self.vram[address + 1], self.vram[address], self.io_registers.bgp, false)
    }

    /// The first `columns` tile columns of the current scanline, before scrolling.
    pub open spec fn tile_columns(self, columns: int) -> Seq<GameboyColor> {
        Seq::new((8 * columns) as nat, |p: int| self.tile_pixels((p / 8) as u8)[p % 8])
    }

    /// The 160 pixels of background and window of the current scanline: 21 tile columns
    /// less the pixels that the horizontal scroll moves off the left edge.
    pub open spec fn background_line(self) -> Seq<GameboyColor> {
        Seq::new(160, |p: int| self.tile_columns(21)[self.io_registers.scx % 8 + p])
    }

    /// The row of its tile data that an object shows on the current scanline: counted
    /// from the object's top, or from its bottom where the object is flipped.
    pub open spec fn sprite_data_row(self, sprite: OamEntry) -> int {
        if sprite.y_flip {
            self.spec_sprite_height() - 1 - (self.io_registers.ly + 16 - sprite.y_coord)
        } else {
            self.io_registers.ly + 16 - sprite.y_coord
        }
    }

    /// The eight pixels that an object shows on the current scanline, from the left.
    pub open spec fn sprite_pixels(self, sprite: OamEntry) -> Seq<GameboyColor> {
        let address = sprite.data_tile_num * 16 + 2 * self.sprite_data_row(sprite);
        let row = color_row(
            self.vram[address + 1],
            self.vram[address],
            if sprite.palette {
                self.io_registers.obp1
            } else {
                self.io_registers.obp0
            },
            true,
        );
        Seq::new(
            8,
            |i: int|
                if sprite.x_flip {
                    row[7 - i]
                } else {
                    row[i]
                },
        )
    }

    /// The pixel at column `x` of a line after an object has been drawn over it. The
    /// object's pixel shows where the object reaches the column, its pixel there is not
    /// transparent, and either the object has no background priority or the pixel
    /// under it is white.
    pub open spec fn overlay_pixel(self, line: Seq<GameboyColor>, sprite: OamEntry, x: int)
        -> GameboyColor {
        let i = x + 8 - sprite.x_coord;
        if 0 <= i < 8 && (!sprite.sprite_priority || line[x] == GameboyColor::White)
            && self.sprite_pixels(sprite)[i] != GameboyColor::Transparent {
            self.sprite_pixels(sprite)[i]
        } else {
            line[x]
        }
    }

    /// A line of 160 pixels after an object has been drawn over it. An object that does
    /// not cover the current scanline leaves the line as it is.
    pub open spec fn overlay(self, line: Seq<GameboyColor>, sprite: OamEntry) -> Seq<
        GameboyColor,
    > {
        if sprite.spec_on_line(self.io_registers.ly, self.spec_sprite_height()) {
            Seq::new(160, |x: int| self.overlay_pixel(line, sprite, x))
        } else {
            line
        }
    }

    /// A line after the objects have been drawn over it one after another, the first
    /// of them first.
    pub open spec fn composite(self, line: Seq<GameboyColor>, sprites: Seq<OamEntry>) -> Seq<
        GameboyColor,
    >
        decreases sprites.len(),
    {
        if sprites.len() == 0 {
            line
        } else {
            self.overlay(self.composite(line, sprites.drop_last()), sprites.last())
        }
    }

    /// The current scanline: background and window with the objects drawn over them.
    pub open spec fn spec_draw(self, sprites: Seq<OamEntry>) -> Seq<GameboyColor> {
        self.composite(self.background_line(), sprites)
    }

    /// The height of an object in rows.
    pub fn sprite_height(&self) -> (height: u8)
        ensures
            height == self.spec_sprite_height(),
    {
        if self.io_registers.lcdc.obj_size == 1 {
            16
        } else {
            8
        }
    }

    /// Selects the objects of the current scanline: the first ten at most in the object
    /// table that cover it, put in drawing order.
    pub fn object_search(&self) -> (sprites: Vec<OamEntry>)
        ensures
            sprites@ == self.spec_object_search(),
            sprites.len() <= 10,
            forall|a: int, b: int|
                0 <= a <= b < sprites.len() ==> sprites[a].x_coord >= sprites[b].x_coord,
    {
        let scanline: u8 = self.io_registers.ly;
        let height: u8 = self.sprite_height();
        let mut oam_vec: Vec<OamEntry> = Vec::new();
        let ghost mut found: Seq<OamEntry> = Seq::empty();
        let mut count: usize = 0;
        let mut s: usize = 0;
        while s < 40
            invariant
                s <= 40,
                scanline == self.io_registers.ly,
                height == self.spec_sprite_height(),
                found == self.found_objects(s as int),
                count == found.len(),
                count <= 10,
                oam_vec@ == draw_order(found),
                oam_vec.len() == count,
            decreases 40 - s,
        {
            let new_entry: OamEntry = self.oam.oam_entries[s];
            if count < 10 && new_entry.on_line(scanline, height) {
                let mut at: usize = 0;
                while at < oam_vec.len() && oam_vec[at].x_coord > new_entry.x_coord
                    invariant
                        at <= oam_vec.len(),
                        forall|k: int| 0 <= k < at ==> oam_vec[k].x_coord > new_entry.x_coord,
                    decreases oam_vec.len() - at,
                {
                    at += 1;
                }
                proof {
                    lemma_insert_sprite(oam_vec@, new_entry, at as int);
                    assert(found.push(new_entry).drop_last() =~= found);
                    found = found.push(new_entry);
                }
                oam_vec.insert(at, new_entry);
                count += 1;
            }
            s += 1;
        }
        proof {
            lemma_draw_order(found);
        }
        oam_vec
    }

    /// Reads the tile number for tile column `x` of the current scanline.
    fn get_tile(&self, x: u8) -> (tile_index: u8)
        requires
            x <= 20,
        ensures
            0x1800 <= self.tile_map_address(x) < 0x2000,
            tile_index == self.vram[self.tile_map_address(x)],
    {
        let lcdc = self.io_registers.lcdc;
        let use_window: bool = lcdc.window_enable == 1 && self.io_registers.ly
            >= self.io_registers.wy && x + 7 >= self.io_registers.wx;
        if use_window {
            let pixel_x: u8 = x + 7 - self.io_registers.wx;
            let pixel_y: u8 = self.io_registers.ly - self.io_registers.wy;
            let window_map_index: usize = (pixel_x / 8) as usize + 32 * ((pixel_y / 8) as usize);
            let base_pointer: usize = if lcdc.window_tile_map_area == 0 {
                0x1800
            } else {
                0x1C00
            };
            self.vram[base_pointer + window_map_index]
        } else {
            let pixel_y: u8 = self.io_registers.scy.wrapping_add(self.io_registers.ly);
            let tile_x: u8 = (self.io_registers.scx / 8 + x) % 32;
            let background_map_index: usize = tile_x as usize + 32 * ((pixel_y / 8) as usize);
            let base_pointer: usize = if lcdc.bg_tile_map_area == 0 {
                0x1800
            } else {
                0x1C00
            };
            self.vram[base_pointer + background_map_index]
        }
    }

    /// The row of the tile map's picture that the current scanline shows in tile column
    /// `x`.
    fn get_picture_row(&self, x: u8) -> (row: u8)
        requires
            x <= 20,
        ensures
            row == self.picture_row(x),
    {
        if self.io_registers.lcdc.window_enable == 1 && self.io_registers.ly
            >= self.io_registers.wy && x + 7 >= self.io_registers.wx {
            self.io_registers.ly - self.io_registers.wy
        } else {
            self.io_registers.scy.wrapping_add(self.io_registers.ly)
        }
    }

    /// Where the low byte of row `row` of tile `tile_index` lies in video memory.
    fn tile_data_index(&self, tile_index: u8, row: u8) -> (index: usize)
        requires
            row < 8,
        ensures
            index == self.tile_data_address(tile_index, row),
            index + 1 < 0x2000,
    {
        if self.io_registers.lcdc.bg_window_tile_data_area == 0 {
            if tile_index < 128 {
                0x1000 + 16 * (tile_index as usize) + 2 * (row as usize)
            } else {
                0x1000 - 16 * (256 - (tile_index as usize)) + 2 * (row as usize)
            }
        } else {
            16 * (tile_index as usize) + 2 * (row as usize)
        }
    }

    /// Reads the low byte of row `row` of tile `tile_index`.
    fn get_tile_data_low(&self, tile_index: u8, row: u8) -> (byte: u8)
        requires
            row < 8,
        ensures
            byte == self.vram[self.tile_data_address(tile_index, row)],
    {
        self.vram[self.tile_data_index(tile_index, row)]
    }

    /// Reads the high byte of row `row` of tile `tile_index`.
    fn get_tile_data_high(&self, tile_index: u8, row: u8) -> (byte: u8)
        requires
            row < 8,
        ensures
            byte == self.vram[self.tile_data_address(tile_index, row) + 1],
    {
        self.vram[self.tile_data_index(tile_index, row) + 1]
    }

    /// Draws an object over a line of the current scanline.
    fn draw_sprite(&self, color_line: &mut Vec<GameboyColor>, sprite: OamEntry)
        requires
            old(color_line).len() == 160,
        ensures
            final(color_line)@ == self.overlay(old(color_line)@, sprite),
            final(color_line).len() == 160,
    {
        let scanline: u8 = self.io_registers.ly;
        let tile_height: u8 = self.sprite_height();
        if !sprite.on_line(scanline, tile_height) {
            return ;
        }
        let offset: u16 = (scanline as u16) + 16 - (sprite.y_coord as u16);
        let tile_row: u16 = if sprite.y_flip {
            (tile_height as u16) - 1 - offset
        } else {
            offset
        };
        let address: usize = (sprite.data_tile_num as usize) * 16 + 2 * (tile_row as usize);
        let tile_low: u8 = self.vram[address];
        let tile_high: u8 = self.vram[address + 1];
        let sprite_palette: u8 = if sprite.palette {
            self.io_registers.obp1
        } else {
            self.io_registers.obp0
        };
        let mut sprite_row: Vec<GameboyColor> = Vec::new();
        PPU::get_color_line(&mut sprite_row, tile_high, tile_low, sprite_palette, true);
        assert(sprite_row@ =~= color_row(tile_high, tile_low, sprite_palette, true));
        let ghost before = color_line@;
        let mut i: u8 = 0;
        while i < 8
            invariant
                i <= 8,
                color_line.len() == 160,
                before.len() == 160,
                sprite_row@ == color_row(tile_high, tile_low, sprite_palette, true),
                forall|k: int| 0 <= k < 8 ==> self.sprite_pixels(sprite)[k] == (if sprite.x_flip {
                    sprite_row@[7 - k]
                } else {
                    sprite_row@[k]
                }),
                forall|x: int|
                    0 <= x < 160 ==> color_line@[x] == (if x + 8 - sprite.x_coord < i {
                        self.overlay_pixel(before, sprite, x)
                    } else {
                        before[x]
                    }),
            decreases 8 - i,
        {
            let column: u16 = (sprite.x_coord as u16) + (i as u16);
            if column >= 8 && column < 168 {
                let x: usize = (column - 8) as usize;
                let pixel: GameboyColor = if sprite.x_flip {
                    sprite_row[(7 - i) as usize]
                } else {
                    sprite_row[i as usize]
                };
                if (!sprite.sprite_priority || color_line[x] == GameboyColor::White) && pixel
                    != GameboyColor::Transparent {
                    color_line[x] = pixel;
                }
            }
            i += 1;
        }
        assert(color_line@ =~= self.overlay(before, sprite));
    }

    /// Composes the current scanline: 160 pixels of background and window, with the
    /// given objects drawn over them in the order of the list. An object of the list that
    /// does not cover the scanline is left out.
    pub fn draw(&self, sprites: Vec<OamEntry>) -> (line: Vec<GameboyColor>)
        ensures
            line@ == self.spec_draw(sprites@),
            line.len() == 160,
    {
        let palette: u8 = self.io_registers.bgp;
        let mut tiles: Vec<GameboyColor> = Vec::new();
        let mut x: u8 = 0;
        while x <= 20
            invariant
                x <= 21,
                palette == self.io_registers.bgp,
                tiles@ == self.tile_columns(x as int),
            decreases 21 - x,
        {
            let tile_index: u8 = self.get_tile(x);
            let row: u8 = self.get_picture_row(x) % 8;
            let high: u8 = self.get_tile_data_high(tile_index, row);
            let low: u8 = self.get_tile_data_low(tile_index, row);
            PPU::get_color_line(&mut tiles, high, low, palette, false);
            assert(tiles@ =~= self.tile_columns(x + 1));
            x += 1;
        }
        let skip: usize = (self.io_registers.scx % 8) as usize;
        let mut color_line: Vec<GameboyColor> = Vec::new();
        let mut p: usize = 0;
        while p < 160
            invariant
                p <= 160,
                skip == self.io_registers.scx % 8,
                tiles@ == self.tile_columns(21),
                color_line.len() == p,
                forall|q: int| 0 <= q < p ==> color_line@[q] == tiles@[skip + q],
            decreases 160 - p,
        {
            color_line.push(tiles[skip + p]);
            p += 1;
        }
        assert(color_line@ =~= self.background_line());
        let mut k: usize = 0;
        while k < sprites.len()
            invariant
                k <= sprites.len(),
                color_line.len() == 160,
                color_line@ == self.composite(self.background_line(), sprites@.take(k as int)),
            decreases sprites.len() - k,
        {
            self.draw_sprite(&mut color_line, sprites[k]);
            assert(sprites@.take(k + 1).drop_last() =~= sprites@.take(k as int));
            k += 1;
        }
        assert(sprites@.take(k as int) =~= sprites@);
        color_line
    }

    /// Appends the eight pixels of a tile row.
    pub fn get_color_line(
        color_line: &mut Vec<GameboyColor>,
        high_byte: u8,
        low_byte: u8,
        palette: u8,
        is_sprite: bool,
    )
        ensures
            final(color_line)@ == old(color_line)@ + color_row(
                high_byte,
                low_byte,
                palette,
                is_sprite,
            ),
    {
        let ghost before = color_line@;
        let mut i: u8 = 0;
        while i < 8
            invariant
                i <= 8,
                color_line@.len() == before.len() + i,
                forall|k: int| 0 <= k < before.len() ==> color_line@[k] == before[k],
                forall|k: int|
                    0 <= k < i ==> color_line@[before.len() + k] == spec_get_color(
                        color_number(high_byte, low_byte, k),
                        palette,
                        is_sprite,
                    ),
            decreases 8 - i,
        {
            let number: u8 = (if check_bit(high_byte, 7 - i) { 2 } else { 0 }) + (if check_bit(
                low_byte,
                7 - i,
            ) { 1 } else { 0 });
            color_line.push(PPU::get_color(number, palette, is_sprite));
            i += 1;
        }
        assert(color_line@ =~= before + color_row(high_byte, low_byte, palette, is_sprite));
    }

    /// The pixel that a colour number stands for under a palette.
    pub fn get_color(color_number: u8, palette: u8, is_sprite: bool) -> (color: GameboyColor)
        requires
            color_number <= 3,
        ensures
            color == spec_get_color(color_number, palette, is_sprite),
    {
        if color_number == 0 && is_sprite {
            return GameboyColor::Transparent;
        }
        let color_id: u8 = match color_number {
            0 => palette % 4,
            1 => (palette / 4) % 4,
            2 => (palette / 16) % 4,
            _ => palette / 64,
        };
        match color_id {
            0 => GameboyColor::White,
            1 => GameboyColor::LightGray,
            2 => GameboyColor::DarkGray,
            _ => GameboyColor::Black,
        }
    }

    /// The video generator at power-on around the given registers.
    pub fn new(io_registers: IORegisters) -> (ppu: PPU)
        ensures
            ppu == PPU::spec_new(io_registers),
    {
        PPU {
            vram: [0; 0x2000],
            oam: OAM { oam_entries: [OamEntry::default(); 40] },
            io_registers,
            mode: Mode::Off,
        }
    }
}

} // verus!
