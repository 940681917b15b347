use vstd::prelude::*;

verus! {

/// The palette an object is drawn with.
#[derive(Debug, Clone, Copy, PartialEq, Eq, Structural)]
pub enum Palette {
    Obp0,
    Obp1,
    Bg,
}

/// What an object attribute entry holds.
pub struct ObjectView {
    pub y: u8,
    pub x: u8,
    pub tile: u8,
    pub behind_background: bool,
    pub y_flip: bool,
    pub x_flip: bool,
    pub palette: Palette,
}

/// The flag byte of an object: priority in bit 7, vertical flip in bit 6,
/// horizontal flip in bit 5, palette in bit 4.
pub open spec fn attribute_byte(o: ObjectView) -> u8 {
    ((if o.behind_background { 128int } else { 0 }) + (if o.y_flip { 64int } else { 0 }) + (if o.x_flip {
        32int
    } else {
        0
    }) + (if o.palette == Palette::Obp1 { 16int } else { 0 })) as u8
}

/// An entry of the object attribute memory.
#[derive(Clone, Copy)]
pub struct Object {
    y: u8,
    x: u8,
    tile: u8,
    behind_background: bool,
    y_flip: bool,
    x_flip: bool,
    dmg_pallete: Palette,
}

impl View for Object {
    type V = ObjectView;

    closed spec fn view(&self) -> ObjectView {
        ObjectView {
            y: self.y,
            x: self.x,
            tile: self.tile,
            behind_background: self.behind_background,
            y_flip: self.y_flip,
            x_flip: self.x_flip,
            palette: self.dmg_pallete,
        }
    }
}

impl Object {
    pub fn new() -> (r: Self)
        ensures
            r@ == (ObjectView {
                y: 0,
                x: 0,
                tile: 0,
                behind_background: false,
                y_flip: false,
                x_flip: false,
                palette: Palette::Obp0,
            }),
    {
        Object {
            y: 0,
            x: 0,
            tile: 0,
            behind_background: false,
            y_flip: false,
            x_flip: false,
            dmg_pallete: Palette::Obp0,
        }
    }

    /// Sets the horizontal position.
    pub fn set_set_x_position(&mut self, x: u8)
        ensures
            final(self)@ == (ObjectView { x, ..old(self)@ }),
    {
        self.x = x;
    }

    /// The horizontal position.
    pub fn set_x_position(&self) -> (r: u8)
        ensures
            r == self@.x,
    {
        self.x
    }

    pub fn set_y_position(&mut self, y: u8)
        ensures
            final(self)@ == (ObjectView { y, ..old(self)@ }),
    {
        self.y = y;
    }

    pub fn y_position(&self) -> (r: u8)
        ensures
            r == self@.y,
    {
        self.y
    }

    /// The screen line of the object's top row (the position is offset by 16).
    pub fn top_line(&self) -> (r: i32)
        ensures
            r == self@.y - 16,
    {
        (self.y as i32) - 16
    }

    /// The screen column of the object's left edge (the position is offset by 8).
    pub fn left_column(&self) -> (r: i32)
        ensures
            r == self@.x - 8,
    {
        (self.x as i32) - 8
    }

    pub fn set_tile(&mut self, tile: u8)
        ensures
            final(self)@ == (ObjectView { tile, ..old(self)@ }),
    {
        self.tile = tile;
    }

    pub fn tile(&self) -> (r: u8)
        ensures
            r == self@.tile,
    {
        self.tile
    }

    pub fn is_behind_background(&self) -> (r: bool)
        ensures
            r == self@.behind_background,
    {
        self.behind_background
    }

    pub fn x_flip(&self) -> (r: bool)
        ensures
            r == self@.x_flip,
    {
        self.x_flip
    }

    pub fn y_flip(&self) -> (r: bool)
        ensures
            r == self@.y_flip,
    {
        self.y_flip
    }

    pub fn palette(&self) -> (r: Palette)
        ensures
            r == self@.palette,
    {
        self.dmg_pallete
    }

    /// Loads the flag byte; the low four bits are ignored.
    pub fn write_oam(&mut self, data: u8)
        ensures
            final(self)@ == (ObjectView {
                behind_background: data / 128 % 2 == 1,
                y_flip: data / 64 % 2 == 1,
                x_flip: data / 32 % 2 == 1,
                palette: if data / 16 % 2 == 1 { Palette::Obp1 } else { Palette::Obp0 },
                ..old(self)@
            }),
    {
        self.behind_background = data / 128 % 2 == 1;
        self.y_flip = data / 64 % 2 == 1;
        self.x_flip = data / 32 % 2 == 1;
        self.dmg_pallete = if data / 16 % 2 == 1 { Palette::Obp1 } else { Palette::Obp0 };
    }

    /// The flag byte. An object never uses the background palette.
    pub fn read_oam(&mut self) -> (r: u8)
        requires
            old(self)@.palette != Palette::Bg,
        ensures
            r == attribute_byte(old(self)@),
            final(self)@ == old(self)@,
    {
        let mut data: u8 = 0;
        if self.behind_background {
            data = data + 128;
        }
        if self.y_flip {
            data = data + 64;
        }
        if self.x_flip {
            data = data + 32;
        }
        if self.dmg_pallete == Palette::Obp1 {
            data = data + 16;
        }
        data
    }
}

/// Number of entries in the object attribute memory.
pub const OAM_ENTRIES: usize = 40;

/// Byte `attribute` (0 to 3) of an entry as the bus sees it: Y, X, tile, flags.
pub open spec fn entry_byte(o: ObjectView, attribute: int) -> u8 {
    if attribute == 0 {
        o.y
    } else if attribute == 1 {
        o.x
    } else if attribute == 2 {
        o.tile
    } else {
        attribute_byte(o)
    }
}

/// An entry after the bus writes `value` to its byte `attribute`.
pub open spec fn entry_written(o: ObjectView, attribute: int, value: u8) -> ObjectView {
    if attribute == 0 {
        ObjectView { y: value, ..o }
    } else if attribute == 1 {
        ObjectView { x: value, ..o }
    } else if attribute == 2 {
        ObjectView { tile: value, ..o }
    } else {
        ObjectView {
            behind_background: value / 128 % 2 == 1,
            y_flip: value / 64 % 2 == 1,
            x_flip: value / 32 % 2 == 1,
            palette: if value / 16 % 2 == 1 { Palette::Obp1 } else { Palette::Obp0 },
            ..o
        }
    }
}

/// The object attribute memory: forty entries of four bytes each.
pub struct ObjectAttributeMemory {
    entries: Vec<Object>,
}

impl ObjectAttributeMemory {
    pub closed spec fn entries(&self) -> Seq<ObjectView> {
        Seq::new(self.entries@.len(), |i: int| self.entries@[i]@)
    }

    /// Forty entries, none of them using the background palette.
    pub open spec fn wf(&self) -> bool {
        &&& self.entries().len() == OAM_ENTRIES
        &&& forall|i: int| 0 <= i < OAM_ENTRIES ==> #[trigger] self.entries()[i].palette != Palette::Bg
    }

    pub fn new() -> (r: Self)
        ensures
            r.wf(),
            forall|i: int| 0 <= i < OAM_ENTRIES ==> #[trigger] r.entries()[i] == (ObjectView {
                y: 0,
                x: 0,
                tile: 0,
                behind_background: false,
                y_flip: false,
                x_flip: false,
                palette: Palette::Obp0,
            }),
    {
        let mut entries: Vec<Object> = Vec::new();
        while entries.len() < OAM_ENTRIES
            invariant
                entries@.len() <= OAM_ENTRIES,
                forall|i: int| 0 <= i < entries@.len() ==> #[trigger] entries@[i]@ == (ObjectView {
                    y: 0,
                    x: 0,
                    tile: 0,
                    behind_background: false,
                    y_flip: false,
                    x_flip: false,
                    palette: Palette::Obp0,
                }),
            decreases OAM_ENTRIES - entries@.len(),
        {
            entries.push(Object::new());
        }
        ObjectAttributeMemory { entries }
    }

    /// Reads byte `address % 4` of entry `address / 4`.
    pub fn read(&self, address: u16) -> (r: u8)
        requires
            self.wf(),
            address < 160,
        ensures
            r == entry_byte(self.entries()[address as int / 4], address as int % 4),
    {
        let mut entry = self.entries[(address / 4) as usize];
        let attribute = address % 4;
        if attribute == 0 {
            entry.y_position()
        } else if attribute == 1 {
            entry.set_x_position()
        } else if attribute == 2 {
            entry.tile()
        } else {
            entry.read_oam()
        }
    }

    /// Writes byte `address % 4` of entry `address / 4`.
    pub fn write(&mut self, address: u16, value: u8)
        requires
            old(self).wf(),
            address < 160,
        ensures
            final(self).wf(),
            final(self).entries() == old(self).entries().update(
                address as int / 4,
                entry_written(old(self).entries()[address as int / 4], address as int % 4, value),
            ),
    {
        let index = (address / 4) as usize;
        let mut entry = self.entries[index];
        let attribute = address % 4;
        if attribute == 0 {
            entry.set_y_position(value);
        } else if attribute == 1 {
            entry.set_set_x_position(value);
        } else if attribute == 2 {
            entry.set_tile(value);
        } else {
            entry.write_oam(value);
        }
        self.entries.set(index, entry);
        assert(self.entries() =~= old(self).entries().update(
            address as int / 4,
            entry_written(old(self).entries()[address as int / 4], address as int % 4, value),
        ));
    }
}

/// Reading the flag byte back after writing it gives its upper four bits.
pub proof fn lemma_oam_flags_round_trip(o: ObjectView, data: u8)
    ensures
        attribute_byte(
            ObjectView {
                behind_background: data / 128 % 2 == 1,
                y_flip: data / 64 % 2 == 1,
                x_flip: data / 32 % 2 == 1,
                palette: if data / 16 % 2 == 1 { Palette::Obp1 } else { Palette::Obp0 },
                ..o
            },
        ) == data / 16 * 16,
{
    assert(data / 16 * 16 == (data / 128 % 2) * 128 + (data / 64 % 2) * 64 + (data / 32 % 2) * 32 + (data
        / 16 % 2) * 16) by (bit_vector);
}

} // verus!
