//! Colour palettes as they are stored: three bytes for each colour.

use vstd::prelude::*;

verus! {

/// A colour: its red, green and blue components.
#[derive(Clone, Copy, Debug, PartialEq, Eq, Structural)]
pub struct Rgb {
    pub r: u8,
    pub g: u8,
    pub b: u8,
}

/// A palette: colours by index.
pub struct Palette {
    colors: Vec<Rgb>,
}

/// The colours that `bytes` encode: each full group of three bytes is one
/// colour, red first; what is left over at the end is dropped.
pub open spec fn decoded(bytes: Seq<u8>) -> Seq<Rgb> {
    Seq::new(
        (bytes.len() / 3) as nat,
        |i: int| Rgb { r: bytes[3 * i], g: bytes[3 * i + 1], b: bytes[3 * i + 2] },
    )
}

impl View for Palette {
    type V = Seq<Rgb>;

    closed spec fn view(&self) -> Seq<Rgb> {
        self.colors@
    }
}

impl Palette {
    /// The palette that an encoded palette file holds.
    pub fn new(encoded: &[u8]) -> (palette: Palette)
        ensures
            palette@ == decoded(encoded@),
    {
        Palette { colors: Self::decode_bytes(encoded) }
    }

    /// Decodes the colours of an encoded palette.
    pub fn decode_bytes(bytes: &[u8]) -> (colors: Vec<Rgb>)
        ensures
            colors@ == decoded(bytes@),
    {
        let mut colors: Vec<Rgb> = Vec::new();
        let count: usize = bytes.len() / 3;
        let mut i: usize = 0;
        while i < count
            invariant
                i <= count,
                count == bytes@.len() / 3,
                3 * count <= bytes@.len(),
                bytes@.len() <= usize::MAX,
                colors@ == decoded(bytes@).take(i as int),
            decreases count - i,
        {
            let at: usize = 3 * i;
            colors.push(Rgb { r: bytes[at], g: bytes[at + 1], b: bytes[at + 2] });
            assert(colors@ =~= decoded(bytes@).take(i + 1));
            i = i + 1;
        }
        assert(decoded(bytes@).take(count as int) =~= decoded(bytes@));
        colors
    }

    /// The colour at `idx`, if the palette has that many.
    pub fn get(&self, idx: usize) -> (color: Option<Rgb>)
        ensures
            color == if idx < self@.len() {
                Some(self@[idx as int])
            } else {
                None
            },
    {
        if idx < self.colors.len() {
            Some(self.colors[idx])
        } else {
            None
        }
    }

    /// All colours, by index.
    pub fn colors(&self) -> (colors: &Vec<Rgb>)
        ensures
            colors@ == self@,
    {
        &self.colors
    }
}

} // verus!
