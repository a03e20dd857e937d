use vstd::prelude::*;

verus! {

/// Packs four channel bytes into one little-endian word: `r` is the lowest byte.
pub open spec fn pack(r: u8, g: u8, b: u8, a: u8) -> u32 {
    (r as int + 0x100 * g as int + 0x1_0000 * b as int + 0x100_0000 * a as int) as u32
}

/// The channel bytes of a packed word, in the order red, green, blue, alpha.
pub open spec fn unpack(v: u32) -> (u8, u8, u8, u8) {
    (
        (v % 0x100) as u8,
        ((v / 0x100) % 0x100) as u8,
        ((v / 0x1_0000) % 0x100) as u8,
        (v / 0x100_0000) as u8,
    )
}

/// An RGBA colour packed into four bytes, red in the lowest one.
#[derive(Clone, Copy, Debug, Default, PartialEq, Eq, PartialOrd, Ord, Hash, Structural)]
pub struct Color(pub u32);

impl Color {
    /// Fully transparent black: the value of an empty cell.
    pub fn transparent_black() -> (c: Color)
        ensures
            c.0 == 0,
    {
        Color(0)
    }

    /// Opaque black.
    pub fn black() -> (c: Color)
        ensures
            c.0 == pack(0, 0, 0, 255),
    {
        Color(0xFF00_0000)
    }

    /// Opaque red.
    pub fn red_opaque() -> (c: Color)
        ensures
            c.0 == pack(255, 0, 0, 255),
    {
        Color(0xFF00_00FF)
    }

    /// Opaque green.
    pub fn green_opaque() -> (c: Color)
        ensures
            c.0 == pack(0, 255, 0, 255),
    {
        Color(0xFF00_FF00)
    }

    /// Opaque blue.
    pub fn blue_opaque() -> (c: Color)
        ensures
            c.0 == pack(0, 0, 255, 255),
    {
        Color(0xFFFF_0000)
    }

    pub open spec fn red(self) -> u8 {
        unpack(self.0).0
    }

    pub open spec fn green(self) -> u8 {
        unpack(self.0).1
    }

    pub open spec fn blue(self) -> u8 {
        unpack(self.0).2
    }

    pub open spec fn alpha(self) -> u8 {
        unpack(self.0).3
    }

    /// A colour from its four channel bytes.
    pub fn rgba8(r: u8, g: u8, b: u8, a: u8) -> (c: Color)
        ensures
            c.0 == pack(r, g, b, a),
            c.red() == r,
            c.green() == g,
            c.blue() == b,
            c.alpha() == a,
    {
        proof {
            lemma_unpack_pack(r, g, b, a);
        }
        Color(r as u32 + 0x100 * (g as u32) + 0x1_0000 * (b as u32) + 0x100_0000 * (a as u32))
    }

    /// An opaque colour from three channel bytes.
    pub fn rgb8(r: u8, g: u8, b: u8) -> (c: Color)
        ensures
            c.0 == pack(r, g, b, 255),
            c.red() == r,
            c.green() == g,
            c.blue() == b,
            c.alpha() == 255,
    {
        Self::rgba8(r, g, b, 255)
    }

    /// The four channel bytes, in the order red, green, blue, alpha.
    pub fn to_rgba8(self) -> (bytes: [u8; 4])
        ensures
            bytes@ == seq![self.red(), self.green(), self.blue(), self.alpha()],
    {
        let v = self.0;
        let bytes = [
            (v % 0x100) as u8,
            ((v / 0x100) % 0x100) as u8,
            ((v / 0x1_0000) % 0x100) as u8,
            (v / 0x100_0000) as u8,
        ];
        assert(bytes@ =~= seq![self.red(), self.green(), self.blue(), self.alpha()]);
        bytes
    }
}

/// Unpacking what was packed gives back the same four channel bytes.
pub proof fn lemma_unpack_pack(r: u8, g: u8, b: u8, a: u8)
    ensures
        unpack(pack(r, g, b, a)) == (r, g, b, a),
{
    let v: int = r as int + 0x100 * g as int + 0x1_0000 * b as int + 0x100_0000 * a as int;
    assert(0 <= v < 0x1_0000_0000);
    assert(v % 0x100 == r) by (nonlinear_arith)
        requires v == r as int + 0x100 * g as int + 0x1_0000 * b as int + 0x100_0000 * a as int,
            0 <= r < 0x100, 0 <= g < 0x100, 0 <= b < 0x100, 0 <= a < 0x100;
    assert(v / 0x100 == g as int + 0x100 * b as int + 0x1_0000 * a as int) by (nonlinear_arith)
        requires v == r as int + 0x100 * g as int + 0x1_0000 * b as int + 0x100_0000 * a as int,
            0 <= r < 0x100, 0 <= g < 0x100, 0 <= b < 0x100, 0 <= a < 0x100;
    assert(v / 0x1_0000 == b as int + 0x100 * a as int) by (nonlinear_arith)
        requires v == r as int + 0x100 * g as int + 0x1_0000 * b as int + 0x100_0000 * a as int,
            0 <= r < 0x100, 0 <= g < 0x100, 0 <= b < 0x100, 0 <= a < 0x100;
    assert(v / 0x100_0000 == a as int) by (nonlinear_arith)
        requires v == r as int + 0x100 * g as int + 0x1_0000 * b as int + 0x100_0000 * a as int,
            0 <= r < 0x100, 0 <= g < 0x100, 0 <= b < 0x100, 0 <= a < 0x100;
}

/// Packing the channel bytes of a packed word gives back the same word: a
/// colour decoded to its channels and encoded again is bit-for-bit unchanged.
pub proof fn lemma_pack_unpack(v: u32)
    ensures
        pack(unpack(v).0, unpack(v).1, unpack(v).2, unpack(v).3) == v,
{
    let x = v as int;
    assert(x == x % 0x100 + 0x100 * ((x / 0x100) % 0x100) + 0x1_0000 * ((x / 0x1_0000) % 0x100)
        + 0x100_0000 * (x / 0x100_0000)) by (nonlinear_arith)
        requires 0 <= x < 0x1_0000_0000;
}

/// Cells along each axis of a chunk.
pub const CHUNK_SIZE: usize = 16;

/// Cells in a chunk.
pub const CHUNK_VOLUME: usize = CHUNK_SIZE * CHUNK_SIZE * CHUNK_SIZE;

/// Twice the coordinate of the sphere generator's centre on each axis: the
/// centre of the grid, at 7.5 voxels.
pub const SPHERE_CENTER_DOUBLED: u8 = 15;

/// The sphere generator's radius, in voxels.
pub const SPHERE_RADIUS: u8 = 5;

/// The cell coordinates of a linear index: `index == x + SIZE * (y + SIZE * z)`.
pub open spec fn coords_of(index: int) -> (int, int, int) {
    (index % 16, (index / 16) % 16, index / 256)
}

/// The linear index `x + SIZE * (y + SIZE * z)` of a cell has the cell's
/// coordinates, and every index of the chunk is one cell's.
pub proof fn lemma_coords_of_index(x: int, y: int, z: int)
    requires
        0 <= x < 16,
        0 <= y < 16,
        0 <= z < 16,
    ensures
        0 <= x + 16 * (y + 16 * z) < CHUNK_VOLUME,
        coords_of(x + 16 * (y + 16 * z)) == (x, y, z),
{
    let i = x + 16 * (y + 16 * z);
    assert(i % 16 == x && i / 16 == y + 16 * z) by (nonlinear_arith)
        requires i == x + 16 * (y + 16 * z), 0 <= x < 16, 0 <= y < 16, 0 <= z < 16;
    assert((y + 16 * z) % 16 == y && i / 256 == z) by (nonlinear_arith)
        requires i == x + 16 * (y + 16 * z), 0 <= x < 16, 0 <= y < 16, 0 <= z < 16;
}

/// Whether the cell at `(x, y, z)` lies strictly closer than the radius to the
/// centre whose doubled coordinate is `c2` (compared in half-voxel units).
pub open spec fn in_sphere(x: int, y: int, z: int, c2: int) -> bool {
    let dx = 2 * x - c2;
    let dy = 2 * y - c2;
    let dz = 2 * z - c2;
    dx * dx + dy * dy + dz * dz < 4 * (SPHERE_RADIUS as int) * (SPHERE_RADIUS as int)
}

/// The colour that the sphere generator gives the cell at a linear index.
pub open spec fn sphere_cell(index: int, c2: int) -> Color {
    let (x, y, z) = coords_of(index);
    if in_sphere(x, y, z, c2) {
        Color(pack((20 * x % 256) as u8, (20 * y % 256) as u8, (20 * z % 256) as u8, 255))
    } else {
        Color(0)
    }
}

/// A fixed-size dense cube of colours, indexed by `x + SIZE * (y + SIZE * z)`.
#[derive(Clone, Debug, PartialEq)]
pub struct Chunk {
    pub colors: [Color; 4096],
}

impl Chunk {
    pub const SIZE: usize = CHUNK_SIZE;

    pub const VOLUME: usize = CHUNK_VOLUME;

    /// A chunk whose every cell holds `color`.
    pub fn all_same(color: Color) -> (chunk: Chunk)
        ensures
            forall|i: int| 0 <= i < CHUNK_VOLUME ==> #[trigger] chunk.colors@[i] == color,
    {
        Chunk { colors: [color; 4096] }
    }

    /// The solid sphere around the centre of the grid: see
    /// [`Chunk::new_sphere_around`].
    pub fn new_sphere() -> (chunk: Chunk)
        ensures
            forall|i: int|
                0 <= i < CHUNK_VOLUME ==> #[trigger] chunk.colors@[i] == sphere_cell(
                    i,
                    SPHERE_CENTER_DOUBLED as int,
                ),
    {
        Self::new_sphere_around(SPHERE_CENTER_DOUBLED)
    }

    /// Fills every cell closer than the radius to the centre `(c, c, c)`, where
    /// `center_doubled == 2 * c`, with the opaque colour `(20x, 20y, 20z)`
    /// (each channel taken modulo 256), and every other cell with transparent
    /// black.
    pub fn new_sphere_around(center_doubled: u8) -> (chunk: Chunk)
        ensures
            forall|i: int|
                0 <= i < CHUNK_VOLUME ==> #[trigger] chunk.colors@[i] == sphere_cell(
                    i,
                    center_doubled as int,
                ),
    {
        let mut colors: [Color; 4096] = [Color(0); 4096];
        let c2 = center_doubled as i64;
        let mut index: usize = 0;
        while index < 4096
            invariant
                0 <= index <= 4096,
                c2 == center_doubled as i64,
                forall|j: int| 0 <= j < index ==> #[trigger] colors@[j] == sphere_cell(j, c2 as int),
            decreases 4096 - index,
        {
            let x = index % 16;
            let y = (index / 16) % 16;
            let z = index / 256;
            let dx = 2 * (x as i64) - c2;
            let dy = 2 * (y as i64) - c2;
            let dz = 2 * (z as i64) - c2;
            assert(0 <= dx * dx <= 65025 && 0 <= dy * dy <= 65025 && 0 <= dz * dz <= 65025) by (nonlinear_arith)
                requires -255 <= dx <= 255, -255 <= dy <= 255, -255 <= dz <= 255;
            let r = SPHERE_RADIUS as i64;
            let cell = if dx * dx + dy * dy + dz * dz < 4 * r * r {
                Color::rgb8((20 * x % 256) as u8, (20 * y % 256) as u8, (20 * z % 256) as u8)
            } else {
                Color(0)
            };
            assert(cell == sphere_cell(index as int, c2 as int));
            colors[index] = cell;
            index = index + 1;
        }
        Chunk { colors }
    }
}

impl Default for Chunk {
    /// A chunk of opaque black cells.
    fn default() -> (chunk: Chunk)
        ensures
            forall|i: int| 0 <= i < CHUNK_VOLUME ==> #[trigger] chunk.colors@[i] == Color(
                pack(0, 0, 0, 255),
            ),
    {
        Self::all_same(Color::black())
    }
}

/// Every chunk holds exactly `SIZE³` cells, whichever way it was made.
pub proof fn lemma_chunk_volume(chunk: Chunk)
    ensures
        chunk.colors@.len() == CHUNK_VOLUME,
        CHUNK_VOLUME == 4096,
{
}

/// The sphere generator is a pure function of the grid: any two chunks that
/// meet its postcondition are identical, cell for cell.
pub proof fn lemma_sphere_deterministic(a: Chunk, b: Chunk)
    requires
        forall|i: int|
            0 <= i < CHUNK_VOLUME ==> #[trigger] a.colors@[i] == sphere_cell(i, SPHERE_CENTER_DOUBLED as int),
        forall|i: int|
            0 <= i < CHUNK_VOLUME ==> #[trigger] b.colors@[i] == sphere_cell(i, SPHERE_CENTER_DOUBLED as int),
    ensures
        a == b,
{
    assert(a.colors =~= b.colors);
}

} // verus!
