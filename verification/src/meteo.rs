//! The embedded real-world climatology: its binary format and cell lookup.
//!
//! The file holds annual and monthly means of temperature (0.01 °C, signed)
//! and precipitation (0.01 mm/day, unsigned) on a 2.5° grid of 73 rows
//! (90°N to 90°S) and 144 columns (0° to 357.5°):
//!
//! ```text
//! "NV2CLIM1"  nlat:u16le  nlon:u16le
//! t_ann[cells]:i16le  p_ann[cells]:u16le
//! t_mon[12][cells]:i16le  p_mon[12][cells]:u16le
//! ```
//!
//! Interpolation between cells works in floating point and is done by the
//! application on top of the cell accessors here.

use vstd::prelude::*;

verus! {

/// Grid rows (latitudes 90°N … 90°S).
pub const GRID_LAT: usize = 73;
/// Grid columns (longitudes 0° … 357.5°).
pub const GRID_LON: usize = 144;
/// Cells per field.
pub const GRID_CELLS: usize = 10512;
/// Length of the header (magic + two dimensions).
pub const HEADER_LEN: usize = 12;

/// The file's magic bytes, `"NV2CLIM1"`.
pub open spec fn climate_magic() -> Seq<u8> {
    seq![78u8, 86u8, 50u8, 67u8, 76u8, 73u8, 77u8, 49u8]
}

/// The two 16-bit halves of a world seed that place the world on Earth:
/// the low half picks the longitude, the high half the latitude.
pub fn seed_anchor(seed: u32) -> (r: (u16, u16))
    ensures
        r.0 as int == seed as int % 65536,
        r.1 as int == seed as int / 65536,
{
    let lo: u32 = seed % 65536;
    let hi: u32 = seed / 65536;
    (lo as u16, hi as u16)
}

/// Distinct seeds are anchored at distinct places: a seed is recovered
/// from its two halves.
pub proof fn lemma_seed_anchor_injective(a: u32, b: u32)
    requires
        a as int % 65536 == b as int % 65536,
        a as int / 65536 == b as int / 65536,
    ensures
        a == b,
{
}

/// Little-endian `u16` at `off`.
pub open spec fn u16_le(b: Seq<u8>, off: int) -> u16 {
    (b[off] as int + 256 * b[off + 1] as int) as u16
}

/// Little-endian two's-complement `i16` at `off`.
pub open spec fn i16_le(b: Seq<u8>, off: int) -> i16 {
    let u = u16_le(b, off) as int;
    if u >= 32768 {
        (u - 65536) as i16
    } else {
        u as i16
    }
}

/// Bytes a complete file needs: header, two annual fields and two fields
/// of twelve months, two bytes per value.
pub open spec fn climate_file_len() -> int {
    HEADER_LEN + GRID_CELLS * 2 * 26
}

/// The bytes are a climate file the engine can use: the magic, the expected
/// grid dimensions, and at least all the data (extra bytes are ignored).
pub open spec fn valid_climate_bytes(b: Seq<u8>) -> bool {
    &&& b.len() >= HEADER_LEN
    &&& b.take(8) == climate_magic()
    &&& u16_le(b, 8) == GRID_LAT
    &&& u16_le(b, 10) == GRID_LON
    &&& b.len() >= climate_file_len()
}

/// Byte offset of each field.
pub open spec fn t_ann_off() -> int {
    HEADER_LEN as int
}

pub open spec fn p_ann_off() -> int {
    HEADER_LEN + GRID_CELLS * 2
}

pub open spec fn t_mon_off() -> int {
    HEADER_LEN + GRID_CELLS * 4
}

pub open spec fn p_mon_off() -> int {
    HEADER_LEN + GRID_CELLS * 28
}

/// Index of cell (`j`, `i`) within an annual field.
pub open spec fn cell_index(j: int, i: int) -> int {
    j * GRID_LON + i
}

/// Index of month `m`, cell (`j`, `i`) within a monthly field.
pub open spec fn month_cell_index(m: int, j: int, i: int) -> int {
    (m * GRID_LAT + j) * GRID_LON + i
}

/// Real-world climate grid: annual and monthly temperature and
/// precipitation.
pub struct ClimateGrid {
    t_ann: Vec<i16>,
    p_ann: Vec<u16>,
    t_mon: Vec<i16>,
    p_mon: Vec<u16>,
}

impl ClimateGrid {
    /// Every field has one value per cell (per month for monthly fields).
    #[verifier::type_invariant]
    closed spec fn sized(self) -> bool {
        &&& self.t_ann.len() == GRID_CELLS
        &&& self.p_ann.len() == GRID_CELLS
        &&& self.t_mon.len() == GRID_CELLS * 12
        &&& self.p_mon.len() == GRID_CELLS * 12
    }

    /// Annual mean temperatures, 0.01 °C, by cell.
    pub closed spec fn t_ann_view(&self) -> Seq<i16> {
        self.t_ann@
    }

    /// Annual mean precipitation, 0.01 mm/day, by cell.
    pub closed spec fn p_ann_view(&self) -> Seq<u16> {
        self.p_ann@
    }

    /// Monthly mean temperatures, 0.01 °C, by month then cell.
    pub closed spec fn t_mon_view(&self) -> Seq<i16> {
        self.t_mon@
    }

    /// Monthly mean precipitation, 0.01 mm/day, by month then cell.
    pub closed spec fn p_mon_view(&self) -> Seq<u16> {
        self.p_mon@
    }

    /// The grid holds exactly the values stored in `b`.
    pub open spec fn decodes(&self, b: Seq<u8>) -> bool {
        &&& self.t_ann_view().len() == GRID_CELLS
        &&& self.p_ann_view().len() == GRID_CELLS
        &&& self.t_mon_view().len() == GRID_CELLS * 12
        &&& self.p_mon_view().len() == GRID_CELLS * 12
        &&& forall|k: int| 0 <= k < GRID_CELLS ==> #[trigger] self.t_ann_view()[k] == i16_le(b, t_ann_off() + 2 * k)
        &&& forall|k: int| 0 <= k < GRID_CELLS ==> #[trigger] self.p_ann_view()[k] == u16_le(b, p_ann_off() + 2 * k)
        &&& forall|k: int| 0 <= k < GRID_CELLS * 12 ==> #[trigger] self.t_mon_view()[k] == i16_le(b, t_mon_off() + 2 * k)
        &&& forall|k: int| 0 <= k < GRID_CELLS * 12 ==> #[trigger] self.p_mon_view()[k] == u16_le(b, p_mon_off() + 2 * k)
    }

    /// Every value of the grid is zero.
    pub open spec fn is_zero(&self) -> bool {
        &&& self.t_ann_view() == Seq::new(GRID_CELLS as nat, |k: int| 0i16)
        &&& self.p_ann_view() == Seq::new(GRID_CELLS as nat, |k: int| 0u16)
        &&& self.t_mon_view() == Seq::new((GRID_CELLS * 12) as nat, |k: int| 0i16)
        &&& self.p_mon_view() == Seq::new((GRID_CELLS * 12) as nat, |k: int| 0u16)
    }

    /// Decode the embedded climate file. `None` when the bytes are too
    /// short, the magic or the grid dimensions are wrong, or data is
    /// missing.
    pub fn parse(bytes: &[u8]) -> (r: Option<ClimateGrid>)
        ensures
            r is Some <==> valid_climate_bytes(bytes@),
            r matches Some(g) ==> g.decodes(bytes@),
    {
        if bytes.len() < HEADER_LEN {
            return None;
        }
        let magic: [u8; 8] = [78u8, 86u8, 50u8, 67u8, 76u8, 73u8, 77u8, 49u8];
        let mut k: usize = 0;
        while k < 8
            invariant
                bytes.len() >= HEADER_LEN,
                k <= 8,
                magic@ == climate_magic(),
                forall|j: int| 0 <= j < k ==> bytes@[j] == magic@[j],
            decreases 8 - k,
        {
            if bytes[k] != magic[k] {
                proof {
                    assert(bytes@.take(8)[k as int] != climate_magic()[k as int]);
                }
                return None;
            }
            k = k + 1;
        }
        assert(bytes@.take(8) =~= climate_magic());
        let nlat = read_u16(bytes, 8);
        let nlon = read_u16(bytes, 10);
        if nlat as usize != GRID_LAT || nlon as usize != GRID_LON {
            return None;
        }
        if bytes.len() < HEADER_LEN + GRID_CELLS * 2 * 26 {
            return None;
        }
        let t_ann = read_i16s(bytes, HEADER_LEN, GRID_CELLS);
        let p_ann = read_u16s(bytes, HEADER_LEN + GRID_CELLS * 2, GRID_CELLS);
        let t_mon = read_i16s(bytes, HEADER_LEN + GRID_CELLS * 4, GRID_CELLS * 12);
        let p_mon = read_u16s(bytes, HEADER_LEN + GRID_CELLS * 28, GRID_CELLS * 12);
        Some(ClimateGrid { t_ann, p_ann, t_mon, p_mon })
    }

    /// A grid of zeros (the fallback for a damaged climate file).
    pub fn zero() -> (g: ClimateGrid)
        ensures
            g.is_zero(),
    {
        let t_ann = vec_of_i16(0, GRID_CELLS);
        let p_ann = vec_of_u16(0, GRID_CELLS);
        let t_mon = vec_of_i16(0, GRID_CELLS * 12);
        let p_mon = vec_of_u16(0, GRID_CELLS * 12);
        ClimateGrid { t_ann, p_ann, t_mon, p_mon }
    }

    /// Annual mean temperature (0.01 °C) of cell (`j`, `i`).
    pub fn annual_temp(&self, j: usize, i: usize) -> (r: i16)
        requires
            j < GRID_LAT,
            i < GRID_LON,
        ensures
            r == self.t_ann_view()[cell_index(j as int, i as int)],
    {
        proof {
            use_type_invariant(self);
        }
        self.t_ann[j * GRID_LON + i]
    }

    /// Annual mean precipitation (0.01 mm/day) of cell (`j`, `i`).
    pub fn annual_precip(&self, j: usize, i: usize) -> (r: u16)
        requires
            j < GRID_LAT,
            i < GRID_LON,
        ensures
            r == self.p_ann_view()[cell_index(j as int, i as int)],
    {
        proof {
            use_type_invariant(self);
        }
        self.p_ann[j * GRID_LON + i]
    }

    /// Mean temperature (0.01 °C) of month `m` (0 = January) in cell
    /// (`j`, `i`).
    pub fn monthly_temp(&self, m: usize, j: usize, i: usize) -> (r: i16)
        requires
            m < 12,
            j < GRID_LAT,
            i < GRID_LON,
        ensures
            r == self.t_mon_view()[month_cell_index(m as int, j as int, i as int)],
    {
        proof {
            use_type_invariant(self);
            assert(month_cell_index(m as int, j as int, i as int) < GRID_CELLS * 12) by (nonlinear_arith)
                requires
                    m < 12,
                    j < GRID_LAT,
                    i < GRID_LON,
            ;
        }
        self.t_mon[(m * GRID_LAT + j) * GRID_LON + i]
    }

    /// Mean precipitation (0.01 mm/day) of month `m` in cell (`j`, `i`).
    pub fn monthly_precip(&self, m: usize, j: usize, i: usize) -> (r: u16)
        requires
            m < 12,
            j < GRID_LAT,
            i < GRID_LON,
        ensures
            r == self.p_mon_view()[month_cell_index(m as int, j as int, i as int)],
    {
        proof {
            use_type_invariant(self);
            assert(month_cell_index(m as int, j as int, i as int) < GRID_CELLS * 12) by (nonlinear_arith)
                requires
                    m < 12,
                    j < GRID_LAT,
                    i < GRID_LON,
            ;
        }
        self.p_mon[(m * GRID_LAT + j) * GRID_LON + i]
    }
}

/// The climatology from the embedded file, or a grid of zeros when the file
/// is damaged (so the game still starts).
pub fn climate_grid(bytes: &[u8]) -> (g: ClimateGrid)
    ensures
        valid_climate_bytes(bytes@) ==> g.decodes(bytes@),
        !valid_climate_bytes(bytes@) ==> g.is_zero(),
{
    match ClimateGrid::parse(bytes) {
        Some(g) => g,
        None => ClimateGrid::zero(),
    }
}

/// Little-endian `u16` at `off`.
fn read_u16(bytes: &[u8], off: usize) -> (r: u16)
    requires
        off + 1 < bytes.len(),
    ensures
        r == u16_le(bytes@, off as int),
{
    let lo = bytes[off] as u16;
    let hi = bytes[off + 1] as u16;
    lo + hi * 256
}

/// Little-endian `i16` at `off`.
fn read_i16(bytes: &[u8], off: usize) -> (r: i16)
    requires
        off + 1 < bytes.len(),
    ensures
        r == i16_le(bytes@, off as int),
{
    let u = read_u16(bytes, off);
    if u >= 32768 {
        let v: i32 = u as i32 - 65536;
        v as i16
    } else {
        u as i16
    }
}

/// `n` little-endian `u16` values starting at `off`.
fn read_u16s(bytes: &[u8], off: usize, n: usize) -> (v: Vec<u16>)
    requires
        off + 2 * n <= bytes.len(),
    ensures
        v.len() == n,
        forall|k: int| 0 <= k < n ==> #[trigger] v[k] == u16_le(bytes@, off + 2 * k),
{
    let mut v: Vec<u16> = Vec::new();
    let mut k: usize = 0;
    while k < n
        invariant
            off + 2 * n <= bytes.len(),
            k <= n,
            v.len() == k,
            forall|q: int| 0 <= q < k ==> #[trigger] v[q] == u16_le(bytes@, off + 2 * q),
        decreases n - k,
    {
        v.push(read_u16(bytes, off + 2 * k));
        k = k + 1;
    }
    v
}

/// `n` little-endian `i16` values starting at `off`.
fn read_i16s(bytes: &[u8], off: usize, n: usize) -> (v: Vec<i16>)
    requires
        off + 2 * n <= bytes.len(),
    ensures
        v.len() == n,
        forall|k: int| 0 <= k < n ==> #[trigger] v[k] == i16_le(bytes@, off + 2 * k),
{
    let mut v: Vec<i16> = Vec::new();
    let mut k: usize = 0;
    while k < n
        invariant
            off + 2 * n <= bytes.len(),
            k <= n,
            v.len() == k,
            forall|q: int| 0 <= q < k ==> #[trigger] v[q] == i16_le(bytes@, off + 2 * q),
        decreases n - k,
    {
        v.push(read_i16(bytes, off + 2 * k));
        k = k + 1;
    }
    v
}

/// `n` copies of `x`.
fn vec_of_i16(x: i16, n: usize) -> (v: Vec<i16>)
    ensures
        v@ == Seq::new(n as nat, |k: int| x),
{
    let mut v: Vec<i16> = Vec::new();
    let mut k: usize = 0;
    while k < n
        invariant
            k <= n,
            v@ == Seq::new(k as nat, |q: int| x),
        decreases n - k,
    {
        v.push(x);
        k = k + 1;
        assert(v@ =~= Seq::new(k as nat, |q: int| x));
    }
    v
}

/// `n` copies of `x`.
fn vec_of_u16(x: u16, n: usize) -> (v: Vec<u16>)
    ensures
        v@ == Seq::new(n as nat, |k: int| x),
{
    let mut v: Vec<u16> = Vec::new();
    let mut k: usize = 0;
    while k < n
        invariant
            k <= n,
            v@ == Seq::new(k as nat, |q: int| x),
        decreases n - k,
    {
        v.push(x);
        k = k + 1;
        assert(v@ =~= Seq::new(k as nat, |q: int| x));
    }
    v
}

} // verus!
