use vstd::prelude::*;

verus! {

/// Length of the container header: four magic bytes, a version byte, an
/// attribute-layout byte and a little-endian `u32` point count.
pub const HEADER_LEN: usize = 10;

/// The only container version this decoder reads.
pub const FORMAT_VERSION: u8 = 1;

/// Attribute layout: each record holds a position only.
pub const LAYOUT_POSITION: u8 = 0;

/// Attribute layout: each record holds a position and a packed RGBA colour.
pub const LAYOUT_POSITION_COLOR: u8 = 1;

/// Why a byte stream is not a point-cloud container.
#[derive(Clone, Copy, Debug, PartialEq, Eq, Structural)]
pub enum DecodeError {
    /// The stream ends inside the header or inside a point record.
    TruncatedInput,
    /// The magic bytes or the version byte do not match.
    InvalidHeader,
    /// The attribute-layout byte names no known per-point schema.
    UnsupportedAttributeLayout,
}

/// One decoded point: quantized grid coordinates and an optional colour.
#[derive(Clone, Copy, Debug, PartialEq, Eq)]
pub struct PointRecord {
    pub x: u32,
    pub y: u32,
    pub z: u32,
    pub color: Option<u32>,
}

/// An immutable decoded point cloud: its records, in stream order.
#[derive(Clone, Debug, PartialEq, Eq)]
pub struct PointCloudAsset {
    points: Vec<PointRecord>,
}

impl View for PointCloudAsset {
    type V = Seq<PointRecord>;

    closed spec fn view(&self) -> Seq<PointRecord> {
        self.points@
    }
}

impl PointCloudAsset {
    /// An asset holding exactly the given records.
    pub fn new(points: Vec<PointRecord>) -> (r: PointCloudAsset)
        ensures
            r@ == points@,
    {
        PointCloudAsset { points }
    }

    /// Number of points.
    pub fn len(&self) -> (r: usize)
        ensures
            r == self@.len(),
    {
        self.points.len()
    }

    /// The `i`-th record.
    pub fn point(&self, i: usize) -> (r: PointRecord)
        requires
            i < self@.len(),
        ensures
            r == self@[i as int],
    {
        self.points[i]
    }
}

/// The little-endian `u32` stored at `at`.
pub open spec fn le_u32(b: Seq<u8>, at: int) -> int {
    b[at] as int + 256 * (b[at + 1] as int) + 65536 * (b[at + 2] as int) + 16777216 * (
    b[at + 3] as int)
}

pub open spec fn magic_ok(b: Seq<u8>) -> bool {
    b[0] == 0x4f && b[1] == 0x50 && b[2] == 0x44 && b[3] == 0x43
}

pub open spec fn record_len(layout: u8) -> int {
    if layout == LAYOUT_POSITION_COLOR {
        16
    } else {
        12
    }
}

/// The header's point count.
pub open spec fn point_count(b: Seq<u8>) -> int {
    le_u32(b, 6)
}

/// The `i`-th record of a container whose records have the given layout.
pub open spec fn record_at(b: Seq<u8>, layout: u8, i: int) -> PointRecord {
    let base = HEADER_LEN + i * record_len(layout);
    PointRecord {
        x: le_u32(b, base) as u32,
        y: le_u32(b, base + 4) as u32,
        z: le_u32(b, base + 8) as u32,
        color: if layout == LAYOUT_POSITION_COLOR {
            Some(le_u32(b, base + 12) as u32)
        } else {
            None
        },
    }
}

/// What a byte stream decodes to. Bytes after the last record are ignored.
pub open spec fn decode_spec(b: Seq<u8>) -> Result<Seq<PointRecord>, DecodeError> {
    if b.len() < HEADER_LEN {
        Err(DecodeError::TruncatedInput)
    } else if !magic_ok(b) || b[4] != FORMAT_VERSION {
        Err(DecodeError::InvalidHeader)
    } else if b[5] != LAYOUT_POSITION && b[5] != LAYOUT_POSITION_COLOR {
        Err(DecodeError::UnsupportedAttributeLayout)
    } else if b.len() - HEADER_LEN < point_count(b) * record_len(b[5]) {
        Err(DecodeError::TruncatedInput)
    } else {
        Ok(Seq::new(point_count(b) as nat, |i: int| record_at(b, b[5], i)))
    }
}

fn read_u32(b: &[u8], at: usize) -> (r: u32)
    requires
        at + 4 <= b@.len(),
    ensures
        r == le_u32(b@, at as int),
{
    (b[at] as u32) + (b[at + 1] as u32) * 256 + (b[at + 2] as u32) * 65536 + (b[at + 3] as u32)
        * 16777216
}

/// Decodes a point-cloud container. Deterministic: the result depends on the
/// bytes alone.
pub fn decode(bytes: &[u8]) -> (r: Result<PointCloudAsset, DecodeError>)
    ensures
        match r {
            Ok(a) => decode_spec(bytes@) == Ok::<Seq<PointRecord>, DecodeError>(a@),
            Err(e) => decode_spec(bytes@) == Err::<Seq<PointRecord>, DecodeError>(e),
        },
{
    let len = bytes.len();
    if len < HEADER_LEN {
        return Err(DecodeError::TruncatedInput);
    }
    if !(bytes[0] == 0x4f && bytes[1] == 0x50 && bytes[2] == 0x44 && bytes[3] == 0x43)
        || bytes[4] != FORMAT_VERSION {
        return Err(DecodeError::InvalidHeader);
    }
    let layout = bytes[5];
    if layout != LAYOUT_POSITION && layout != LAYOUT_POSITION_COLOR {
        return Err(DecodeError::UnsupportedAttributeLayout);
    }
    let count = read_u32(bytes, 6);
    let rec: usize = if layout == LAYOUT_POSITION_COLOR { 16 } else { 12 };
    let payload = len - HEADER_LEN;
    if (payload as u64) < (count as u64) * (rec as u64) {
        return Err(DecodeError::TruncatedInput);
    }
    let ghost b = bytes@;
    let mut points: Vec<PointRecord> = Vec::new();
    let mut i: usize = 0;
    while i < count as usize
        invariant
            b == bytes@,
            len == b.len(),
            layout == b[5],
            rec == record_len(layout),
            count == point_count(b),
            HEADER_LEN + count * rec <= len,
            i <= count,
            points@.len() == i,
            forall|k: int| 0 <= k < i ==> points@[k] == record_at(b, layout, k),
        decreases count - i,
    {
        proof {
            assert(i * rec + rec <= count * rec) by (nonlinear_arith)
                requires
                    i < count,
                    rec >= 0,
            ;
        }
        let base = HEADER_LEN + i * rec;
        let x = read_u32(bytes, base);
        let y = read_u32(bytes, base + 4);
        let z = read_u32(bytes, base + 8);
        let color = if layout == LAYOUT_POSITION_COLOR {
            Some(read_u32(bytes, base + 12))
        } else {
            None
        };
        points.push(PointRecord { x, y, z, color });
        i = i + 1;
    }
    let asset = PointCloudAsset { points };
    assert(asset@ =~= Seq::new(point_count(b) as nat, |k: int| record_at(b, b[5], k)));
    Ok(asset)
}

/// Decoding is a function of the bytes: equal byte sequences decode to equal
/// results, so decoding the same input twice gives identical point clouds.
pub proof fn lemma_decode_deterministic(a: Seq<u8>, b: Seq<u8>)
    requires
        a == b,
    ensures
        decode_spec(a) == decode_spec(b),
{
}

} // verus!
