use vstd::prelude::*;
use vstd::string::StringExecFns;

verus! {

/// The four bytes of `x`, least significant first.
pub open spec fn le_bytes(x: u32) -> Seq<u8> {
    seq![(x % 256) as u8, ((x / 256) % 256) as u8, ((x / 65536) % 256) as u8, (x / 16777216) as u8]
}

/// The bytes of three 32-bit words, each little-endian.
pub open spec fn triple_bytes(t: [u32; 3]) -> Seq<u8> {
    le_bytes(t@[0]) + le_bytes(t@[1]) + le_bytes(t@[2])
}

/// The bytes of an RGB triple.
pub open spec fn rgb_bytes(c: [u8; 3]) -> Seq<u8> {
    seq![c@[0], c@[1], c@[2]]
}

/// Bytes per point record: a position, then an RGB triple when colors are
/// present, then a normal when normals are present.
pub open spec fn record_len(has_colors: bool, has_normals: bool) -> nat {
    12 + (if has_colors { 3nat } else { 0nat }) + (if has_normals { 12nat } else { 0nat })
}

/// One point as the tile writer reads it. Coordinates are IEEE-754 single
/// precision values given by their bit patterns.
#[derive(Debug, Clone, Copy)]
pub struct TilePoint {
    pub position: [u32; 3],
    pub color: Option<[u8; 3]>,
    pub normal: Option<[u32; 3]>,
}

/// The columns of one tile. Coordinates are IEEE-754 single precision bit
/// patterns; colors are 8-bit channels.
#[derive(Debug, Clone)]
pub struct EptPointData {
    pub positions: Vec<[u32; 3]>,
    pub colors: Option<Vec<[u8; 3]>>,
    pub normals: Option<Vec<[u32; 3]>>,
}

/// The white written for a point that carries no color.
pub open spec fn white() -> [u8; 3] {
    [255u8, 255u8, 255u8]
}

/// The bit pattern of a zero vector, written for a point that carries no normal.
pub open spec fn zero_normal() -> [u32; 3] {
    [0u32, 0u32, 0u32]
}

impl EptPointData {
    /// Every present column has one entry per position.
    pub open spec fn wf(&self) -> bool {
        &&& self.colors matches Some(c) ==> c@.len() == self.positions@.len()
        &&& self.normals matches Some(n) ==> n@.len() == self.positions@.len()
    }

    /// The bytes of record `i`.
    pub open spec fn record_bytes(&self, i: int) -> Seq<u8> {
        triple_bytes(self.positions@[i]) + match self.colors {
            Some(c) => rgb_bytes(c@[i]),
            None => Seq::<u8>::empty(),
        } + match self.normals {
            Some(n) => triple_bytes(n@[i]),
            None => Seq::<u8>::empty(),
        }
    }

    /// The bytes of the first `k` records, in order.
    pub open spec fn tile_bytes(&self, k: nat) -> Seq<u8>
        decreases k,
    {
        if k == 0 {
            Seq::<u8>::empty()
        } else {
            self.tile_bytes((k - 1) as nat) + self.record_bytes(k - 1)
        }
    }

    /// The columns of the points in `points`, in order. Colors are kept only
    /// when `has_colors` holds, with white for a point without one; normals
    /// only when `has_normals` holds, with the zero vector for a point without.
    pub fn from_points(points: &Vec<TilePoint>, has_colors: bool, has_normals: bool) -> (r: EptPointData)
        ensures
            r.wf(),
            r.positions@.len() == points@.len(),
            forall|i: int| 0 <= i < points@.len() ==> #[trigger] r.positions@[i] == points@[i].position,
            r.colors is Some <==> has_colors,
            r.normals is Some <==> has_normals,
            r.colors matches Some(c) ==> forall|i: int|
                0 <= i < points@.len() ==> #[trigger] c@[i] == match points@[i].color {
                    Some(v) => v,
                    None => white(),
                },
            r.normals matches Some(n) ==> forall|i: int|
                0 <= i < points@.len() ==> #[trigger] n@[i] == match points@[i].normal {
                    Some(v) => v,
                    None => zero_normal(),
                },
    {
        let mut positions: Vec<[u32; 3]> = Vec::new();
        let mut colors: Vec<[u8; 3]> = Vec::new();
        let mut normals: Vec<[u32; 3]> = Vec::new();
        let mut i: usize = 0;
        while i < points.len()
            invariant
                i <= points@.len(),
                positions@.len() == i,
                colors@.len() == i,
                normals@.len() == i,
                forall|j: int| 0 <= j < i ==> #[trigger] positions@[j] == points@[j].position,
                forall|j: int| 0 <= j < i ==> #[trigger] colors@[j] == match points@[j].color {
                    Some(v) => v,
                    None => white(),
                },
                forall|j: int| 0 <= j < i ==> #[trigger] normals@[j] == match points@[j].normal {
                    Some(v) => v,
                    None => zero_normal(),
                },
            decreases points@.len() - i,
        {
            let p = points[i];
            positions.push(p.position);
            let c: [u8; 3] = match p.color {
                Some(v) => v,
                None => [255u8, 255u8, 255u8],
            };
            colors.push(c);
            let n: [u32; 3] = match p.normal {
                Some(v) => v,
                None => [0u32, 0u32, 0u32],
            };
            normals.push(n);
            i = i + 1;
        }
        EptPointData {
            positions,
            colors: if has_colors { Some(colors) } else { None },
            normals: if has_normals { Some(normals) } else { None },
        }
    }

    /// The binary tile: one record per position, in order, each holding the
    /// position, then the color if colors are present, then the normal if
    /// normals are present.
    pub fn encode(&self) -> (r: Vec<u8>)
        requires
            self.wf(),
            self.positions@.len() * 27 <= usize::MAX,
        ensures
            r@ == self.tile_bytes(self.positions@.len()),
            r@.len() == self.positions@.len() * record_len(self.colors is Some, self.normals is Some),
    {
        let mut out: Vec<u8> = Vec::new();
        let mut i: usize = 0;
        while i < self.positions.len()
            invariant
                self.wf(),
                i <= self.positions@.len(),
                out@ == self.tile_bytes(i as nat),
            decreases self.positions@.len() - i,
        {
            let before = Ghost(out@);
            push_triple(&mut out, self.positions[i]);
            match &self.colors {
                Some(c) => {
                    let v = c[i];
                    out.push(v[0]);
                    out.push(v[1]);
                    out.push(v[2]);
                },
                None => {},
            }
            match &self.normals {
                Some(n) => {
                    push_triple(&mut out, n[i]);
                },
                None => {},
            }
            assert(out@ =~= before@ + self.record_bytes(i as int));
            i = i + 1;
        }
        proof {
            self.lemma_tile_len(self.positions@.len());
        }
        out
    }

    /// Each record takes `record_len` bytes.
    pub proof fn lemma_tile_len(&self, k: nat)
        requires
            self.wf(),
            k <= self.positions@.len(),
        ensures
            self.tile_bytes(k).len() == k * record_len(self.colors is Some, self.normals is Some),
        decreases k,
    {
        if k > 0 {
            let j = (k - 1) as nat;
            self.lemma_tile_len(j);
            let l = record_len(self.colors is Some, self.normals is Some);
            assert(self.record_bytes(j as int).len() == l);
            assert(self.tile_bytes(k) == self.tile_bytes(j) + self.record_bytes(j as int));
            assert(j * l + l == k * l) by (nonlinear_arith)
                requires
                    j + 1 == k,
            ;
        } else {
            assert(self.tile_bytes(0).len() == 0);
            assert(0 * record_len(self.colors is Some, self.normals is Some) == 0);
        }
    }
}

/// A tile of `n` points takes `n` times 12 bytes, plus 3 per point with
/// colors, plus 12 per point with normals.
pub proof fn lemma_tile_size(data: EptPointData)
    requires
        data.wf(),
    ensures
        data.tile_bytes(data.positions@.len()).len() == data.positions@.len() * (12
            + (if data.colors is Some { 3int } else { 0int }) + (if data.normals is Some { 12int } else { 0int })),
{
    data.lemma_tile_len(data.positions@.len());
}

/// Whether any point carries a normal, and whether any carries a color.
pub fn attribute_flags(points: &Vec<TilePoint>) -> (r: (bool, bool))
    ensures
        r.0 == exists|i: int| 0 <= i < points@.len() && (#[trigger] points@[i]).normal is Some,
        r.1 == exists|i: int| 0 <= i < points@.len() && (#[trigger] points@[i]).color is Some,
{
    let mut has_normals = false;
    let mut has_colors = false;
    let mut i: usize = 0;
    while i < points.len()
        invariant
            i <= points@.len(),
            has_normals == exists|j: int| 0 <= j < i && (#[trigger] points@[j]).normal is Some,
            has_colors == exists|j: int| 0 <= j < i && (#[trigger] points@[j]).color is Some,
        decreases points@.len() - i,
    {
        let p = points[i];
        if p.normal.is_some() {
            has_normals = true;
        }
        if p.color.is_some() {
            has_colors = true;
        }
        i = i + 1;
        assert(has_normals == exists|j: int| 0 <= j < i && (#[trigger] points@[j]).normal is Some) by {
            if p.normal is Some {
                assert(points@[i - 1].normal is Some);
            }
        }
        assert(has_colors == exists|j: int| 0 <= j < i && (#[trigger] points@[j]).color is Some) by {
            if p.color is Some {
                assert(points@[i - 1].color is Some);
            }
        }
    }
    (has_normals, has_colors)
}

/// The record of one point in a tile with colors when `has_colors` holds and
/// normals when `has_normals` holds: its position, then its color (white when
/// it has none), then its normal (zero when it has none).
pub open spec fn point_record(p: TilePoint, has_colors: bool, has_normals: bool) -> Seq<u8> {
    triple_bytes(p.position) + (if has_colors {
        rgb_bytes(
            match p.color {
                Some(v) => v,
                None => white(),
            },
        )
    } else {
        Seq::<u8>::empty()
    }) + (if has_normals {
        triple_bytes(
            match p.normal {
                Some(v) => v,
                None => zero_normal(),
            },
        )
    } else {
        Seq::<u8>::empty()
    })
}

/// The records of the first `k` points, in order.
pub open spec fn points_bytes(points: Seq<TilePoint>, has_colors: bool, has_normals: bool, k: nat) -> Seq<u8>
    decreases k,
{
    if k == 0 {
        Seq::<u8>::empty()
    } else {
        points_bytes(points, has_colors, has_normals, (k - 1) as nat) + point_record(
            points[k - 1],
            has_colors,
            has_normals,
        )
    }
}

proof fn lemma_columns_bytes(d: EptPointData, points: Seq<TilePoint>, has_colors: bool, has_normals: bool, k: nat)
    requires
        d.wf(),
        k <= points.len(),
        d.positions@.len() == points.len(),
        forall|i: int| 0 <= i < points.len() ==> #[trigger] d.positions@[i] == points[i].position,
        d.colors is Some <==> has_colors,
        d.normals is Some <==> has_normals,
        d.colors matches Some(c) ==> forall|i: int|
            0 <= i < points.len() ==> #[trigger] c@[i] == match points[i].color {
                Some(v) => v,
                None => white(),
            },
        d.normals matches Some(n) ==> forall|i: int|
            0 <= i < points.len() ==> #[trigger] n@[i] == match points[i].normal {
                Some(v) => v,
                None => zero_normal(),
            },
    ensures
        d.tile_bytes(k) == points_bytes(points, has_colors, has_normals, k),
    decreases k,
{
    if k > 0 {
        lemma_columns_bytes(d, points, has_colors, has_normals, (k - 1) as nat);
        assert(d.record_bytes(k - 1) == point_record(points[k - 1], has_colors, has_normals));
    }
}

/// The root tile of a cloud: one record per point, in order, laid out as
/// `point_record` says.
pub fn tile_contents(points: &Vec<TilePoint>, has_colors: bool, has_normals: bool) -> (r: Vec<u8>)
    requires
        points@.len() * 27 <= usize::MAX,
    ensures
        r@ == points_bytes(points@, has_colors, has_normals, points@.len()),
        r@.len() == points@.len() * record_len(has_colors, has_normals),
{
    let d = EptPointData::from_points(points, has_colors, has_normals);
    let r = d.encode();
    proof {
        lemma_columns_bytes(d, points@, has_colors, has_normals, points@.len());
    }
    r
}

/// Appends the four bytes of `x`, least significant first.
fn push_u32_le(out: &mut Vec<u8>, x: u32)
    ensures
        final(out)@ == old(out)@ + le_bytes(x),
{
    let b0 = (x & 0xff) as u8;
    let b1 = ((x >> 8) & 0xff) as u8;
    let b2 = ((x >> 16) & 0xff) as u8;
    let b3 = ((x >> 24) & 0xff) as u8;
    assert(x & 0xff == x % 256) by (bit_vector);
    assert((x >> 8) & 0xff == (x / 256) % 256) by (bit_vector);
    assert((x >> 16) & 0xff == (x / 65536) % 256) by (bit_vector);
    assert((x >> 24) & 0xff == x / 16777216) by (bit_vector);
    out.push(b0);
    out.push(b1);
    out.push(b2);
    out.push(b3);
    assert(out@ =~= old(out)@ + le_bytes(x));
}

/// Appends three words, each little-endian.
fn push_triple(out: &mut Vec<u8>, t: [u32; 3])
    ensures
        final(out)@ == old(out)@ + triple_bytes(t),
{
    push_u32_le(out, t[0]);
    push_u32_le(out, t[1]);
    push_u32_le(out, t[2]);
    assert(out@ =~= old(out)@ + triple_bytes(t));
}

} // verus!
