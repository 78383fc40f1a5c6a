use vstd::prelude::*;

verus! {

/// A vector of three single-precision components, each carried as the
/// raw IEEE 754 bit pattern of its coordinate.
#[derive(Clone, Copy, Debug, PartialEq, Eq, Structural)]
pub struct Vec3f {
    pub x: u32,
    pub y: u32,
    pub z: u32,
}

/// One facet of the output mesh: its normal vector and its three vertex
/// positions. No color, material or metadata fields exist in the format.
#[derive(Clone, Copy, Debug, PartialEq, Eq, Structural)]
pub struct Facet {
    pub normal: Vec3f,
    pub a: Vec3f,
    pub b: Vec3f,
    pub c: Vec3f,
}

/// The four bytes of a 32-bit word, least significant first.
pub open spec fn le32(x: u32) -> Seq<u8> {
    seq![
        (x & 0xff) as u8,
        ((x >> 8) & 0xff) as u8,
        ((x >> 16) & 0xff) as u8,
        ((x >> 24) & 0xff) as u8,
    ]
}

/// The twelve bytes of a vector: its three words, little-endian.
pub open spec fn vec3_bytes(v: Vec3f) -> Seq<u8> {
    le32(v.x) + le32(v.y) + le32(v.z)
}

/// The 50-byte record of one facet: normal, the three vertices, and the
/// two-byte padding field (the attribute byte count, left zero).
pub open spec fn facet_bytes(f: Facet) -> Seq<u8> {
    vec3_bytes(f.normal) + vec3_bytes(f.a) + vec3_bytes(f.b) + vec3_bytes(f.c) + seq![0u8, 0u8]
}

/// The records of the first `i` facets, in order.
pub open spec fn facet_records(fs: Seq<Facet>, i: int) -> Seq<u8>
    decreases i,
{
    if i <= 0 {
        Seq::empty()
    } else {
        facet_records(fs, i - 1) + facet_bytes(fs[i - 1])
    }
}

/// The 80-byte header. The format leaves its content unconstrained; this
/// writer leaves it zeroed.
pub open spec fn stl_header() -> Seq<u8> {
    Seq::new(80, |i: int| 0u8)
}

/// The whole binary file: the header, the facet count as a little-endian
/// 32-bit word, then one fixed-size record per facet.
pub open spec fn stl_bytes(fs: Seq<Facet>) -> Seq<u8> {
    stl_header() + le32(fs.len() as u32) + facet_records(fs, fs.len() as int)
}

/// Appends the four little-endian bytes of `x`.
fn push_le32(out: &mut Vec<u8>, x: u32)
    ensures
        final(out)@ == old(out)@ + le32(x),
{
    out.push((x & 0xff) as u8);
    out.push(((x >> 8) & 0xff) as u8);
    out.push(((x >> 16) & 0xff) as u8);
    out.push(((x >> 24) & 0xff) as u8);
    assert(out@ =~= old(out)@ + le32(x));
}

/// Appends the twelve bytes of a vector.
fn push_vec3(out: &mut Vec<u8>, v: Vec3f)
    ensures
        final(out)@ == old(out)@ + vec3_bytes(v),
{
    push_le32(out, v.x);
    push_le32(out, v.y);
    push_le32(out, v.z);
    assert(out@ =~= old(out)@ + vec3_bytes(v));
}

/// Serializes the mesh in the binary triangle-mesh format: an 80-byte
/// header, the facet count, then per facet its normal, its three
/// vertices and two bytes of padding — 50 bytes per facet, so the file
/// is exactly `84 + 50 * facet_count` bytes long.
///
/// The facet count must fit the format's 32-bit count field.
pub fn write_stl(facets: &Vec<Facet>) -> (r: Vec<u8>)
    requires
        facets@.len() < 0x1_0000_0000,
    ensures
        r@ == stl_bytes(facets@),
        r@.len() == 84 + 50 * facets@.len(),
{
    let mut out: Vec<u8> = Vec::new();
    let mut h: usize = 0;
    while h < 80
        invariant
            h <= 80,
            out@.len() == h,
            forall|k: int| 0 <= k < h ==> out@[k] == 0u8,
        decreases 80 - h,
    {
        out.push(0u8);
        h += 1;
    }
    assert(out@ =~= stl_header());
    let n = facets.len();
    push_le32(&mut out, n as u32);
    let ghost prefix = out@;
    let mut i: usize = 0;
    while i < n
        invariant
            i <= n,
            n == facets@.len(),
            prefix == stl_header() + le32(n as u32),
            out@ == prefix + facet_records(facets@, i as int),
            out@.len() == 84 + 50 * i,
        decreases n - i,
    {
        let f = facets[i];
        let ghost before = out@;
        push_vec3(&mut out, f.normal);
        push_vec3(&mut out, f.a);
        push_vec3(&mut out, f.b);
        push_vec3(&mut out, f.c);
        out.push(0u8);
        out.push(0u8);
        assert(out@ =~= before + facet_bytes(facets@[i as int]));
        assert(out@ =~= prefix + facet_records(facets@, i as int + 1));
        i += 1;
    }
    assert(out@ =~= stl_bytes(facets@));
    out
}

} // verus!
