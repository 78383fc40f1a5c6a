use wingmesh::stl::{write_stl, Facet, Vec3f};

fn v3(x: f32, y: f32, z: f32) -> Vec3f {
    Vec3f { x: x.to_bits(), y: y.to_bits(), z: z.to_bits() }
}

#[test]
fn empty_mesh_serializes_to_bare_header() {
    let bytes = write_stl(&vec![]);
    assert_eq!(bytes.len(), 84);
    // 80-byte header, zeroed.
    assert!(bytes[..80].iter().all(|&b| b == 0));
    // Little-endian facet count of zero.
    assert_eq!(&bytes[80..84], &[0, 0, 0, 0]);
}

#[test]
fn single_facet_record_is_exact() {
    let facet = Facet {
        normal: v3(0.0, 0.0, 1.0),
        a: v3(0.0, 0.0, 0.0),
        b: v3(1.0, 0.0, 0.0),
        c: v3(0.0, 1.0, 0.0),
    };
    let bytes = write_stl(&vec![facet]);
    assert_eq!(bytes.len(), 84 + 50);
    assert_eq!(&bytes[80..84], &[1, 0, 0, 0]);
    // Normal (0, 0, 1): 1.0f32 is 0x3f800000, little-endian.
    assert_eq!(&bytes[84..96], &[0, 0, 0, 0, 0, 0, 0, 0, 0, 0, 0x80, 0x3f]);
    // Vertex a is the origin.
    assert_eq!(&bytes[96..108], &[0; 12]);
    // Vertex b = (1, 0, 0).
    assert_eq!(&bytes[108..112], &[0, 0, 0x80, 0x3f]);
    assert_eq!(&bytes[112..120], &[0; 8]);
    // Vertex c = (0, 1, 0).
    assert_eq!(&bytes[120..124], &[0; 4]);
    assert_eq!(&bytes[124..128], &[0, 0, 0x80, 0x3f]);
    assert_eq!(&bytes[128..132], &[0; 4]);
    // Two bytes of padding, zero.
    assert_eq!(&bytes[132..134], &[0, 0]);
}

#[test]
fn file_size_is_header_plus_fifty_per_facet() {
    let facet = Facet {
        normal: v3(0.5, -0.25, 2.0),
        a: v3(1.0, 2.0, 3.0),
        b: v3(4.0, 5.0, 6.0),
        c: v3(7.0, 8.0, 9.0),
    };
    for n in [1usize, 2, 7] {
        let bytes = write_stl(&vec![facet; n]);
        assert_eq!(bytes.len(), 84 + n * 50);
        let count = u32::from_le_bytes([bytes[80], bytes[81], bytes[82], bytes[83]]);
        assert_eq!(count as usize, n);
    }
}

#[test]
fn negative_component_keeps_its_sign_bit() {
    let facet = Facet {
        normal: v3(-1.0, 0.0, 0.0),
        a: v3(0.0, 0.0, 0.0),
        b: v3(0.0, 0.0, 0.0),
        c: v3(0.0, 0.0, 0.0),
    };
    let bytes = write_stl(&vec![facet]);
    // -1.0f32 is 0xbf800000.
    assert_eq!(&bytes[84..88], &[0, 0, 0x80, 0xbf]);
}
