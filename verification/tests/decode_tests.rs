use bsp29::header::{decode_header, BSP_VERSION, HEADER_SIZE};
use bsp29::{Bsp, BspEntry, BspError, Edge, Face, Plane, Vertex};

fn push_u32(out: &mut Vec<u8>, x: u32) {
    out.extend_from_slice(&x.to_le_bytes());
}

fn push_u16(out: &mut Vec<u8>, x: u16) {
    out.extend_from_slice(&x.to_le_bytes());
}

fn push_i32(out: &mut Vec<u8>, x: i32) {
    out.extend_from_slice(&x.to_le_bytes());
}

fn push_f32(out: &mut Vec<u8>, x: f32) {
    out.extend_from_slice(&x.to_bits().to_le_bytes());
}

/// A header buffer: the version, then the 15 given (offset, size) pairs.
fn header_bytes(version: u32, entries: &[(u32, u32)]) -> Vec<u8> {
    assert_eq!(entries.len(), 15);
    let mut out = Vec::new();
    push_u32(&mut out, version);
    for &(offset, size) in entries {
        push_u32(&mut out, offset);
        push_u32(&mut out, size);
    }
    assert_eq!(out.len(), HEADER_SIZE);
    out
}

#[test]
fn header_round_trip_recovers_fields() {
    // Distinct values per entry, so a misplaced field would be caught.
    let entries: Vec<(u32, u32)> = (0..15u32).map(|i| (1000 + 8 * i, 16 * i + 4)).collect();
    let data = header_bytes(29, &entries);
    let h = decode_header(&data).unwrap();
    assert_eq!(h.version, 29);
    let got = [
        h.entities, h.planes, h.miptex, h.vertices, h.visilist, h.nodes, h.texinfo, h.faces,
        h.lightmaps, h.clipnodes, h.leaves, h.lfaces, h.edges, h.ledges, h.models,
    ];
    for (i, e) in got.iter().enumerate() {
        assert_eq!(e.offset, entries[i].0);
        assert_eq!(e.size, entries[i].1);
    }
}

#[test]
fn header_too_short_is_malformed() {
    let data = vec![0u8; HEADER_SIZE - 1];
    assert_eq!(decode_header(&data), Err(BspError::MalformedHeader));
    assert_eq!(decode_header(&Vec::new()), Err(BspError::MalformedHeader));
}

#[test]
fn version_30_decodes_without_error() {
    let data = header_bytes(30, &[(0, 0); 15]);
    let h = decode_header(&data).unwrap();
    assert_eq!(h.version, 30);
}

#[test]
fn caller_rejects_non_bsp29_version() {
    // The decoder stores the version unchecked; holding it to 29 is the
    // caller's move, made here as a loader would make it.
    let h30 = decode_header(&header_bytes(30, &[(0, 0); 15])).unwrap();
    let accepted = h30.version == BSP_VERSION;
    assert!(!accepted);

    let h29 = decode_header(&header_bytes(29, &[(0, 0); 15])).unwrap();
    assert_eq!(h29.version, BSP_VERSION);
}

#[test]
fn read_header_method_matches_free_function() {
    let data = header_bytes(29, &[(7, 8); 15]);
    let bsp = Bsp::new(data.clone());
    assert_eq!(bsp.read_header().unwrap(), decode_header(&data).unwrap());
}

#[test]
fn vertices_decode_exact() {
    let mut data = vec![0u8; 4];
    push_f32(&mut data, 0.25);
    push_f32(&mut data, -1.0);
    push_f32(&mut data, 3.5);
    push_f32(&mut data, 0.0);
    push_f32(&mut data, 16.0);
    push_f32(&mut data, -0.5);
    let bsp = Bsp::new(data);
    let entry = BspEntry { offset: 4, size: 24 };
    let v = bsp.read_vertices(&entry).unwrap();
    assert_eq!(v.len(), 2);
    assert_eq!(v[0], Vertex {
        x_bits: 0.25f32.to_bits(),
        y_bits: (-1.0f32).to_bits(),
        z_bits: 3.5f32.to_bits(),
    });
    assert_eq!(v[1], Vertex {
        x_bits: 0.0f32.to_bits(),
        y_bits: 16.0f32.to_bits(),
        z_bits: (-0.5f32).to_bits(),
    });
}

#[test]
fn edges_decode_exact() {
    let mut data = Vec::new();
    push_u16(&mut data, 1);
    push_u16(&mut data, 2);
    push_u16(&mut data, 65535);
    push_u16(&mut data, 0);
    let bsp = Bsp::new(data);
    let entry = BspEntry { offset: 0, size: 8 };
    let e = bsp.read_edges(&entry).unwrap();
    assert_eq!(e, vec![Edge { first: 1, second: 2 }, Edge { first: 65535, second: 0 }]);
}

#[test]
fn ledges_decode_signed() {
    let mut entries = [(0u32, 0u32); 15];
    entries[13] = (HEADER_SIZE as u32, 16); // the ledges entry
    let mut data = header_bytes(29, &entries);
    push_i32(&mut data, 1);
    push_i32(&mut data, -1);
    push_i32(&mut data, i32::MIN);
    push_i32(&mut data, i32::MAX);
    let bsp = Bsp::new(data);
    let header = bsp.read_header().unwrap();
    let ledges = bsp.read_ledges(&header).unwrap();
    assert_eq!(ledges, vec![1, -1, i32::MIN, i32::MAX]);
}

#[test]
fn faces_decode_exact() {
    let mut data = Vec::new();
    push_u16(&mut data, 3); // plane_id
    push_u16(&mut data, 1); // side
    push_i32(&mut data, 40); // ledge_id
    push_u16(&mut data, 4); // ledge_num
    push_u16(&mut data, 7); // texinfo_id
    data.push(2); // typelight
    data.push(0xff); // baselight
    data.push(10); // light0
    data.push(20); // light1
    push_i32(&mut data, -1); // lightmap
    let bsp = Bsp::new(data);
    let entry = BspEntry { offset: 0, size: 20 };
    let f = bsp.read_faces(&entry).unwrap();
    assert_eq!(f, vec![Face {
        plane_id: 3,
        side: 1,
        ledge_id: 40,
        ledge_num: 4,
        texinfo_id: 7,
        typelight: 2,
        baselight: 0xff,
        light0: 10,
        light1: 20,
        lightmap: -1,
    }]);
}

#[test]
fn planes_decode_exact() {
    let mut data = Vec::new();
    push_f32(&mut data, 0.0);
    push_f32(&mut data, 0.0);
    push_f32(&mut data, 1.0);
    push_f32(&mut data, 64.0);
    push_u32(&mut data, 2); // axis kind
    let bsp = Bsp::new(data);
    let entry = BspEntry { offset: 0, size: 20 };
    let p = bsp.read_planes(&entry).unwrap();
    assert_eq!(p, vec![Plane {
        normal_x_bits: 0.0f32.to_bits(),
        normal_y_bits: 0.0f32.to_bits(),
        normal_z_bits: 1.0f32.to_bits(),
        dist_bits: 64.0f32.to_bits(),
        kind: 2,
    }]);
}

#[test]
fn empty_lump_yields_empty_array() {
    let bsp = Bsp::new(vec![0u8; 8]);
    // size == 0 is an empty array, not an error, even at the buffer's end.
    let entry = BspEntry { offset: 8, size: 0 };
    assert_eq!(bsp.read_vertices(&entry).unwrap(), Vec::new());
    assert_eq!(bsp.read_edges(&entry).unwrap(), Vec::new());
    assert_eq!(bsp.read_faces(&entry).unwrap(), Vec::new());
    assert_eq!(bsp.read_planes(&entry).unwrap(), Vec::new());
}

#[test]
fn truncated_lump_fails_for_every_lump_type() {
    let bsp = Bsp::new(vec![0u8; 100]);
    // One byte past the end, and far past the end.
    for entry in [
        BspEntry { offset: 96, size: 5 },
        BspEntry { offset: 200, size: 0 },
        BspEntry { offset: 0, size: 101 },
        BspEntry { offset: u32::MAX, size: u32::MAX },
    ] {
        assert_eq!(bsp.read_vertices(&entry), Err(BspError::TruncatedLump));
        assert_eq!(bsp.read_edges(&entry), Err(BspError::TruncatedLump));
        assert_eq!(bsp.read_faces(&entry), Err(BspError::TruncatedLump));
        assert_eq!(bsp.read_planes(&entry), Err(BspError::TruncatedLump));
    }
}

#[test]
fn truncated_ledges_lump_fails() {
    let mut entries = [(0u32, 0u32); 15];
    entries[13] = (HEADER_SIZE as u32, 8); // four bytes past the end
    let data = header_bytes(29, &entries);
    let mut long_enough = data.clone();
    long_enough.extend_from_slice(&[0u8; 4]);
    let bsp = Bsp::new(long_enough);
    let header = bsp.read_header().unwrap();
    assert_eq!(bsp.read_ledges(&header), Err(BspError::TruncatedLump));
}

#[test]
fn misaligned_lump_fails() {
    let bsp = Bsp::new(vec![0u8; 100]);
    // In bounds, but not a whole number of records.
    assert_eq!(
        bsp.read_vertices(&BspEntry { offset: 0, size: 13 }),
        Err(BspError::MisalignedLump)
    );
    assert_eq!(bsp.read_edges(&BspEntry { offset: 0, size: 2 }), Err(BspError::MisalignedLump));
    assert_eq!(bsp.read_faces(&BspEntry { offset: 0, size: 30 }), Err(BspError::MisalignedLump));
    assert_eq!(bsp.read_planes(&BspEntry { offset: 0, size: 19 }), Err(BspError::MisalignedLump));
    // Truncation is checked first: a range past the end is truncated even
    // when its size is also misaligned.
    assert_eq!(
        bsp.read_vertices(&BspEntry { offset: 99, size: 13 }),
        Err(BspError::TruncatedLump)
    );
}

#[test]
fn record_count_is_size_over_width() {
    let bsp = Bsp::new(vec![0u8; 120]);
    assert_eq!(bsp.read_vertices(&BspEntry { offset: 0, size: 48 }).unwrap().len(), 4);
    assert_eq!(bsp.read_edges(&BspEntry { offset: 4, size: 40 }).unwrap().len(), 10);
    assert_eq!(bsp.read_faces(&BspEntry { offset: 0, size: 120 }).unwrap().len(), 6);
    assert_eq!(bsp.read_planes(&BspEntry { offset: 20, size: 100 }).unwrap().len(), 5);
}

#[test]
fn bsp_len_reports_buffer_size() {
    assert_eq!(Bsp::new(vec![1, 2, 3]).len(), 3);
    assert_eq!(Bsp::new(Vec::new()).len(), 0);
}
