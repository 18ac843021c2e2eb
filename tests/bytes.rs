use wizard_wars::byte_eater::ByteEater;
use wizard_wars::gltf::{buffer_view_bytes, parse_glb_bytes, BufferView, ComponentType, GlbError};
use wizard_wars::mesh::PrimitiveTopology;

#[test]
fn reads_little_endian_integers() {
    let data: Vec<u8> = vec![0x01, 0x34, 0x12, 0x78, 0x56, 0x34, 0x12, 0x08, 0x07, 0x06, 0x05, 0x04, 0x03, 0x02, 0x01];
    let mut eater = ByteEater::new(&data);
    assert_eq!(eater.read_u8(), 0x01);
    assert_eq!(eater.read_u16(), 0x1234);
    assert_eq!(eater.read_u32(), 0x12345678);
    assert_eq!(eater.read_u64(), 0x0102030405060708);
    assert_eq!(eater.index(), 15);
}

#[test]
fn reads_largest_values() {
    let data: Vec<u8> = vec![0xff; 8];
    let mut eater = ByteEater::new(&data);
    assert_eq!(eater.read_u64(), u64::MAX);
    eater.set_index(0);
    assert_eq!(eater.read_u32(), u32::MAX);
    assert_eq!(eater.read_u16(), u16::MAX);
    assert_eq!(eater.index(), 6);
}

#[test]
fn read_bytes_hands_out_a_run_and_moves_on() {
    let data: Vec<u8> = vec![1, 2, 3, 4, 5, 6];
    let mut eater = ByteEater::new(&data);
    eater.set_index(1);
    assert_eq!(eater.read_bytes(3), &[2u8, 3, 4][..]);
    assert_eq!(eater.index(), 4);
    assert_eq!(eater.read_bytes(0), &[] as &[u8]);
    assert_eq!(eater.read_u8(), 5);
}

fn glb(json: &[u8], bin: &[u8]) -> Vec<u8> {
    let mut out = Vec::new();
    out.extend_from_slice(b"glTF");
    out.extend_from_slice(&2u32.to_le_bytes());
    out.extend_from_slice(&((28 + json.len() + bin.len()) as u32).to_le_bytes());
    out.extend_from_slice(&(json.len() as u32).to_le_bytes());
    out.extend_from_slice(b"JSON");
    out.extend_from_slice(json);
    out.extend_from_slice(&(bin.len() as u32).to_le_bytes());
    out.extend_from_slice(b"BIN\0");
    out.extend_from_slice(bin);
    out
}

#[test]
fn glb_splits_into_chunks() {
    let data = glb(b"{\"a\":1}", &[9, 8, 7]);
    let chunks = parse_glb_bytes(&data).unwrap();
    assert_eq!(chunks.json, b"{\"a\":1}".to_vec());
    assert_eq!(chunks.binary, vec![9, 8, 7]);
}

#[test]
fn glb_with_empty_chunks() {
    let data = glb(b"", &[]);
    let chunks = parse_glb_bytes(&data).unwrap();
    assert!(chunks.json.is_empty());
    assert!(chunks.binary.is_empty());
}

#[test]
fn glb_errors() {
    assert_eq!(parse_glb_bytes(&[0u8; 11]).err(), Some(GlbError::TooShort));
    let mut bad = glb(b"{}", &[1]);
    bad[0] = b'x';
    assert_eq!(parse_glb_bytes(&bad).err(), Some(GlbError::BadMagic));
    let good = glb(b"{}", &[1]);
    assert_eq!(parse_glb_bytes(&good[..16]).err(), Some(GlbError::MissingJson));
    let mut tag = good.clone();
    tag[16] = b'X';
    assert_eq!(parse_glb_bytes(&tag).err(), Some(GlbError::MissingJson));
    let mut long_json = good.clone();
    long_json[12] = 200;
    assert_eq!(parse_glb_bytes(&long_json).err(), Some(GlbError::TruncatedJson));
    assert_eq!(parse_glb_bytes(&good[..24]).err(), Some(GlbError::MissingBinary));
    let mut bin_tag = good.clone();
    bin_tag[26] = b'X';
    assert_eq!(parse_glb_bytes(&bin_tag).err(), Some(GlbError::MissingBinary));
    assert_eq!(parse_glb_bytes(&good[..good.len() - 1]).err(), Some(GlbError::TruncatedBinary));
}

#[test]
fn buffer_view_slices_the_binary() {
    let binary: Vec<u8> = (0u8..10).collect();
    let view = BufferView { buffer: 0, byte_length: 3, byte_offset: 4 };
    assert_eq!(buffer_view_bytes(&binary, &view), Some(vec![4, 5, 6]));
    let past = BufferView { buffer: 0, byte_length: 7, byte_offset: 4 };
    assert_eq!(buffer_view_bytes(&binary, &past), None);
    let edge = BufferView { buffer: 0, byte_length: 6, byte_offset: 4 };
    assert_eq!(buffer_view_bytes(&binary, &edge), Some(vec![4, 5, 6, 7, 8, 9]));
}

#[test]
fn topology_from_mode_codes() {
    assert_eq!(PrimitiveTopology::from_mode(0), PrimitiveTopology::PointList);
    assert_eq!(PrimitiveTopology::from_mode(1), PrimitiveTopology::LineList);
    assert_eq!(PrimitiveTopology::from_mode(3), PrimitiveTopology::LineStrip);
    assert_eq!(PrimitiveTopology::from_mode(4), PrimitiveTopology::TriangleList);
    assert_eq!(PrimitiveTopology::from_mode(5), PrimitiveTopology::TriangleStrip);
}

#[test]
fn component_type_codes() {
    assert_eq!(ComponentType::from_code(5120), ComponentType::SignedByte);
    assert_eq!(ComponentType::from_code(5121), ComponentType::UnsignedByte);
    assert_eq!(ComponentType::from_code(5122), ComponentType::Short);
    assert_eq!(ComponentType::from_code(5123), ComponentType::UnsignedShort);
    assert_eq!(ComponentType::from_code(5125), ComponentType::UnsignedInt);
    assert_eq!(ComponentType::from_code(5126), ComponentType::Float);
}
