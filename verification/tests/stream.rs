use osm_pbf_proto::fileformat::{Blob as WireBlob, BlobHeader};
use osm_pbf_proto::osmformat;
use osm_pbf_proto::protobuf::{EnumOrUnknown, Message};
use osm_pbf_reader::blob::{BlobType, Blobs};
use osm_pbf_reader::data::node::NodeId;
use osm_pbf_reader::data::primitive::{Primitive, PrimitiveType};
use osm_pbf_reader::data::relation::Member;
use osm_pbf_reader::data::{Meta, Offset, PrimitiveBlock};
use osm_pbf_reader::error::{Error, ErrorKind};
use osm_pbf_reader::header::HeaderBBox;
use std::io::Write;

fn frame_with_size(kind: &str, datasize: i32, blob: &[u8]) -> Vec<u8> {
    let mut header = BlobHeader::new();
    header.set_type(kind.into());
    header.set_datasize(datasize);
    let header_bytes = header.write_to_bytes().unwrap();
    let mut out = (header_bytes.len() as u32).to_be_bytes().to_vec();
    out.extend_from_slice(&header_bytes);
    out.extend_from_slice(blob);
    out
}

fn frame(kind: &str, blob: &[u8]) -> Vec<u8> {
    frame_with_size(kind, blob.len() as i32, blob)
}

fn raw_blob(payload: &[u8]) -> Vec<u8> {
    let mut blob = WireBlob::new();
    blob.set_raw(payload.to_vec().into());
    blob.write_to_bytes().unwrap()
}

fn zlib_blob(payload: &[u8]) -> Vec<u8> {
    let mut encoder = flate2::write::ZlibEncoder::new(Vec::new(), flate2::Compression::default());
    encoder.write_all(payload).unwrap();
    let mut blob = WireBlob::new();
    blob.set_zlib_data(encoder.finish().unwrap().into());
    blob.set_raw_size(payload.len() as i32);
    blob.write_to_bytes().unwrap()
}

fn xz_blob(payload: &[u8]) -> Vec<u8> {
    let mut encoder = xz2::write::XzEncoder::new(Vec::new(), 6);
    encoder.write_all(payload).unwrap();
    let mut blob = WireBlob::new();
    blob.set_lzma_data(encoder.finish().unwrap().into());
    blob.write_to_bytes().unwrap()
}

fn header_block() -> Vec<u8> {
    let mut header = osmformat::HeaderBlock::new();
    header.required_features.push("OsmSchema-V0.6".into());
    header.required_features.push("DenseNodes".into());
    header.write_to_bytes().unwrap()
}

fn string_table(block: &mut osmformat::PrimitiveBlock, strings: &[&str]) {
    for s in strings {
        block.stringtable.mut_or_insert_default().s.push(s.as_bytes().to_vec().into());
    }
}

fn dense_block(id: i64) -> Vec<u8> {
    let mut block = osmformat::PrimitiveBlock::new();
    string_table(&mut block, &["", "name", "Foo"]);
    block.set_granularity(100);
    block.set_lat_offset(0);
    block.set_lon_offset(0);
    let mut group = osmformat::PrimitiveGroup::new();
    let dense = group.dense.mut_or_insert_default();
    dense.id.push(id);
    dense.lat.push(515000000);
    dense.lon.push(131000000);
    dense.keys_vals.extend_from_slice(&[1, 2, 0]);
    block.primitivegroup.push(group);
    block.write_to_bytes().unwrap()
}

fn read_block(blobs: &mut Blobs) -> PrimitiveBlock {
    let mut blob = blobs.next().unwrap().unwrap();
    blob.read(blobs.pool()).unwrap()
}

fn dense_node_of(block: &PrimitiveBlock) -> (i64, i64, i64, Vec<(String, String)>, Meta) {
    let mut primitives = block.primitives();
    let node = match primitives.next() {
        Some(Primitive::Node(node)) => node,
        _ => panic!("a node was expected"),
    };
    assert!(primitives.next().is_none());
    let mut tags = Vec::new();
    let mut cursor = node.tags();
    while let Some((key, value)) = cursor.next() {
        tags.push((key.to_string(), value.to_string()));
    }
    (node.id.0, node.nano_lat, node.nano_lon, tags, *node)
}

#[test]
fn empty_file() {
    let mut blobs = Blobs::from_bytes(Vec::new());
    match blobs.header() {
        Err(e) => assert_eq!(e.kind(), ErrorKind::UnexpectedEof),
        Ok(_) => panic!("no header can come from no bytes"),
    }
    assert!(blobs.next().is_none());
    assert!(blobs.next().is_none());
}

#[test]
fn header_only() {
    let mut blobs = Blobs::from_bytes(frame("OSMHeader", &raw_blob(&header_block())));
    let mut blob = blobs.header().unwrap();
    let header = blob.read(blobs.pool()).unwrap();
    assert_eq!(header.required_features, vec!["OsmSchema-V0.6".to_string(), "DenseNodes".to_string()]);
    assert!(header.optional_features.is_empty());
    assert_eq!(header.bbox, None);
    assert_eq!(header.writingprogram, None);
    assert_eq!(header.source, None);
    assert_eq!(header.osmosis_replication_timestamp, None);
    assert!(blobs.next().is_none());
}

#[test]
fn header_with_all_fields() {
    let mut message = osmformat::HeaderBlock::new();
    let bbox = message.bbox.mut_or_insert_default();
    bbox.set_left(-1);
    bbox.set_right(2);
    bbox.set_top(3);
    bbox.set_bottom(-4);
    message.optional_features.push("Sort.Type_then_ID".into());
    message.set_writingprogram("writer".into());
    message.set_source("source".into());
    message.set_osmosis_replication_timestamp(5);
    message.set_osmosis_replication_sequence_number(6);
    message.set_osmosis_replication_base_url("url".into());
    let bytes = message.write_to_bytes().unwrap();
    let mut blobs = Blobs::from_bytes(frame("OSMHeader", &raw_blob(&bytes)));
    let mut blob = blobs.header().unwrap();
    let header = blob.read(blobs.pool()).unwrap();
    assert_eq!(header.bbox, Some(HeaderBBox { left: -1, right: 2, top: 3, bottom: -4 }));
    assert!(header.required_features.is_empty());
    assert_eq!(header.optional_features, vec![osm_pbf_reader::header::SORT_TYPE_THEN_ID.to_string()]);
    assert_eq!(header.writingprogram.as_deref(), Some("writer"));
    assert_eq!(header.source.as_deref(), Some("source"));
    assert_eq!(header.osmosis_replication_timestamp, Some(5));
    assert_eq!(header.osmosis_replication_sequence_number, Some(6));
    assert_eq!(header.osmosis_replication_base_url.as_deref(), Some("url"));
}

#[test]
fn one_dense_node_from_bytes() {
    let mut bytes = frame("OSMHeader", &raw_blob(&header_block()));
    bytes.extend(frame("OSMData", &raw_blob(&dense_block(42))));
    let mut blobs = Blobs::from_bytes(bytes);
    assert!(blobs.header().is_ok());
    let block = read_block(&mut blobs);
    assert_eq!(block.strings, vec!["".to_string(), "name".to_string(), "Foo".to_string()]);
    assert_eq!(block.offset, Offset { lat: 0, lon: 0, granularity: 100 });
    assert_eq!(
        dense_node_of(&block),
        (
            42,
            51500000000,
            13100000000,
            vec![("name".to_string(), "Foo".to_string())],
            Meta { version: 0, visible: true }
        )
    );
    assert!(blobs.next().is_none());
}

#[test]
fn zlib_round_trip() {
    let payload = dense_block(42);
    let mut bytes = frame("OSMData", &raw_blob(&payload));
    bytes.extend(frame("OSMData", &zlib_blob(&payload)));
    let mut blobs = Blobs::from_bytes(bytes);
    let raw = read_block(&mut blobs);
    let inflated = read_block(&mut blobs);
    assert_eq!(raw, inflated);
    assert_eq!(dense_node_of(&raw), dense_node_of(&inflated));
    assert_eq!(dense_node_of(&inflated).0, 42);
    assert!(blobs.next().is_none());
}

#[test]
fn xz_round_trip() {
    let payload = dense_block(43);
    let mut bytes = frame("OSMData", &raw_blob(&payload));
    bytes.extend(frame("OSMData", &xz_blob(&payload)));
    let mut blobs = Blobs::from_bytes(bytes);
    let raw = read_block(&mut blobs);
    let inflated = read_block(&mut blobs);
    assert_eq!(raw, inflated);
    assert_eq!(dense_node_of(&inflated).0, 43);
}

#[test]
fn reading_twice_gives_the_same_block() {
    let mut blobs = Blobs::from_bytes(frame("OSMData", &zlib_blob(&dense_block(9))));
    let mut blob = blobs.next().unwrap().unwrap();
    let first = blob.read(blobs.pool()).unwrap();
    let second = blob.read(blobs.pool()).unwrap();
    assert_eq!(first, second);
}

#[test]
fn data_frames_come_in_the_order_written() {
    let mut bytes = frame("OSMHeader", &raw_blob(&header_block()));
    bytes.extend(frame("OSMData", &raw_blob(&dense_block(1))));
    bytes.extend(frame("Custom", &raw_blob(b"whatever")));
    bytes.extend(frame("OSMData", &zlib_blob(&dense_block(2))));
    bytes.extend(frame("OSMHeader", &raw_blob(&header_block())));
    bytes.extend(frame("OSMData", &raw_blob(&dense_block(3))));
    let mut blobs = Blobs::from_bytes(bytes);
    let mut ids = Vec::new();
    while let Some(blob) = blobs.next() {
        let block = blob.unwrap().read(blobs.pool()).unwrap();
        ids.push(dense_node_of(&block).0);
    }
    assert_eq!(ids, vec![1, 2, 3]);
    assert!(blobs.next().is_none());
}

#[test]
fn next_blob_hands_out_every_frame() {
    let mut bytes = frame("OSMHeader", &raw_blob(&header_block()));
    bytes.extend(frame("Custom", &raw_blob(b"x")));
    bytes.extend(frame("OSMData", &raw_blob(&dense_block(1))));
    let mut blobs = Blobs::from_bytes(bytes);
    let mut types = Vec::new();
    while let Some((blob_type, _)) = blobs.next_blob().unwrap() {
        types.push(blob_type);
    }
    assert_eq!(
        types,
        vec![BlobType::OSMHeader, BlobType::Other("Custom".to_string()), BlobType::OSMData]
    );
}

#[test]
fn rewind_starts_again() {
    let mut blobs = Blobs::from_bytes(frame("OSMData", &raw_blob(&dense_block(5))));
    assert_eq!(dense_node_of(&read_block(&mut blobs)).0, 5);
    assert!(blobs.next().is_none());
    blobs.rewind().unwrap();
    assert_eq!(dense_node_of(&read_block(&mut blobs)).0, 5);
    let bytes = blobs.into_inner();
    assert_eq!(bytes, frame("OSMData", &raw_blob(&dense_block(5))));
}

#[test]
fn header_refuses_a_data_frame() {
    let mut bytes = frame("OSMData", &raw_blob(&dense_block(1)));
    bytes.extend(frame("OSMData", &raw_blob(&dense_block(2))));
    let mut blobs = Blobs::from_bytes(bytes);
    match blobs.header() {
        Err(Error::UnexpectedBlobType(name)) => assert_eq!(name, "OSMData"),
        _ => panic!("the type of the blob was expected"),
    }
    assert_eq!(dense_node_of(&read_block(&mut blobs)).0, 2);
}

#[test]
fn header_refuses_another_frame() {
    let mut blobs = Blobs::from_bytes(frame("Custom", &raw_blob(b"x")));
    match blobs.header() {
        Err(e) => {
            assert_eq!(e.kind(), ErrorKind::UnexpectedBlobType);
            assert!(matches!(e, Error::UnexpectedBlobType(name) if name == "Custom"));
        }
        Ok(_) => panic!("no header stands there"),
    }
}

#[test]
fn stream_cut_inside_the_length() {
    let mut bytes = frame("OSMData", &raw_blob(&dense_block(1)));
    bytes.extend_from_slice(&[0, 0]);
    let mut blobs = Blobs::from_bytes(bytes);
    assert!(blobs.next().unwrap().is_ok());
    match blobs.next() {
        Some(Err(e)) => assert_eq!(e.kind(), ErrorKind::UnexpectedEof),
        _ => panic!("an error was expected"),
    }
    assert!(blobs.next().is_none());
    assert!(blobs.next().is_none());
}

#[test]
fn stream_cut_inside_the_header() {
    let whole = frame("OSMData", &raw_blob(&dense_block(1)));
    let mut blobs = Blobs::from_bytes(whole[..6].to_vec());
    match blobs.next() {
        Some(Err(e)) => assert_eq!(e.kind(), ErrorKind::UnexpectedEof),
        _ => panic!("an error was expected"),
    }
    assert!(blobs.next().is_none());
}

#[test]
fn stream_cut_inside_the_blob() {
    let whole = frame("OSMData", &raw_blob(&dense_block(1)));
    let mut blobs = Blobs::from_bytes(whole[..whole.len() - 1].to_vec());
    match blobs.next() {
        Some(Err(e)) => {
            assert_eq!(e.kind(), ErrorKind::UnexpectedEof);
            assert!(matches!(e, Error::IoError(_)));
        }
        _ => panic!("an error was expected"),
    }
    assert!(blobs.next().is_none());
}

#[test]
fn header_of_64_kib_and_one_byte_is_too_large() {
    let mut bytes = 65537u32.to_be_bytes().to_vec();
    bytes.extend_from_slice(&[0; 16]);
    let mut blobs = Blobs::from_bytes(bytes);
    match blobs.next() {
        Some(Err(e)) => {
            assert_eq!(e.kind(), ErrorKind::BlobHeaderTooLarge);
            assert!(matches!(e, Error::BlobHeaderTooLarge));
        }
        _ => panic!("an error was expected"),
    }
    assert!(blobs.next().is_none());
}

#[test]
fn header_of_64_kib_is_read() {
    let mut blobs = Blobs::from_bytes(65536u32.to_be_bytes().to_vec());
    match blobs.next() {
        Some(Err(e)) => assert_eq!(e.kind(), ErrorKind::UnexpectedEof),
        _ => panic!("an error was expected"),
    }
}

#[test]
fn largest_length_is_too_large() {
    let mut blobs = Blobs::from_bytes(vec![0xff, 0xff, 0xff, 0xff, 1, 2, 3]);
    match blobs.next() {
        Some(Err(e)) => assert_eq!(e.kind(), ErrorKind::BlobHeaderTooLarge),
        _ => panic!("an error was expected"),
    }
}

#[test]
fn blob_of_32_mib_and_one_byte_is_too_large() {
    let mut blobs = Blobs::from_bytes(frame_with_size("OSMData", 32 * 1024 * 1024 + 1, b"x"));
    match blobs.next() {
        Some(Err(e)) => {
            assert_eq!(e.kind(), ErrorKind::BlobDataTooLarge);
            assert!(matches!(e, Error::BlobDataTooLarge));
        }
        _ => panic!("an error was expected"),
    }
    assert!(blobs.next().is_none());
}

#[test]
fn blob_of_32_mib_is_read() {
    let mut blobs = Blobs::from_bytes(frame_with_size("OSMData", 32 * 1024 * 1024, b"x"));
    match blobs.next() {
        Some(Err(e)) => assert_eq!(e.kind(), ErrorKind::UnexpectedEof),
        _ => panic!("an error was expected"),
    }
}

#[test]
fn blob_of_negative_size_is_too_large() {
    let mut blobs = Blobs::from_bytes(frame_with_size("OSMData", -1, b"x"));
    match blobs.next() {
        Some(Err(e)) => assert_eq!(e.kind(), ErrorKind::BlobDataTooLarge),
        _ => panic!("an error was expected"),
    }
}

#[test]
fn blob_header_that_is_no_message() {
    let mut bytes = 3u32.to_be_bytes().to_vec();
    bytes.extend_from_slice(&[0xff, 0xff, 0xff]);
    let mut blobs = Blobs::from_bytes(bytes);
    match blobs.next() {
        Some(Err(e)) => {
            assert_eq!(e.kind(), ErrorKind::Protobuf);
            assert!(matches!(e, Error::ProtobufError(_)));
        }
        _ => panic!("an error was expected"),
    }
    assert!(blobs.next().is_none());
}

#[test]
fn blob_that_is_no_message() {
    let mut blobs = Blobs::from_bytes(frame("OSMData", &[0xff, 0xff, 0xff]));
    match blobs.next() {
        Some(Err(e)) => assert_eq!(e.kind(), ErrorKind::Protobuf),
        _ => panic!("an error was expected"),
    }
}

#[test]
fn block_that_is_no_message() {
    let mut blobs = Blobs::from_bytes(frame("OSMData", &raw_blob(&[0xff, 0xff, 0xff])));
    let mut blob = blobs.next().unwrap().unwrap();
    match blob.read(blobs.pool()) {
        Err(e) => assert_eq!(e.kind(), ErrorKind::Protobuf),
        Ok(_) => panic!("an error was expected"),
    }
}

#[test]
fn blob_without_data_is_unsupported() {
    let blob = WireBlob::new().write_to_bytes().unwrap();
    let mut blobs = Blobs::from_bytes(frame("OSMData", &blob));
    let mut blob = blobs.next().unwrap().unwrap();
    match blob.read(blobs.pool()) {
        Err(e) => {
            assert_eq!(e.kind(), ErrorKind::UnsupportedEncoding);
            assert!(matches!(e, Error::UnsupportedEncoding));
        }
        Ok(_) => panic!("an error was expected"),
    }
}

#[test]
fn lz4_is_unsupported() {
    let mut blob = WireBlob::new();
    blob.set_lz4_data(vec![1, 2, 3].into());
    let mut blobs = Blobs::from_bytes(frame("OSMData", &blob.write_to_bytes().unwrap()));
    let mut blob = blobs.next().unwrap().unwrap();
    match blob.read(blobs.pool()) {
        Err(e) => assert_eq!(e.kind(), ErrorKind::UnsupportedEncoding),
        Ok(_) => panic!("an error was expected"),
    }
}

#[test]
fn broken_zlib_data_fails() {
    let mut blob = WireBlob::new();
    blob.set_zlib_data(vec![1, 2, 3, 4, 5].into());
    let mut blobs = Blobs::from_bytes(frame("OSMData", &blob.write_to_bytes().unwrap()));
    let mut blob = blobs.next().unwrap().unwrap();
    match blob.read(blobs.pool()) {
        Err(e) => {
            assert_eq!(e.kind(), ErrorKind::Codec);
            assert!(matches!(e, Error::IoError(_)));
        }
        Ok(_) => panic!("an error was expected"),
    }
}

#[test]
fn broken_xz_data_fails() {
    let mut blob = WireBlob::new();
    blob.set_lzma_data(vec![1, 2, 3, 4, 5].into());
    let mut blobs = Blobs::from_bytes(frame("OSMData", &blob.write_to_bytes().unwrap()));
    let mut blob = blobs.next().unwrap().unwrap();
    match blob.read(blobs.pool()) {
        Err(e) => assert_eq!(e.kind(), ErrorKind::Codec),
        Ok(_) => panic!("an error was expected"),
    }
}

#[test]
fn string_table_that_is_not_utf8() {
    let mut block = osmformat::PrimitiveBlock::new();
    block.stringtable.mut_or_insert_default().s.push(vec![0xff, 0xfe].into());
    let bytes = block.write_to_bytes().unwrap();
    let mut blobs = Blobs::from_bytes(frame("OSMData", &raw_blob(&bytes)));
    let mut blob = blobs.next().unwrap().unwrap();
    match blob.read(blobs.pool()) {
        Err(e) => {
            assert_eq!(e.kind(), ErrorKind::Utf8);
            assert!(matches!(e, Error::Utf8Error(_)));
        }
        Ok(_) => panic!("an error was expected"),
    }
}

#[test]
fn block_without_granularity_and_offsets() {
    let mut block = osmformat::PrimitiveBlock::new();
    string_table(&mut block, &[""]);
    let mut group = osmformat::PrimitiveGroup::new();
    let mut node = osmformat::Node::new();
    node.set_id(1);
    node.set_lat(2);
    node.set_lon(-3);
    group.nodes.push(node);
    block.primitivegroup.push(group);
    let bytes = block.write_to_bytes().unwrap();
    let mut blobs = Blobs::from_bytes(frame("OSMData", &raw_blob(&bytes)));
    let block = read_block(&mut blobs);
    assert_eq!(block.offset, Offset { lat: 0, lon: 0, granularity: 100 });
    assert_eq!(dense_node_of(&block), (1, 200, -300, vec![], Meta { version: 0, visible: true }));
}

#[test]
fn every_kind_of_primitive_from_bytes() {
    let mut block = osmformat::PrimitiveBlock::new();
    string_table(&mut block, &["", "highway", "primary", "outer"]);
    block.set_granularity(1000);
    block.set_lat_offset(7);
    block.set_lon_offset(-7);

    let mut nodes = osmformat::PrimitiveGroup::new();
    let mut node = osmformat::Node::new();
    node.set_id(11);
    node.set_lat(5);
    node.set_lon(6);
    node.keys.push(1);
    node.vals.push(2);
    let info = node.info.mut_or_insert_default();
    info.set_version(3);
    info.set_visible(false);
    nodes.nodes.push(node);
    block.primitivegroup.push(nodes);

    let mut dense = osmformat::PrimitiveGroup::new();
    let d = dense.dense.mut_or_insert_default();
    d.id.extend_from_slice(&[100, 1, 1]);
    d.lat.extend_from_slice(&[10, 1, -2]);
    d.lon.extend_from_slice(&[20, -1, 2]);
    d.keys_vals.extend_from_slice(&[1, 2, 0, 0, 1, 3, 1, 2]);
    let dense_info = d.denseinfo.mut_or_insert_default();
    dense_info.version.extend_from_slice(&[1, 2]);
    dense_info.visible.extend_from_slice(&[false]);
    block.primitivegroup.push(dense);

    let mut ways = osmformat::PrimitiveGroup::new();
    let mut way = osmformat::Way::new();
    way.set_id(7);
    way.refs.extend_from_slice(&[10, -3, 5]);
    way.keys.push(1);
    way.vals.push(9);
    ways.ways.push(way);
    block.primitivegroup.push(ways);

    let mut relations = osmformat::PrimitiveGroup::new();
    let mut relation = osmformat::Relation::new();
    relation.set_id(8);
    relation.memids.extend_from_slice(&[100, 5, -2]);
    relation.roles_sid.extend_from_slice(&[3, 0, 17]);
    relation.types.push(EnumOrUnknown::from_i32(0));
    relation.types.push(EnumOrUnknown::from_i32(99));
    relation.types.push(EnumOrUnknown::from_i32(1));
    relations.relations.push(relation);
    block.primitivegroup.push(relations);

    let mut changesets = osmformat::PrimitiveGroup::new();
    let mut changeset = osmformat::ChangeSet::new();
    changeset.set_id(55);
    changesets.changesets.push(changeset);
    block.primitivegroup.push(changesets);

    let bytes = block.write_to_bytes().unwrap();
    let mut blobs = Blobs::from_bytes(frame("OSMData", &xz_blob(&bytes)));
    let block = read_block(&mut blobs);
    assert_eq!(block.len(), 5);
    assert_eq!(block.offset, Offset { lat: 7, lon: -7, granularity: 1000 });

    let all = PrimitiveType::standard().union(PrimitiveType::change_set());
    let mut primitives = block.primitives().types(all);
    let mut seen = Vec::new();
    while let Some(primitive) = primitives.next() {
        match primitive {
            Primitive::Node(node) => {
                let mut tags = node.tags();
                let mut text = String::new();
                while let Some((key, value)) = tags.next() {
                    text.push_str(&format!("{}={};", key, value));
                }
                seen.push(format!(
                    "node {} {} {} v{} {} {}",
                    node.id.0,
                    node.nano_lat,
                    node.nano_lon,
                    node.version,
                    node.visible,
                    text
                ));
            }
            Primitive::Way(way) => {
                let mut refs = way.refs();
                let mut ids = Vec::new();
                while let Some(NodeId(id)) = refs.next() {
                    ids.push(id);
                }
                assert_eq!(way.tags().next(), Some(("highway", "")));
                seen.push(format!("way {} {:?}", way.id.0, ids));
            }
            Primitive::Relation(relation) => {
                let mut members = relation.members();
                let mut text = String::new();
                while let Some(member) = members.next() {
                    match member {
                        Member::Node(id, role) => text.push_str(&format!("n{}:{};", id.0, role)),
                        Member::Way(id, role) => text.push_str(&format!("w{}:{};", id.0, role)),
                        Member::Relation(id, role) => text.push_str(&format!("r{}:{};", id.0, role)),
                    }
                }
                seen.push(format!("relation {} {}", relation.id.0, text));
            }
            Primitive::ChangeSet(changeset) => seen.push(format!("changeset {}", changeset.id.0)),
            _ => unreachable!(),
        }
    }
    assert_eq!(
        seen,
        vec![
            "node 11 5007 5993 v3 false highway=primary;".to_string(),
            "node 100 10007 19993 v1 false highway=primary;".to_string(),
            "node 101 11007 18993 v2 true ".to_string(),
            "node 102 9007 20993 v0 true highway=outer;highway=primary;".to_string(),
            "way 7 [10, 7, 12]".to_string(),
            "relation 8 n100:outer;w103:;".to_string(),
            "changeset 55".to_string(),
        ]
    );
}

#[test]
fn info_without_a_version() {
    let mut block = osmformat::PrimitiveBlock::new();
    string_table(&mut block, &[""]);
    let mut group = osmformat::PrimitiveGroup::new();
    let mut node = osmformat::Node::new();
    node.set_id(1);
    node.set_lat(0);
    node.set_lon(0);
    node.info.mut_or_insert_default().set_visible(false);
    group.nodes.push(node);
    block.primitivegroup.push(group);
    let bytes = block.write_to_bytes().unwrap();
    let mut blobs = Blobs::from_bytes(frame("OSMData", &raw_blob(&bytes)));
    let block = read_block(&mut blobs);
    assert_eq!(block.primitive_groups[0].nodes[0].info.unwrap().version, -1);
    assert_eq!(dense_node_of(&block).4, Meta { version: 4294967295, visible: false });
}

#[test]
fn raw_size_is_only_a_hint() {
    let payload = dense_block(77);
    for hint in [Some(1), Some(-5), Some(1 << 20), None] {
        let mut encoder =
            flate2::write::ZlibEncoder::new(Vec::new(), flate2::Compression::default());
        encoder.write_all(&payload).unwrap();
        let mut blob = WireBlob::new();
        blob.set_zlib_data(encoder.finish().unwrap().into());
        if let Some(size) = hint {
            blob.set_raw_size(size);
        }
        let mut blobs = Blobs::from_bytes(frame("OSMData", &blob.write_to_bytes().unwrap()));
        assert_eq!(dense_node_of(&read_block(&mut blobs)).0, 77);
    }
}
