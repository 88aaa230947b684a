use osm_pbf_reader::blob::{
    blob_info, check_blob_header, expect_data, expect_header, frame_follows, header_size,
    read_bytes_exact, reserve_hint, Blob, BlobData, BlobType, Blobs, MAX_HEADER_SIZE,
    MAX_UNCOMPRESSED_DATA_SIZE,
};
use osm_pbf_reader::data::DataBlobMarker;
use osm_pbf_reader::error::{Error, ErrorKind, IoFailure};
use osm_pbf_reader::header::{
    HeaderBlobMarker, DENSE_NODES, HAS_METADATA, HISTORICAL_INFORMATION, LOCATIONS_ON_WAYS,
    SORT_GEOGRAPHIC, SORT_TYPE_THEN_ID,
};
use osm_pbf_reader::pool::{Pool, POOL_SIZE};
use osm_pbf_reader::pbf::{PbfBlob, PbfBlobData};
use osm_pbf_reader::wire::decode_primitive_block;

#[test]
fn limits() {
    assert_eq!(MAX_HEADER_SIZE, 65536);
    assert_eq!(MAX_UNCOMPRESSED_DATA_SIZE, 33554432);
    assert_eq!(POOL_SIZE, 32);
}

#[test]
fn names_of_features() {
    assert_eq!(DENSE_NODES, "DenseNodes");
    assert_eq!(HISTORICAL_INFORMATION, "HistoricalInformation");
    assert_eq!(HAS_METADATA, "Has_Metadata");
    assert_eq!(SORT_TYPE_THEN_ID, "Sort.Type_then_ID");
    assert_eq!(SORT_GEOGRAPHIC, "Sort.Geographic");
    assert_eq!(LOCATIONS_ON_WAYS, "LocationsOnWays");
}

#[test]
fn blob_type_of_a_name() {
    assert_eq!(BlobType::from_str("OSMHeader"), BlobType::OSMHeader);
    assert_eq!(BlobType::from_str("OSMData"), BlobType::OSMData);
    assert_eq!(BlobType::from_str("OSMdata"), BlobType::Other("OSMdata".to_string()));
    assert_eq!(BlobType::from_str("OSMHeaders"), BlobType::Other("OSMHeaders".to_string()));
    assert_eq!(BlobType::from_str("OSMDat"), BlobType::Other("OSMDat".to_string()));
    assert_eq!(BlobType::from_str(""), BlobType::Other(String::new()));
}

#[test]
fn name_of_a_blob_type() {
    assert_eq!(BlobType::OSMHeader.as_str(), "OSMHeader");
    assert_eq!(BlobType::OSMData.as_str(), "OSMData");
    assert_eq!(BlobType::Other("x".to_string()).as_str(), "x");
    assert_eq!(BlobType::OSMData.to_string(), "OSMData");
    assert_eq!(BlobType::from_str(BlobType::from_str("abc").as_str()), BlobType::from_str("abc"));
}

#[test]
fn header_size_reads_big_endian() {
    assert_eq!(header_size(&[0, 0, 0, 0]).unwrap(), 0);
    assert_eq!(header_size(&[0, 0, 0, 13]).unwrap(), 13);
    assert_eq!(header_size(&[0, 0, 1, 2]).unwrap(), 258);
    assert_eq!(header_size(&[0, 0, 0xab, 0xcd]).unwrap(), 0xabcd);
    assert_eq!(header_size(&[0, 1, 0, 0]).unwrap(), 65536);
    match header_size(&[0, 1, 0, 1]) {
        Err(e) => assert_eq!(e.kind(), ErrorKind::BlobHeaderTooLarge),
        Ok(_) => panic!("an error was expected"),
    }
    assert!(header_size(&[1, 0, 0, 0]).is_err());
    assert!(header_size(&[0xff, 0xff, 0xff, 0xff]).is_err());
}

#[test]
fn blob_header_fields() {
    assert_eq!(check_blob_header("OSMData", 0).unwrap(), (BlobType::OSMData, 0));
    assert_eq!(check_blob_header("OSMHeader", 17).unwrap(), (BlobType::OSMHeader, 17));
    assert_eq!(
        check_blob_header("x", 33554432).unwrap(),
        (BlobType::Other("x".to_string()), 33554432)
    );
    match check_blob_header("OSMData", 33554433) {
        Err(e) => assert_eq!(e.kind(), ErrorKind::BlobDataTooLarge),
        Ok(_) => panic!("an error was expected"),
    }
    assert!(check_blob_header("OSMData", i32::MAX).is_err());
    assert!(check_blob_header("OSMData", -1).is_err());
    assert!(check_blob_header("OSMData", i32::MIN).is_err());
}

#[test]
fn blob_info_of_wire_bytes() {
    // field 1 (type) = "OSMData", field 3 (datasize) = 5
    let header = [0x0a, 7, b'O', b'S', b'M', b'D', b'a', b't', b'a', 0x18, 5];
    assert_eq!(blob_info(&header).unwrap(), (BlobType::OSMData, 5));
    // the size is missing
    match blob_info(&header[..9]) {
        Err(e) => assert_eq!(e.kind(), ErrorKind::Protobuf),
        Ok(_) => panic!("an error was expected"),
    }
    assert!(blob_info(&[]).is_err());
}

#[test]
fn read_bytes_exact_takes_what_is_asked() {
    let source = [1u8, 2, 3, 4, 5];
    let mut bytes = vec![9];
    read_bytes_exact(&source, 1, &mut bytes, 3).unwrap();
    assert_eq!(bytes, vec![9, 2, 3, 4]);
    read_bytes_exact(&source, 5, &mut bytes, 0).unwrap();
    assert_eq!(bytes, vec![9, 2, 3, 4]);
    read_bytes_exact(&source, 0, &mut bytes, 5).unwrap();
    assert_eq!(bytes, vec![9, 2, 3, 4, 1, 2, 3, 4, 5]);
}

#[test]
fn read_bytes_exact_fails_at_the_end() {
    let source = [1u8, 2, 3];
    let mut bytes = vec![9];
    for (pos, size) in [(0, 4), (3, 1), (4, 0), (1, usize::MAX), (usize::MAX, 1)] {
        match read_bytes_exact(&source, pos, &mut bytes, size) {
            Err(e) => {
                assert_eq!(e.kind(), ErrorKind::UnexpectedEof);
                assert!(matches!(e, Error::IoError(IoFailure::UnexpectedEof)));
            }
            Ok(_) => panic!("an error was expected"),
        }
        assert_eq!(bytes, vec![9]);
    }
}

#[test]
fn reserve_hint_is_the_larger_size() {
    assert_eq!(reserve_hint(None, 10), 10);
    assert_eq!(reserve_hint(Some(100), 10), 100);
    assert_eq!(reserve_hint(Some(5), 10), 10);
    assert_eq!(reserve_hint(Some(10), 10), 10);
    assert_eq!(reserve_hint(Some(-3), 10), 10);
    assert_eq!(reserve_hint(Some(0), 0), 0);
    assert_eq!(reserve_hint(Some(i32::MAX), 0), 2147483647);
}

#[test]
fn raw_blob_decodes_to_its_bytes() {
    let mut pool = Pool::new();
    let mut data = BlobData::from_message(PbfBlob { raw_size: None, data: PbfBlobData::Raw(vec![1, 2, 3]) });
    assert_eq!(data.raw(), &[1, 2, 3]);
    data.decode(&mut pool).unwrap();
    assert_eq!(data.raw(), &[1, 2, 3]);
    data.decode(&mut pool).unwrap();
    assert_eq!(data.raw(), &[1, 2, 3]);
    data.release(&mut pool);
    assert!(pool.get().capacity() >= 3);
}

#[test]
fn compressed_blob_has_no_raw_bytes_before_it_is_decoded() {
    let data = BlobData::from_message(PbfBlob { raw_size: Some(9), data: PbfBlobData::ZlibData(vec![1, 2, 3]) });
    assert!(data.raw().is_empty());
}

#[test]
fn unsupported_blobs() {
    let mut pool = Pool::new();
    for data in [PbfBlobData::Unset, PbfBlobData::Other] {
        let mut blob = BlobData::from_message(PbfBlob { raw_size: Some(1), data });
        match blob.decode(&mut pool) {
            Err(e) => assert_eq!(e.kind(), ErrorKind::UnsupportedEncoding),
            Ok(_) => panic!("an error was expected"),
        }
        assert!(blob.raw().is_empty());
    }
}

#[test]
fn broken_zlib_blob_stays_as_it_is() {
    let mut pool = Pool::new();
    let mut blob = BlobData::from_message(PbfBlob { raw_size: None, data: PbfBlobData::ZlibData(vec![0; 8]) });
    match blob.decode(&mut pool) {
        Err(e) => assert!(matches!(e, Error::IoError(IoFailure::Codec(_)))),
        Ok(_) => panic!("an error was expected"),
    }
    assert!(blob.raw().is_empty());
    assert!(blob.decode(&mut pool).is_err());
}

#[test]
fn zlib_blob_decodes_to_what_was_compressed() {
    // zlib stream of the bytes "abc"
    let stream = vec![0x78, 0x9c, 0x4b, 0x4c, 0x4a, 0x06, 0x00, 0x02, 0x4d, 0x01, 0x27];
    let mut pool = Pool::new();
    let mut blob = BlobData::from_message(PbfBlob { raw_size: Some(3), data: PbfBlobData::ZlibData(stream) });
    blob.decode(&mut pool).unwrap();
    assert_eq!(blob.raw(), b"abc");
}

#[test]
fn blob_of_raw_bytes_is_read_as_a_block() {
    let mut pool = Pool::new();
    // a block with an empty string table: field 1, length 0
    let data = BlobData::from_message(PbfBlob { raw_size: None, data: PbfBlobData::Raw(vec![0x0a, 0]) });
    let mut blob: Blob<DataBlobMarker> = Blob::new(data);
    let block = blob.read(&mut pool).unwrap();
    assert!(block.strings.is_empty());
    assert!(block.primitive_groups.is_empty());
    assert_eq!(block.offset.granularity, 100);
    blob.release(&mut pool);
}

#[test]
fn blob_of_raw_bytes_is_read_as_a_header() {
    let mut pool = Pool::new();
    // required_features (field 4) = "DenseNodes", source (field 17) = "s"
    let mut bytes = vec![0x22, 10];
    bytes.extend_from_slice(b"DenseNodes");
    bytes.extend_from_slice(&[0x8a, 0x01, 1, b's']);
    let data = BlobData::from_message(PbfBlob { raw_size: None, data: PbfBlobData::Raw(bytes) });
    let mut blob: Blob<HeaderBlobMarker> = Blob::new(data);
    let header = blob.read(&mut pool).unwrap();
    assert_eq!(header.required_features, vec![DENSE_NODES.to_string()]);
    assert_eq!(header.source.as_deref(), Some("s"));
    assert_eq!(header.bbox, None);
}

#[test]
fn block_record_of_wire_bytes() {
    // string table ["", "a"]; granularity 5; lat_offset 6; lon_offset 7; one
    // group with a way of id 3 and refs [4, -1], and a changeset of id 9
    let bytes = vec![
        0x0a, 5, 0x0a, 0, 0x0a, 1, b'a', // stringtable
        0x12, 12, // group
        0x1a, 6, 0x08, 3, 0x42, 2, 8, 1, // way
        0x2a, 2, 0x08, 9, // changeset
        0x88, 0x01, 5, // granularity
        0x98, 0x01, 6, // lat_offset
        0xa0, 0x01, 7, // lon_offset
    ];
    let record = decode_primitive_block(&bytes).unwrap();
    assert_eq!(record.stringtable, vec![b"".to_vec(), b"a".to_vec()]);
    assert_eq!((record.granularity, record.lat_offset, record.lon_offset), (5, 6, 7));
    assert_eq!(record.primitivegroup.len(), 1);
    let group = &record.primitivegroup[0];
    assert!(group.nodes.is_empty() && group.dense.is_none() && group.relations.is_empty());
    assert_eq!(group.ways.len(), 1);
    assert_eq!(group.ways[0].id, 3);
    assert_eq!(group.ways[0].refs, vec![4, -1]);
    assert_eq!(group.ways[0].info, None);
    assert_eq!(group.changesets, vec![9]);
    match decode_primitive_block(&bytes[..bytes.len() - 1]) {
        Err(e) => assert_eq!(e.kind(), ErrorKind::Protobuf),
        Ok(_) => panic!("an error was expected"),
    }
}

#[test]
fn kinds_of_errors() {
    assert_eq!(Error::unexpected_eof().kind(), ErrorKind::UnexpectedEof);
    assert_eq!(Error::ProtobufError("x".to_string()).kind(), ErrorKind::Protobuf);
    assert_eq!(Error::BlobHeaderTooLarge.kind(), ErrorKind::BlobHeaderTooLarge);
    assert_eq!(Error::BlobDataTooLarge.kind(), ErrorKind::BlobDataTooLarge);
    assert_eq!(Error::UnsupportedEncoding.kind(), ErrorKind::UnsupportedEncoding);
    assert_eq!(Error::UnexpectedBlobType("x".to_string()).kind(), ErrorKind::UnexpectedBlobType);
    let codec = std::io::Error::new(std::io::ErrorKind::InvalidData, "broken");
    assert_eq!(Error::IoError(IoFailure::Codec(codec)).kind(), ErrorKind::Codec);
}

#[test]
fn pool_hands_out_empty_buffers() {
    let mut pool = Pool::new();
    let fresh = pool.get();
    assert!(fresh.is_empty());
    let mut used = Vec::with_capacity(64);
    used.extend_from_slice(&[1, 2, 3]);
    pool.push(used);
    let again = pool.get();
    assert!(again.is_empty());
    assert!(again.capacity() >= 64);
    assert_eq!(pool.get().capacity(), 0);
}

#[test]
fn pool_hands_out_the_oldest_first() {
    let mut pool = Pool::new();
    pool.push(Vec::with_capacity(100));
    pool.push(Vec::with_capacity(2000));
    pool.push(Vec::with_capacity(30000));
    assert!((100..2000).contains(&pool.get().capacity()));
    assert!((2000..30000).contains(&pool.get().capacity()));
    assert!(pool.get().capacity() >= 30000);
}

#[test]
fn pool_drops_buffers_without_room() {
    let mut pool = Pool::new();
    pool.push(Vec::new());
    pool.push(Vec::with_capacity(8));
    assert!(pool.get().capacity() >= 8);
    assert_eq!(pool.get().capacity(), 0);
    pool.push_sized(Vec::with_capacity(8), 0);
    assert_eq!(pool.get().capacity(), 0);
    pool.push_sized(Vec::with_capacity(8), 8);
    assert!(pool.get().capacity() >= 8);
}

#[test]
fn pool_keeps_no_more_than_its_size() {
    let mut pool = Pool::new();
    for i in 0..40 {
        pool.push(Vec::with_capacity(1000 + i));
    }
    for i in 0..POOL_SIZE {
        let capacity = pool.get().capacity();
        assert!(capacity >= 1000 + i);
    }
    assert_eq!(pool.get().capacity(), 0);
}

#[test]
fn cursors_one_after_the_other() {
    // two frames of type OSMData, each with a raw blob of no bytes
    let mut stream = Vec::new();
    for _ in 0..2 {
        let header = [0x0a, 7, b'O', b'S', b'M', b'D', b'a', b't', b'a', 0x18, 2];
        stream.extend_from_slice(&[0, 0, 0, header.len() as u8]);
        stream.extend_from_slice(&header);
        stream.extend_from_slice(&[0x0a, 0]);
    }
    for _ in 0..100 {
        let mut blobs = Blobs::from_bytes(stream.clone());
        let mut count = 0;
        while let Some(blob) = blobs.next() {
            let mut blob = blob.unwrap();
            match blob.read(blobs.pool()) {
                Err(e) => assert_eq!(e.kind(), ErrorKind::Protobuf),
                Ok(_) => panic!("no bytes make no block"),
            }
            blob.release(blobs.pool());
            count += 1;
        }
        assert_eq!(count, 2);
    }
}

fn raw_data(bytes: &[u8]) -> BlobData {
    BlobData::from_message(PbfBlob { raw_size: None, data: PbfBlobData::Raw(bytes.to_vec()) })
}

#[test]
fn frame_follows_a_whole_length() {
    assert!(!frame_follows(0).unwrap());
    assert!(frame_follows(4).unwrap());
    assert!(frame_follows(5).unwrap());
    assert!(frame_follows(usize::MAX).unwrap());
    for got in 1..4 {
        match frame_follows(got) {
            Err(e) => assert_eq!(e.kind(), ErrorKind::UnexpectedEof),
            Ok(_) => panic!("an error was expected"),
        }
    }
}

#[test]
fn header_is_expected() {
    let mut pool = Pool::new();
    let mut header = expect_header(Some((BlobType::OSMHeader, raw_data(&[])))).unwrap();
    assert!(header.read(&mut pool).unwrap().required_features.is_empty());
    match expect_header(Some((BlobType::OSMData, raw_data(&[])))) {
        Err(Error::UnexpectedBlobType(name)) => assert_eq!(name, "OSMData"),
        _ => panic!("the type of the blob was expected"),
    }
    match expect_header(Some((BlobType::Other("x".to_string()), raw_data(&[])))) {
        Err(Error::UnexpectedBlobType(name)) => assert_eq!(name, "x"),
        _ => panic!("the type of the blob was expected"),
    }
    match expect_header(None) {
        Err(e) => assert_eq!(e.kind(), ErrorKind::UnexpectedEof),
        Ok(_) => panic!("an error was expected"),
    }
}

#[test]
fn data_is_expected() {
    let mut pool = Pool::new();
    let mut blob = expect_data(BlobType::OSMData, raw_data(&[0x0a, 0]), &mut pool).unwrap();
    assert!(blob.read(&mut pool).unwrap().strings.is_empty());
    assert_eq!(pool.get().capacity(), 0);
    assert!(expect_data(BlobType::OSMHeader, raw_data(&[1, 2, 3]), &mut pool).is_none());
    assert!(pool.get().capacity() >= 3);
    assert!(expect_data(BlobType::Other("x".to_string()), raw_data(&[1]), &mut pool).is_none());
}

#[test]
fn release_hands_back_the_payload_buffer() {
    let mut pool = Pool::new();
    BlobData::from_message(PbfBlob { raw_size: Some(4), data: PbfBlobData::Other }).release(&mut pool);
    BlobData::from_message(PbfBlob { raw_size: None, data: PbfBlobData::Unset }).release(&mut pool);
    assert_eq!(pool.get().capacity(), 0);
    let zlib = PbfBlob { raw_size: None, data: PbfBlobData::ZlibData(vec![1, 2, 3, 4, 5]) };
    BlobData::from_message(zlib).release(&mut pool);
    let blob: Blob<DataBlobMarker> = Blob::new(raw_data(&[0; 300]));
    blob.release(&mut pool);
    let first = pool.get();
    assert!(first.is_empty());
    assert!((5..300).contains(&first.capacity()));
    assert!(pool.get().capacity() >= 300);
    assert_eq!(pool.get().capacity(), 0);
}

#[test]
fn full_pool_drops_what_is_released() {
    let mut pool = Pool::new();
    for _ in 0..POOL_SIZE {
        pool.push(vec![0; 10]);
    }
    raw_data(&[0; 5000]).release(&mut pool);
    for _ in 0..POOL_SIZE {
        assert!((10..5000).contains(&pool.get().capacity()));
    }
    assert_eq!(pool.get().capacity(), 0);
}
