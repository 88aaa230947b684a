//! Blocks of primitives and the views that borrow from them.
use crate::blob::{reads, Blob, Block};
use crate::codec::{xz_inflated, zlib_inflated};
use crate::data::primitive::{all_primitives, PrimitiveType};
use crate::error::{Error, ErrorKind};
use crate::wire::{decode_primitive_block, primitive_block_message};
use crate::pbf::{group_views, BlobDataMsg, BlobMsg, BlockMsg, GroupMsg, PbfInfo, PbfPrimitiveBlock,
    PbfPrimitiveGroup};
use vstd::prelude::*;
use vstd::wrapping::i64_specs;
use vstd::utf8::{decode_utf8, valid_utf8};

pub mod changeset;
pub mod dense;
pub mod node;
pub mod primitive;
pub mod primitive_group;
pub mod relation;
pub mod tags;
pub mod way;

verus! {

/// `std::str::from_utf8` gives the string exactly when the bytes are valid
/// UTF-8, and the string then holds the characters that the bytes encode.
pub assume_specification<'a>[ std::str::from_utf8 ](v: &'a [u8]) -> (r: std::result::Result<
    &'a str,
    std::str::Utf8Error,
>)
    ensures
        r is Ok <==> valid_utf8(v@),
        r matches Ok(s) ==> s@ == decode_utf8(v@),
;

/// The version number of a primitive as an unsigned number: a negative value
/// of the message counts from 2^32 downwards.
pub open spec fn version_of(version: i32) -> u32 {
    if version >= 0 {
        version as u32
    } else {
        (version + 0x1_0000_0000) as u32
    }
}

pub fn version_from(version: i32) -> (v: u32)
    ensures
        v == version_of(version),
{
    if version >= 0 {
        version as u32
    } else {
        (version as i64 + 0x1_0000_0000) as u32
    }
}

/// The version of a primitive and whether it is visible.
#[derive(Copy, Clone, Debug, PartialEq, Eq, Structural)]
pub struct Meta {
    pub version: u32,
    pub visible: bool,
}

impl Meta {
    /// The metadata that stands for `info`: version 0 and visible where the
    /// primitive has none, visible where it does not say.
    pub open spec fn of_info(info: Option<PbfInfo>) -> Meta {
        match info {
            Some(info) => Meta {
                version: version_of(info.version),
                visible: match info.visible {
                    Some(visible) => visible,
                    None => true,
                },
            },
            None => Meta { version: 0, visible: true },
        }
    }

    pub fn from_info(info: Option<&PbfInfo>) -> (meta: Meta)
        ensures
            meta == Meta::of_info(
                match info {
                    Some(info) => Some(*info),
                    None => None,
                },
            ),
    {
        match info {
            Some(info) => Meta {
                version: version_from(info.version),
                visible: match info.visible {
                    Some(visible) => visible,
                    None => true,
                },
            },
            None => Meta { version: 0, visible: true },
        }
    }
}

impl Default for Meta {
    fn default() -> (meta: Self)
        ensures
            meta == (Meta { version: 0, visible: true }),
    {
        Meta { version: 0, visible: true }
    }
}

/// A coordinate in nanodegrees: `offset + raw * granularity`, reduced to 64
/// bits (two's complement) where it does not fit.
pub open spec fn nano_degrees(offset: i64, raw: i64, granularity: i32) -> i64 {
    i64_specs::wrapping_add(offset, i64_specs::wrapping_mul(raw, granularity as i64))
}

/// Where `offset + raw * granularity` fits in 64 bits, `nano_degrees` is
/// that number.
pub proof fn lemma_nano_degrees_exact(offset: i64, raw: i64, granularity: i32)
    requires
        i64::MIN <= offset + raw * granularity <= i64::MAX,
    ensures
        nano_degrees(offset, raw, granularity) == offset + raw * granularity,
{
    let product: int = raw * (granularity as i64);
    let cropped = i64_specs::signed_crop(product);
    assert(cropped == product % 0x1_0000_0000_0000_0000 || cropped == product
        % 0x1_0000_0000_0000_0000 - 0x1_0000_0000_0000_0000);
    assert(product == 0x1_0000_0000_0000_0000 * (product / 0x1_0000_0000_0000_0000) + product
        % 0x1_0000_0000_0000_0000);
}

/// The sum of the first `n` deltas, each addition reduced to 64 bits.
pub open spec fn delta_sum(deltas: Seq<i64>, n: int) -> i64
    decreases n,
{
    if n <= 0 {
        0
    } else {
        i64_specs::wrapping_add(delta_sum(deltas, n - 1), deltas[n - 1])
    }
}

/// The exact sum of the first `n` deltas.
pub open spec fn exact_sum(deltas: Seq<i64>, n: int) -> int
    decreases n,
{
    if n <= 0 {
        0
    } else {
        exact_sum(deltas, n - 1) + deltas[n - 1]
    }
}

/// Where the exact sum of the first `n` deltas fits in 64 bits, `delta_sum`
/// is that sum, whatever the sums on the way were.
pub proof fn lemma_delta_sum_exact(deltas: Seq<i64>, n: int)
    requires
        0 <= n <= deltas.len(),
        i64::MIN <= exact_sum(deltas, n) <= i64::MAX,
    ensures
        delta_sum(deltas, n) == exact_sum(deltas, n),
{
    lemma_delta_sum_congruent(deltas, n);
}

/// `delta_sum` differs from the exact sum by a multiple of 2^64.
proof fn lemma_delta_sum_congruent(deltas: Seq<i64>, n: int)
    requires
        0 <= n <= deltas.len(),
    ensures
        (delta_sum(deltas, n) - exact_sum(deltas, n)) % 0x1_0000_0000_0000_0000 == 0,
    decreases n,
{
    if n > 0 {
        lemma_delta_sum_congruent(deltas, n - 1);
    }
}

/// The sums that the walk over a dense group has reached: identity and raw
/// coordinates of the node handed out last, and where in `keys_vals` the tags
/// of the next node begin.
#[derive(Copy, Clone, Debug, PartialEq, Eq, Structural)]
pub struct DenseState {
    pub id: i64,
    pub lat: i64,
    pub lon: i64,
    pub kv_pos: usize,
}

impl Default for DenseState {
    fn default() -> (state: Self)
        ensures
            state == (DenseState { id: 0, lat: 0, lon: 0, kv_pos: 0 }),
    {
        DenseState { id: 0, lat: 0, lon: 0, kv_pos: 0 }
    }
}

/// The offset and the granularity of the coordinates of a block, in
/// nanodegrees.
#[derive(Copy, Clone, Debug, PartialEq, Eq, Structural)]
pub struct Offset {
    pub lat: i64,
    pub lon: i64,
    pub granularity: i32,
}

impl Offset {
    /// The latitude in nanodegrees of a raw latitude.
    pub fn nano_lat(&self, raw: i64) -> (nano: i64)
        ensures
            nano == nano_degrees(self.lat, raw, self.granularity),
    {
        self.lat.wrapping_add(raw.wrapping_mul(self.granularity as i64))
    }

    /// The longitude in nanodegrees of a raw longitude.
    pub fn nano_lon(&self, raw: i64) -> (nano: i64)
        ensures
            nano == nano_degrees(self.lon, raw, self.granularity),
    {
        self.lon.wrapping_add(raw.wrapping_mul(self.granularity as i64))
    }
}

impl Default for Offset {
    /// No offset, and the granularity that the schema gives a block that
    /// names none: 100 nanodegrees.
    fn default() -> (offset: Self)
        ensures
            offset == (Offset { lat: 0, lon: 0, granularity: 100 }),
    {
        Offset { lat: 0, lon: 0, granularity: 100 }
    }
}

/// The string that the bytes of a string-table entry encode.
pub fn bytes_to_str(bytes: &[u8]) -> (r: Result<String, Error>)
    ensures
        match r {
            Ok(s) => valid_utf8(bytes@) && s@ == decode_utf8(bytes@),
            Err(e) => !valid_utf8(bytes@) && e matches Error::Utf8Error(_),
        },
{
    match std::str::from_utf8(bytes) {
        Ok(s) => Ok(s.to_owned()),
        Err(e) => Err(Error::Utf8Error(e)),
    }
}

/// Every entry of the table is valid UTF-8.
pub open spec fn table_is_utf8(table: Seq<Seq<u8>>) -> bool {
    forall|i: int| 0 <= i < table.len() ==> valid_utf8(#[trigger] table[i])
}

/// The strings that the entries of the table encode.
pub open spec fn table_strings(table: Seq<Seq<u8>>) -> Seq<Seq<char>> {
    Seq::new(table.len(), |i: int| decode_utf8(table[i]))
}

/// A block of primitives: the string table, the groups, and the offset and
/// granularity of its coordinates.
#[derive(Clone, Debug, PartialEq)]
pub struct PrimitiveBlock {
    pub strings: Vec<String>,
    pub primitive_groups: Vec<PbfPrimitiveGroup>,
    pub offset: Offset,
}

impl Default for PrimitiveBlock {
    /// A block without strings and groups, with no offset and the granularity
    /// of 100 nanodegrees.
    fn default() -> (block: Self)
        ensures
            block.strings@.len() == 0,
            block.primitive_groups@.len() == 0,
            block.offset == (Offset { lat: 0, lon: 0, granularity: 100 }),
    {
        PrimitiveBlock {
            strings: Vec::new(),
            primitive_groups: Vec::new(),
            offset: Offset { lat: 0, lon: 0, granularity: 100 },
        }
    }
}

impl PrimitiveBlock {
    /// The entries of the string table.
    pub open spec fn string_views(&self) -> Seq<Seq<char>> {
        self.strings.deep_view()
    }

    /// The groups of the block, as the messages that they hold.
    pub open spec fn groups(&self) -> Seq<GroupMsg> {
        group_views(self.primitive_groups@)
    }

    /// What `try_from` gives for a message: the block with the strings that
    /// the entries of the string table encode, the groups of the message and
    /// its offsets and granularity; an error where an entry of the string
    /// table is not UTF-8, and only there.
    pub open spec fn stands_for(message: BlockMsg, r: Result<PrimitiveBlock, Error>) -> bool {
        if table_is_utf8(message.stringtable) {
            &&& r matches Ok(block)
            &&& block.string_views() == table_strings(message.stringtable)
            &&& block.groups() == message.primitivegroup
            &&& block.offset == (Offset {
                lat: message.lat_offset,
                lon: message.lon_offset,
                granularity: message.granularity,
            })
        } else {
            r matches Err(e) && e.kind() == ErrorKind::Utf8
        }
    }

    /// The block that a decoded message stands for.
    pub fn try_from(pbf: PbfPrimitiveBlock) -> (r: Result<PrimitiveBlock, Error>)
        ensures
            PrimitiveBlock::stands_for(pbf@, r),
            r matches Ok(block) ==> block.primitive_groups == pbf.primitivegroup,
    {
        let mut strings: Vec<String> = Vec::new();
        let mut i: usize = 0;
        while i < pbf.stringtable.len()
            invariant
                i <= pbf.stringtable.len(),
                strings.len() == i,
                forall|j: int| 0 <= j < i ==> valid_utf8(#[trigger] pbf@.stringtable[j]),
                forall|j: int|
                    0 <= j < i ==> (#[trigger] strings[j])@ == decode_utf8(pbf@.stringtable[j]),
            decreases pbf.stringtable.len() - i,
        {
            match bytes_to_str(pbf.stringtable[i].as_slice()) {
                Ok(s) => {
                    strings.push(s);
                },
                Err(e) => {
                    assert(!valid_utf8(pbf@.stringtable[i as int]));
                    return Err(e);
                },
            }
            i += 1;
        }
        let block = PrimitiveBlock {
            strings,
            primitive_groups: pbf.primitivegroup,
            offset: Offset {
                lat: pbf.lat_offset,
                lon: pbf.lon_offset,
                granularity: pbf.granularity,
            },
        };
        assert(block.string_views() =~= table_strings(pbf@.stringtable));
        Ok(block)
    }
}

/// The kind of a block of primitives.
pub struct DataBlobMarker;

impl Block for DataBlobMarker {
    type Target = PrimitiveBlock;

    /// The block that the message stands for which the decoder reads from the
    /// bytes, and an error where it reads none.
    open spec fn parses(bytes: Seq<u8>, r: Result<PrimitiveBlock, Error>) -> bool {
        match primitive_block_message(bytes) {
            Some(message) => PrimitiveBlock::stands_for(message, r),
            None => r matches Err(e) && e.kind() == ErrorKind::Protobuf,
        }
    }

    fn parse(bytes: &[u8]) -> (r: Result<PrimitiveBlock, Error>) {
        match decode_primitive_block(bytes) {
            Ok(pbf) => PrimitiveBlock::try_from(pbf),
            Err(e) => Err(e),
        }
    }
}

/// A blob that holds a block of primitives.
pub type OSMDataBlob = Blob<DataBlobMarker>;

/// The primitives that a walk with this filter finds in the block.
pub open spec fn block_primitives(block: PrimitiveBlock, filter: PrimitiveType) -> Seq<
    crate::data::primitive::PrimitiveModel,
> {
    all_primitives(block.groups(), filter, block.offset, block.string_views())
}

/// Blobs that hold the same bytes raw, compressed with zlib and compressed
/// with xz read alike: all three give a block or none does, and the blocks
/// hold the same primitives in the same order.
pub proof fn lemma_encodings_read_alike(
    bytes: Seq<u8>,
    raw: BlobMsg,
    zlib: BlobMsg,
    xz: BlobMsg,
    from_raw: Result<PrimitiveBlock, Error>,
    from_zlib: Result<PrimitiveBlock, Error>,
    from_xz: Result<PrimitiveBlock, Error>,
    filter: PrimitiveType,
)
    requires
        raw.data == BlobDataMsg::Raw(bytes),
        zlib.data matches BlobDataMsg::ZlibData(data) && zlib_inflated(data) == Some(bytes),
        xz.data matches BlobDataMsg::LzmaData(data) && xz_inflated(data) == Some(bytes),
        reads::<DataBlobMarker>(raw, from_raw),
        reads::<DataBlobMarker>(zlib, from_zlib),
        reads::<DataBlobMarker>(xz, from_xz),
    ensures
        from_raw is Ok <==> from_zlib is Ok,
        from_raw is Ok <==> from_xz is Ok,
        from_raw is Ok ==> block_primitives(from_zlib->Ok_0, filter) == block_primitives(
            from_raw->Ok_0,
            filter,
        ) && block_primitives(from_xz->Ok_0, filter) == block_primitives(from_raw->Ok_0, filter),
{
}

} // verus!
