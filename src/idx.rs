use vstd::prelude::*;
use vstd::slice::slice_subrange;

use crate::error::LoadError;
use crate::records::copy_range;
use crate::wire::{be_u32, read_be_u32};

verus! {

/// Magic number that opens an IDX label file.
pub const LABEL_MAGIC_NO: u32 = 2049;

/// Magic number that opens an IDX image file.
pub const IMG_MAGIC_NO: u32 = 2051;

/// The first `fields` big-endian 32-bit header fields of an IDX stream.
pub open spec fn idx_header(data: Seq<u8>, fields: int) -> Seq<u32> {
    Seq::new(fields as nat, |i: int| be_u32(data, 4 * i) as u32)
}

/// Bytes of one image: rows times columns, as declared in the header.
pub open spec fn image_size(data: Seq<u8>) -> int {
    be_u32(data, 8) * be_u32(data, 12)
}

/// The images of an IDX image stream: its payload after the 16 header bytes,
/// cut into whole chunks of `image_size` bytes in order; bytes left over after
/// the last whole chunk are dropped.
pub open spec fn idx_images(data: Seq<u8>) -> Seq<Seq<u8>> {
    let size = image_size(data);
    let payload = data.subrange(16, data.len() as int);
    if size == 0 {
        Seq::empty()
    } else {
        Seq::new(
            (payload.len() as int / size) as nat,
            |i: int| payload.subrange(i * size, i * size + size),
        )
    }
}

/// What decoding an IDX label stream gives: its two header fields and one
/// label per payload byte.
pub open spec fn label_outcome(data: Seq<u8>) -> Result<(Seq<u32>, Seq<u8>), LoadError> {
    if data.len() < 8 {
        Err(LoadError::Truncated)
    } else if be_u32(data, 0) != LABEL_MAGIC_NO {
        Err(LoadError::DataIntegrity)
    } else {
        Ok((idx_header(data, 2), data.subrange(8, data.len() as int)))
    }
}

/// What decoding an IDX image stream gives: its four header fields and its images.
pub open spec fn image_outcome(data: Seq<u8>) -> Result<(Seq<u32>, Seq<Seq<u8>>), LoadError> {
    if data.len() < 16 {
        Err(LoadError::Truncated)
    } else if be_u32(data, 0) != IMG_MAGIC_NO {
        Err(LoadError::DataIntegrity)
    } else {
        Ok((idx_header(data, 4), idx_images(data)))
    }
}

/// A decoded label stream seen as sequences.
pub open spec fn view_labels(r: Result<([u32; 2], Vec<u8>), LoadError>) -> Result<
    (Seq<u32>, Seq<u8>),
    LoadError,
> {
    match r {
        Ok((h, labels)) => Ok((h@, labels@)),
        Err(e) => Err(e),
    }
}

/// A decoded image stream seen as sequences.
pub open spec fn view_images(r: Result<([u32; 4], Vec<Vec<u8>>), LoadError>) -> Result<
    (Seq<u32>, Seq<Seq<u8>>),
    LoadError,
> {
    match r {
        Ok((h, images)) => Ok((h@, images.deep_view())),
        Err(e) => Err(e),
    }
}

/// A label stream with a whole header and the label magic number decodes to
/// one label per payload byte; with a whole header and any other magic number
/// it fails with a data-integrity error.
pub proof fn lemma_label_count(data: Seq<u8>)
    requires
        data.len() >= 8,
    ensures
        be_u32(data, 0) == LABEL_MAGIC_NO ==> (label_outcome(data) matches Ok((_, labels))
            && labels.len() == data.len() - 8),
        be_u32(data, 0) != LABEL_MAGIC_NO ==> label_outcome(data) == Err::<
            (Seq<u32>, Seq<u8>),
            LoadError,
        >(LoadError::DataIntegrity),
{
}

/// An image stream with a whole header, the image magic number and
/// `rows * cols > 0` decodes to `floor(payload / (rows * cols))` images of
/// exactly `rows * cols` bytes each.
pub proof fn lemma_image_chunks(data: Seq<u8>)
    requires
        data.len() >= 16,
        be_u32(data, 0) == IMG_MAGIC_NO,
        image_size(data) > 0,
    ensures
        image_outcome(data) matches Ok((_, images)) && images.len() == (data.len() - 16)
            / image_size(data) && forall|i: int|
            0 <= i < images.len() ==> (#[trigger] images[i]).len() == image_size(data),
{
    let size = image_size(data);
    let p = data.len() - 16;
    let n = p / size;
    let images = idx_images(data);
    assert forall|i: int| 0 <= i < images.len() implies (#[trigger] images[i]).len() == size by {
        vstd::arithmetic::div_mod::lemma_fundamental_div_mod(p, size);
        assert(i * size + size <= n * size) by (nonlinear_arith)
            requires
                0 <= i < n,
                size > 0,
        ;
        assert(n * size <= p) by (nonlinear_arith)
            requires
                p == size * n + p % size,
                p % size >= 0,
        ;
        assert(0 <= i * size) by (nonlinear_arith)
            requires
                0 <= i,
                size > 0,
        ;
    }
}

fn read_field(data: &Vec<u8>, pos: usize) -> (r: u32)
    requires
        pos + 4 <= data@.len(),
    ensures
        r as int == be_u32(data@, pos as int),
{
    let len: usize = data.len();
    assert(pos + 4 <= len);
    read_be_u32(slice_subrange(data.as_slice(), pos, pos + 4))
}

/// Decodes an IDX label stream: the magic number, the count, then one label
/// per remaining byte.
pub fn decode_idx_labels(data: &Vec<u8>) -> (r: Result<([u32; 2], Vec<u8>), LoadError>)
    ensures
        view_labels(r) == label_outcome(data@),
{
    if data.len() < 8 {
        return Err(LoadError::Truncated);
    }
    let magic = read_field(data, 0);
    let count = read_field(data, 4);
    if magic != LABEL_MAGIC_NO {
        return Err(LoadError::DataIntegrity);
    }
    let header: [u32; 2] = [magic, count];
    let labels = copy_range(data, 8, data.len());
    assert(header@ =~= idx_header(data@, 2));
    Ok((header, labels))
}

/// Decodes an IDX image stream: the magic number, the count, the number of
/// rows and of columns, then the pixels, cut into images of rows times
/// columns bytes each. The declared count is not checked against the payload.
pub fn decode_idx_images(data: &Vec<u8>) -> (r: Result<([u32; 4], Vec<Vec<u8>>), LoadError>)
    ensures
        view_images(r) == image_outcome(data@),
{
    let len: usize = data.len();
    if len < 16 {
        return Err(LoadError::Truncated);
    }
    let magic = read_field(data, 0);
    let count = read_field(data, 4);
    let rows = read_field(data, 8);
    let cols = read_field(data, 12);
    if magic != IMG_MAGIC_NO {
        return Err(LoadError::DataIntegrity);
    }
    let header: [u32; 4] = [magic, count, rows, cols];
    assert(header@ =~= idx_header(data@, 4));
    assert(rows as u64 * cols as u64 <= u64::MAX) by (nonlinear_arith)
        requires
            rows <= u32::MAX,
            cols <= u32::MAX,
    ;
    let size: u64 = rows as u64 * cols as u64;
    let ghost sz = size as int;
    let ghost payload = data@.subrange(16, len as int);
    let mut images: Vec<Vec<u8>> = Vec::new();
    if size == 0 {
        assert(images.deep_view() =~= idx_images(data@));
        return Ok((header, images));
    }
    let mut pos: usize = 16;
    assert(images.len() * sz == 0) by (nonlinear_arith)
        requires
            images.len() == 0,
    ;
    while ((len - pos) as u64) >= size
        invariant
            sz == size as int,
            sz == image_size(data@),
            0 < size,
            len == data@.len(),
            16 <= pos <= len,
            payload == data@.subrange(16, len as int),
            pos - 16 == images.len() * sz,
            forall|j: int|
                0 <= j < images.len() ==> #[trigger] images@[j]@ == payload.subrange(
                    j * sz,
                    j * sz + sz,
                ),
        decreases len - pos,
    {
        let ghost k = images.len() as int;
        let step: usize = size as usize;
        let image = copy_range(data, pos, pos + step);
        assert(image@ =~= payload.subrange(k * sz, k * sz + sz));
        images.push(image);
        pos = pos + step;
        assert((k + 1) * sz == k * sz + sz) by (nonlinear_arith);
    }
    let ghost n = images.len() as int;
    proof {
        vstd::arithmetic::div_mod::lemma_fundamental_div_mod_converse(
            payload.len() as int, sz, n, (len - pos) as int);
    }
    assert forall|j: int| 0 <= j < n implies images.deep_view()[j] =~= idx_images(data@)[j] by {
        assert(images@[j]@ == payload.subrange(j * sz, j * sz + sz));
    }
    assert(images.deep_view() =~= idx_images(data@));
    Ok((header, images))
}

} // verus!
