use vstd::prelude::*;
use vstd::slice::{slice_subrange, slice_to_vec};

use crate::error::LoadError;

verus! {

/// Number of bytes of one record: its label bytes followed by its pixels.
pub open spec fn stride(label_width: int, pixel_width: int) -> int {
    label_width + pixel_width
}

/// Label bytes of record `i`.
pub open spec fn record_label(data: Seq<u8>, label_width: int, pixel_width: int, i: int) -> Seq<u8> {
    data.subrange(
        i * stride(label_width, pixel_width),
        i * stride(label_width, pixel_width) + label_width,
    )
}

/// Pixel bytes of record `i`.
pub open spec fn record_pixels(data: Seq<u8>, label_width: int, pixel_width: int, i: int) -> Seq<u8> {
    data.subrange(
        i * stride(label_width, pixel_width) + label_width,
        i * stride(label_width, pixel_width) + stride(label_width, pixel_width),
    )
}

/// Number of whole records in `data`.
pub open spec fn record_count(data: Seq<u8>, label_width: int, pixel_width: int) -> int {
    data.len() as int / stride(label_width, pixel_width)
}

/// The label bytes of every whole record, in file order.
pub open spec fn record_labels(data: Seq<u8>, label_width: int, pixel_width: int) -> Seq<Seq<u8>> {
    Seq::new(
        record_count(data, label_width, pixel_width) as nat,
        |i: int| record_label(data, label_width, pixel_width, i),
    )
}

/// The pixel bytes of every whole record, in file order.
pub open spec fn record_images(data: Seq<u8>, label_width: int, pixel_width: int) -> Seq<Seq<u8>> {
    Seq::new(
        record_count(data, label_width, pixel_width) as nat,
        |i: int| record_pixels(data, label_width, pixel_width, i),
    )
}

/// The data ends on a record boundary.
pub open spec fn whole_records(data: Seq<u8>, label_width: int, pixel_width: int) -> bool {
    data.len() as int % stride(label_width, pixel_width) == 0
}

/// A stream whose length is a multiple of the record size holds exactly
/// `length / (label_width + pixel_width)` records and decodes without error;
/// one that is one byte short of such a multiple, after at least one whole
/// record, ends inside a record.
pub proof fn lemma_record_boundaries(data: Seq<u8>, label_width: int, pixel_width: int, k: int)
    requires
        label_width == 1 || label_width == 2,
        pixel_width >= 1,
        k >= 2,
    ensures
        data.len() as int % stride(label_width, pixel_width) == 0 ==> whole_records(data, label_width, pixel_width)
            && record_labels(data, label_width, pixel_width).len() == data.len() as int / stride(label_width, pixel_width)
            && record_images(data, label_width, pixel_width).len() == data.len() as int / stride(label_width, pixel_width),
        data.len() == k * stride(label_width, pixel_width) - 1 ==> !whole_records(data, label_width, pixel_width),
{
    let s = stride(label_width, pixel_width);
    if data.len() == k * s - 1 {
        assert(data.len() == (k - 1) * s + (s - 1)) by (nonlinear_arith)
            requires
                data.len() == k * s - 1,
        ;
        vstd::arithmetic::div_mod::lemma_fundamental_div_mod_converse(
            data.len() as int, s, k - 1, s - 1);
    }
}

/// Labels and images decoded from a stream of fixed-size records.
pub struct FixedRecords {
    pub labels: Vec<Vec<u8>>,
    pub images: Vec<Vec<u8>>,
}

/// Bytes `start..end` of `data`, copied.
pub fn copy_range(data: &Vec<u8>, start: usize, end: usize) -> (r: Vec<u8>)
    requires
        start <= end <= data@.len(),
    ensures
        r@ == data@.subrange(start as int, end as int),
{
    slice_to_vec(slice_subrange(data.as_slice(), start, end))
}

/// Splits `data` into records of `label_width` label bytes followed by
/// `pixel_width` pixel bytes. Ending exactly on a record boundary is the normal
/// end; ending inside a record is `Truncated`.
pub fn decode_fixed_records(data: &Vec<u8>, label_width: usize, pixel_width: usize) -> (r: Result<
    FixedRecords,
    LoadError,
>)
    requires
        0 < label_width + pixel_width <= usize::MAX,
    ensures
        r is Ok <==> whole_records(data@, label_width as int, pixel_width as int),
        r is Err ==> r == Err::<FixedRecords, LoadError>(LoadError::Truncated),
        r matches Ok(recs) ==> {
            &&& recs.labels.deep_view() == record_labels(data@, label_width as int, pixel_width as int)
            &&& recs.images.deep_view() == record_images(data@, label_width as int, pixel_width as int)
            &&& recs.labels@.len() == record_count(data@, label_width as int, pixel_width as int)
            &&& forall|i: int| 0 <= i < recs.labels@.len() ==> (#[trigger] recs.labels@[i])@
                == record_label(data@, label_width as int, pixel_width as int, i)
        },
{
    let ghost lw = label_width as int;
    let ghost pw = pixel_width as int;
    let step: usize = label_width + pixel_width;
    let len: usize = data.len();
    let mut labels: Vec<Vec<u8>> = Vec::new();
    let mut images: Vec<Vec<u8>> = Vec::new();
    let mut pos: usize = 0;
    assert(labels.len() * step == 0) by (nonlinear_arith)
        requires
            labels.len() == 0,
    ;
    while len - pos >= step
        invariant
            lw == label_width as int,
            pw == pixel_width as int,
            step == label_width + pixel_width,
            step as int == stride(lw, pw),
            0 < step,
            len == data@.len(),
            pos <= len,
            pos as int == labels.len() * step,
            images.len() == labels.len(),
            forall|j: int| 0 <= j < labels.len() ==> #[trigger] labels@[j]@ == record_label(data@, lw, pw, j),
            forall|j: int| 0 <= j < images.len() ==> #[trigger] images@[j]@ == record_pixels(data@, lw, pw, j),
        decreases len - pos,
    {
        let ghost k = labels.len() as int;
        let label = copy_range(data, pos, pos + label_width);
        let image = copy_range(data, pos + label_width, pos + step);
        assert(k * stride(lw, pw) == pos);
        assert(label@ == record_label(data@, lw, pw, k));
        assert(image@ == record_pixels(data@, lw, pw, k));
        labels.push(label);
        images.push(image);
        pos = pos + step;
        assert((k + 1) * step == k * step + step) by (nonlinear_arith);
    }
    let ghost n = labels.len() as int;
    proof {
        vstd::arithmetic::div_mod::lemma_fundamental_div_mod_converse(
            len as int, step as int, n, (len - pos) as int);
    }
    if pos < len {
        return Err(LoadError::Truncated);
    }
    assert forall|j: int| 0 <= j < n implies labels.deep_view()[j] =~= record_label(data@, lw, pw, j)
        && images.deep_view()[j] =~= record_pixels(data@, lw, pw, j) by {
        assert(labels@[j]@ == record_label(data@, lw, pw, j));
        assert(images@[j]@ == record_pixels(data@, lw, pw, j));
    }
    assert(labels.deep_view() =~= record_labels(data@, lw, pw));
    assert(images.deep_view() =~= record_images(data@, lw, pw));
    Ok(FixedRecords { labels, images })
}

} // verus!
