use vstd::prelude::*;
use vstd::string::*;

use crate::cache::{join, join_path, needs_download, needs_redownload};
use crate::error::LoadError;
use crate::records::{decode_fixed_records, record_count, record_images, record_label, whole_records};

verus! {

/// Label bytes at the start of each CIFAR-10 record.
pub const LABEL_WIDTH: usize = 1;

/// Pixel bytes of each CIFAR-10 record: 32 by 32 pixels, three channels.
pub const PIXEL_WIDTH: usize = 3072;

/// The CIFAR-10 training and test splits: one class byte and one 3072-byte
/// image per sample.
pub struct CIFAR10 {
    pub train_labels: Vec<u8>,
    pub train_imgs: Vec<Vec<u8>>,
    pub test_labels: Vec<u8>,
    pub test_imgs: Vec<Vec<u8>>,
}

/// Where and how CIFAR-10 is fetched: the cache directory, whether to download
/// again even when the files are there, and whether to report progress.
pub struct CIFAR10Builder {
    data_home: String,
    force_download: bool,
    verbose: bool,
}

/// Relative names of the five training batches and the test batch.
pub open spec fn cifar10_file_names() -> Seq<Seq<char>> {
    seq![
        "cifar-10-batches-bin/data_batch_1.bin"@,
        "cifar-10-batches-bin/data_batch_2.bin"@,
        "cifar-10-batches-bin/data_batch_3.bin"@,
        "cifar-10-batches-bin/data_batch_4.bin"@,
        "cifar-10-batches-bin/data_batch_5.bin"@,
        "cifar-10-batches-bin/test_batch.bin"@,
    ]
}

/// The class byte of every whole record of a batch.
pub open spec fn batch_labels(data: Seq<u8>) -> Seq<u8> {
    Seq::new(
        record_count(data, 1, 3072) as nat,
        |i: int| record_label(data, 1, 3072, i)[0],
    )
}

/// What decoding one batch gives.
pub open spec fn batch_outcome(data: Seq<u8>) -> Result<(Seq<u8>, Seq<Seq<u8>>), LoadError> {
    if whole_records(data, 1, 3072) {
        Ok((batch_labels(data), record_images(data, 1, 3072)))
    } else {
        Err(LoadError::Truncated)
    }
}

/// The batches decoded and joined in order, or the error of the first batch
/// that fails.
pub open spec fn batches_outcome(batches: Seq<Seq<u8>>) -> Result<
    (Seq<u8>, Seq<Seq<u8>>),
    LoadError,
>
    decreases batches.len(),
{
    if batches.len() == 0 {
        Ok((Seq::empty(), Seq::empty()))
    } else {
        match batches_outcome(batches.drop_last()) {
            Err(e) => Err(e),
            Ok((labels, images)) => match batch_outcome(batches.last()) {
                Err(e) => Err(e),
                Ok((l, im)) => Ok((labels + l, images + im)),
            },
        }
    }
}

/// A decoded split seen as sequences.
pub open spec fn view_split(r: Result<(Vec<u8>, Vec<Vec<u8>>), LoadError>) -> Result<
    (Seq<u8>, Seq<Seq<u8>>),
    LoadError,
> {
    match r {
        Ok((labels, images)) => Ok((labels@, images.deep_view())),
        Err(e) => Err(e),
    }
}

/// The whole dataset from the training batches and the test batch.
pub open spec fn cifar10_outcome(train: Seq<Seq<u8>>, test: Seq<u8>) -> Result<
    (Seq<u8>, Seq<Seq<u8>>, Seq<u8>, Seq<Seq<u8>>),
    LoadError,
> {
    match batches_outcome(train) {
        Err(e) => Err(e),
        Ok((train_labels, train_imgs)) => match batch_outcome(test) {
            Err(e) => Err(e),
            Ok((test_labels, test_imgs)) => Ok((train_labels, train_imgs, test_labels, test_imgs)),
        },
    }
}

/// A loaded dataset seen as its four sequences.
pub open spec fn view_cifar10(r: Result<CIFAR10, LoadError>) -> Result<
    (Seq<u8>, Seq<Seq<u8>>, Seq<u8>, Seq<Seq<u8>>),
    LoadError,
> {
    match r {
        Ok(c) => Ok(
            (c.train_labels@, c.train_imgs.deep_view(), c.test_labels@, c.test_imgs.deep_view()),
        ),
        Err(e) => Err(e),
    }
}

/// Once a prefix of the batches fails, the whole sequence fails the same way.
proof fn lemma_error_persists(batches: Seq<Seq<u8>>, i: int)
    requires
        0 <= i <= batches.len(),
        batches_outcome(batches.take(i)) is Err,
    ensures
        batches_outcome(batches) == batches_outcome(batches.take(i)),
    decreases batches.len(),
{
    if i == batches.len() {
        assert(batches.take(i) =~= batches);
    } else {
        assert(batches.drop_last().take(i) =~= batches.take(i));
        lemma_error_persists(batches.drop_last(), i);
    }
}

fn first_bytes(v: &Vec<Vec<u8>>) -> (r: Vec<u8>)
    requires
        forall|i: int| 0 <= i < v@.len() ==> (#[trigger] v@[i])@.len() >= 1,
    ensures
        r@.len() == v@.len(),
        forall|i: int| 0 <= i < v@.len() ==> #[trigger] r@[i] == v@[i]@[0],
{
    let mut r: Vec<u8> = Vec::new();
    let mut i: usize = 0;
    while i < v.len()
        invariant
            i <= v@.len(),
            r@.len() == i,
            forall|j: int| 0 <= j < v@.len() ==> (#[trigger] v@[j])@.len() >= 1,
            forall|j: int| 0 <= j < i ==> r@[j] == (#[trigger] v@[j])@[0],
        decreases v@.len() - i,
    {
        r.push(v[i][0]);
        i = i + 1;
    }
    r
}

impl CIFAR10Builder {
    /// The cache directory.
    pub closed spec fn home(&self) -> Seq<char> {
        self.data_home@
    }

    /// Whether a download is forced.
    pub closed spec fn forced(&self) -> bool {
        self.force_download
    }

    /// Whether progress is reported.
    pub closed spec fn is_verbose(&self) -> bool {
        self.verbose
    }

    /// Cache directory `CIFAR10`, no forced download, quiet.
    pub fn new() -> (r: CIFAR10Builder)
        ensures
            r.home() == "CIFAR10"@,
            !r.forced(),
            !r.is_verbose(),
    {
        CIFAR10Builder {
            data_home: String::from_str("CIFAR10"),
            force_download: false,
            verbose: false,
        }
    }

    /// Sets the cache directory.
    pub fn data_home(self, dh: &str) -> (r: CIFAR10Builder)
        ensures
            r.home() == dh@,
            r.forced() == self.forced(),
            r.is_verbose() == self.is_verbose(),
    {
        CIFAR10Builder { data_home: String::from_str(dh), ..self }
    }

    /// Downloads the archive again even when the batches are all cached.
    pub fn force_download(self) -> (r: CIFAR10Builder)
        ensures
            r.home() == self.home(),
            r.forced(),
            r.is_verbose() == self.is_verbose(),
    {
        CIFAR10Builder { force_download: true, ..self }
    }

    /// Reports progress while fetching and decoding.
    pub fn verbose(self) -> (r: CIFAR10Builder)
        ensures
            r.home() == self.home(),
            r.forced() == self.forced(),
            r.is_verbose(),
    {
        CIFAR10Builder { verbose: true, ..self }
    }

    /// The cache directory.
    pub fn get_data_home(&self) -> (r: &str)
        ensures
            r@ == self.home(),
    {
        self.data_home.as_str()
    }

    /// Whether a download is forced.
    pub fn is_forced(&self) -> (r: bool)
        ensures
            r == self.forced(),
    {
        self.force_download
    }

    /// Whether progress is reported.
    pub fn is_verbose_set(&self) -> (r: bool)
        ensures
            r == self.is_verbose(),
    {
        self.verbose
    }

    /// Path of `filename` in the cache directory.
    pub fn get_file_path(&self, filename: &str) -> (r: String)
        ensures
            r@ == join_path(self.home(), filename@),
    {
        join(self.data_home.as_str(), filename)
    }

    /// Paths of the six batch files in the cache, in the order of
    /// `cifar10_file_names`: the five training batches, then the test batch.
    pub fn file_paths(&self) -> (r: Vec<String>)
        ensures
            r@.len() == 6,
            forall|i: int|
                0 <= i < 6 ==> #[trigger] r@[i]@ == join_path(self.home(), cifar10_file_names()[i]),
    {
        let mut r: Vec<String> = Vec::new();
        r.push(self.get_file_path("cifar-10-batches-bin/data_batch_1.bin"));
        r.push(self.get_file_path("cifar-10-batches-bin/data_batch_2.bin"));
        r.push(self.get_file_path("cifar-10-batches-bin/data_batch_3.bin"));
        r.push(self.get_file_path("cifar-10-batches-bin/data_batch_4.bin"));
        r.push(self.get_file_path("cifar-10-batches-bin/data_batch_5.bin"));
        r.push(self.get_file_path("cifar-10-batches-bin/test_batch.bin"));
        r
    }

    /// Whether the dataset must be downloaded: `present[i]` tells whether the
    /// `i`-th path of `file_paths` is a regular file.
    pub fn redownload(&self, present: &Vec<bool>) -> (r: bool)
        ensures
            r == needs_download(self.forced(), present@),
    {
        needs_redownload(self.force_download, present)
    }

    /// Decodes one batch file: records of one class byte and 3072 pixel bytes.
    pub fn load_batch_file(&self, data: &Vec<u8>) -> (r: Result<(Vec<u8>, Vec<Vec<u8>>), LoadError>)
        ensures
            view_split(r) == batch_outcome(data@),
    {
        match decode_fixed_records(data, LABEL_WIDTH, PIXEL_WIDTH) {
            Ok(recs) => {
                let labels = first_bytes(&recs.labels);
                assert(labels@ =~= batch_labels(data@));
                Ok((labels, recs.images))
            },
            Err(e) => Err(e),
        }
    }

    /// Decodes the training batches in order and joins them; the first batch
    /// that fails ends the load.
    pub fn load_train_data(&self, batches: &Vec<Vec<u8>>) -> (r: Result<
        (Vec<u8>, Vec<Vec<u8>>),
        LoadError,
    >)
        ensures
            view_split(r) == batches_outcome(batches.deep_view()),
    {
        let ghost bs = batches.deep_view();
        let mut train_labels: Vec<u8> = Vec::new();
        let mut train_imgs: Vec<Vec<u8>> = Vec::new();
        let mut i: usize = 0;
        assert(bs.take(0) =~= Seq::<Seq<u8>>::empty());
        assert(train_imgs.deep_view() =~= Seq::<Seq<u8>>::empty());
        while i < batches.len()
            invariant
                bs == batches.deep_view(),
                i <= batches@.len(),
                batches_outcome(bs.take(i as int)) == Ok::<(Seq<u8>, Seq<Seq<u8>>), LoadError>(
                    (train_labels@, train_imgs.deep_view()),
                ),
            decreases batches@.len() - i,
        {
            assert(bs.take(i + 1).drop_last() =~= bs.take(i as int));
            assert(bs[i as int] == batches@[i as int]@);
            match self.load_batch_file(&batches[i]) {
                Ok((labels, imgs)) => {
                    let mut labels = labels;
                    let mut imgs = imgs;
                    let ghost old_imgs = train_imgs.deep_view();
                    let ghost new_imgs = imgs.deep_view();
                    train_labels.append(&mut labels);
                    train_imgs.append(&mut imgs);
                    assert(train_imgs.deep_view() =~= old_imgs + new_imgs);
                },
                Err(e) => {
                    proof {
                        lemma_error_persists(bs, i + 1);
                    }
                    return Err(e);
                },
            }
            i = i + 1;
        }
        assert(bs.take(i as int) =~= bs);
        Ok((train_labels, train_imgs))
    }

    /// Decodes the test batch.
    pub fn load_test_data(&self, batch: &Vec<u8>) -> (r: Result<(Vec<u8>, Vec<Vec<u8>>), LoadError>)
        ensures
            view_split(r) == batch_outcome(batch@),
    {
        self.load_batch_file(batch)
    }

    /// Decodes the training batches and the test batch into the dataset; the
    /// first error met ends the load and no partial dataset is returned.
    pub fn load_data(&self, train_batches: &Vec<Vec<u8>>, test_batch: &Vec<u8>) -> (r: Result<
        CIFAR10,
        LoadError,
    >)
        ensures
            view_cifar10(r) == cifar10_outcome(train_batches.deep_view(), test_batch@),
    {
        let (train_labels, train_imgs) = match self.load_train_data(train_batches) {
            Ok(split) => split,
            Err(e) => return Err(e),
        };
        let (test_labels, test_imgs) = match self.load_test_data(test_batch) {
            Ok(split) => split,
            Err(e) => return Err(e),
        };
        Ok(CIFAR10 { train_labels, train_imgs, test_labels, test_imgs })
    }
}

} // verus!
