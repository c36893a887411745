use vstd::prelude::*;
use vstd::string::*;

use crate::cache::{join, join_path, needs_download, needs_redownload};
use crate::error::LoadError;
use crate::records::{decode_fixed_records, record_count, record_images, record_label, whole_records};

verus! {

/// Label bytes at the start of each CIFAR-100 record: coarse class, then fine class.
pub const LABEL_WIDTH: usize = 2;

/// Pixel bytes of each CIFAR-100 record: 32 by 32 pixels, three channels.
pub const PIXEL_WIDTH: usize = 3072;

/// The CIFAR-100 training and test splits: a (coarse, fine) class pair and
/// one 3072-byte image per sample.
pub struct CIFAR100 {
    pub train_labels: Vec<(u8, u8)>,
    pub train_imgs: Vec<Vec<u8>>,
    pub test_labels: Vec<(u8, u8)>,
    pub test_imgs: Vec<Vec<u8>>,
}

/// Where and how CIFAR-100 is fetched: the cache directory, whether to
/// download again even when the files are there, and whether to report progress.
pub struct CIFAR100Builder {
    data_home: String,
    force_download: bool,
    verbose: bool,
}

/// Relative names of the training file and the test file.
pub open spec fn cifar100_file_names() -> Seq<Seq<char>> {
    seq!["cifar-100-binary/train.bin"@, "cifar-100-binary/test.bin"@]
}

/// The (coarse, fine) pair of every whole record of a file.
pub open spec fn pair_labels(data: Seq<u8>) -> Seq<(u8, u8)> {
    Seq::new(
        record_count(data, 2, 3072) as nat,
        |i: int| (record_label(data, 2, 3072, i)[0], record_label(data, 2, 3072, i)[1]),
    )
}

/// What decoding one file gives.
pub open spec fn pair_outcome(data: Seq<u8>) -> Result<(Seq<(u8, u8)>, Seq<Seq<u8>>), LoadError> {
    if whole_records(data, 2, 3072) {
        Ok((pair_labels(data), record_images(data, 2, 3072)))
    } else {
        Err(LoadError::Truncated)
    }
}

/// A decoded split seen as sequences.
pub open spec fn view_pairs(r: Result<(Vec<(u8, u8)>, Vec<Vec<u8>>), LoadError>) -> Result<
    (Seq<(u8, u8)>, Seq<Seq<u8>>),
    LoadError,
> {
    match r {
        Ok((labels, images)) => Ok((labels@, images.deep_view())),
        Err(e) => Err(e),
    }
}

/// The whole dataset from the training file and the test file.
pub open spec fn cifar100_outcome(train: Seq<u8>, test: Seq<u8>) -> Result<
    (Seq<(u8, u8)>, Seq<Seq<u8>>, Seq<(u8, u8)>, Seq<Seq<u8>>),
    LoadError,
> {
    match pair_outcome(train) {
        Err(e) => Err(e),
        Ok((train_labels, train_imgs)) => match pair_outcome(test) {
            Err(e) => Err(e),
            Ok((test_labels, test_imgs)) => Ok((train_labels, train_imgs, test_labels, test_imgs)),
        },
    }
}

/// A loaded dataset seen as its four sequences.
pub open spec fn view_cifar100(r: Result<CIFAR100, LoadError>) -> Result<
    (Seq<(u8, u8)>, Seq<Seq<u8>>, Seq<(u8, u8)>, Seq<Seq<u8>>),
    LoadError,
> {
    match r {
        Ok(c) => Ok(
            (c.train_labels@, c.train_imgs.deep_view(), c.test_labels@, c.test_imgs.deep_view()),
        ),
        Err(e) => Err(e),
    }
}

fn first_pairs(v: &Vec<Vec<u8>>) -> (r: Vec<(u8, u8)>)
    requires
        forall|i: int| 0 <= i < v@.len() ==> (#[trigger] v@[i])@.len() >= 2,
    ensures
        r@.len() == v@.len(),
        forall|i: int| 0 <= i < v@.len() ==> #[trigger] r@[i] == (v@[i]@[0], v@[i]@[1]),
{
    let mut r: Vec<(u8, u8)> = Vec::new();
    let mut i: usize = 0;
    while i < v.len()
        invariant
            i <= v@.len(),
            r@.len() == i,
            forall|j: int| 0 <= j < v@.len() ==> (#[trigger] v@[j])@.len() >= 2,
            forall|j: int| 0 <= j < i ==> #[trigger] r@[j] == (v@[j]@[0], v@[j]@[1]),
        decreases v@.len() - i,
    {
        r.push((v[i][0], v[i][1]));
        i = i + 1;
    }
    r
}

impl CIFAR100Builder {
    /// The cache directory.
    pub closed spec fn home(&self) -> Seq<char> {
        self.data_home@
    }

    /// Whether a download is forced.
    pub closed spec fn forced(&self) -> bool {
        self.force_download
    }

    /// Whether progress is reported.
    pub closed spec fn is_verbose(&self) -> bool {
        self.verbose
    }

    /// Cache directory `CIFAR100`, no forced download, quiet.
    pub fn new() -> (r: CIFAR100Builder)
        ensures
            r.home() == "CIFAR100"@,
            !r.forced(),
            !r.is_verbose(),
    {
        CIFAR100Builder {
            data_home: String::from_str("CIFAR100"),
            force_download: false,
            verbose: false,
        }
    }

    /// Sets the cache directory.
    pub fn data_home(self, dh: &str) -> (r: CIFAR100Builder)
        ensures
            r.home() == dh@,
            r.forced() == self.forced(),
            r.is_verbose() == self.is_verbose(),
    {
        CIFAR100Builder { data_home: String::from_str(dh), ..self }
    }

    /// Downloads the archive again even when the files are cached.
    pub fn force_download(self) -> (r: CIFAR100Builder)
        ensures
            r.home() == self.home(),
            r.forced(),
            r.is_verbose() == self.is_verbose(),
    {
        CIFAR100Builder { force_download: true, ..self }
    }

    /// Reports progress while fetching and decoding.
    pub fn verbose(self) -> (r: CIFAR100Builder)
        ensures
            r.home() == self.home(),
            r.forced() == self.forced(),
            r.is_verbose(),
    {
        CIFAR100Builder { verbose: true, ..self }
    }

    /// The cache directory.
    pub fn get_data_home(&self) -> (r: &str)
        ensures
            r@ == self.home(),
    {
        self.data_home.as_str()
    }

    /// Whether a download is forced.
    pub fn is_forced(&self) -> (r: bool)
        ensures
            r == self.forced(),
    {
        self.force_download
    }

    /// Whether progress is reported.
    pub fn is_verbose_set(&self) -> (r: bool)
        ensures
            r == self.is_verbose(),
    {
        self.verbose
    }

    /// Path of `filename` in the cache directory.
    pub fn get_file_path(&self, filename: &str) -> (r: String)
        ensures
            r@ == join_path(self.home(), filename@),
    {
        join(self.data_home.as_str(), filename)
    }

    /// Paths of the training and test files in the cache, in the order of
    /// `cifar100_file_names`.
    pub fn file_paths(&self) -> (r: Vec<String>)
        ensures
            r@.len() == 2,
            forall|i: int|
                0 <= i < 2 ==> #[trigger] r@[i]@ == join_path(self.home(), cifar100_file_names()[i]),
    {
        let mut r: Vec<String> = Vec::new();
        r.push(self.get_file_path("cifar-100-binary/train.bin"));
        r.push(self.get_file_path("cifar-100-binary/test.bin"));
        r
    }

    /// Whether the dataset must be downloaded: `present[i]` tells whether the
    /// `i`-th path of `file_paths` is a regular file.
    pub fn redownload(&self, present: &Vec<bool>) -> (r: bool)
        ensures
            r == needs_download(self.forced(), present@),
    {
        needs_redownload(self.force_download, present)
    }

    /// Decodes one file: records of a coarse and a fine class byte and 3072
    /// pixel bytes.
    pub fn load_batch_file(&self, data: &Vec<u8>) -> (r: Result<
        (Vec<(u8, u8)>, Vec<Vec<u8>>),
        LoadError,
    >)
        ensures
            view_pairs(r) == pair_outcome(data@),
    {
        match decode_fixed_records(data, LABEL_WIDTH, PIXEL_WIDTH) {
            Ok(recs) => {
                let labels = first_pairs(&recs.labels);
                assert(labels@ =~= pair_labels(data@));
                Ok((labels, recs.images))
            },
            Err(e) => Err(e),
        }
    }

    /// Decodes the training file.
    pub fn load_train_data(&self, data: &Vec<u8>) -> (r: Result<
        (Vec<(u8, u8)>, Vec<Vec<u8>>),
        LoadError,
    >)
        ensures
            view_pairs(r) == pair_outcome(data@),
    {
        self.load_batch_file(data)
    }

    /// Decodes the test file.
    pub fn load_test_data(&self, data: &Vec<u8>) -> (r: Result<
        (Vec<(u8, u8)>, Vec<Vec<u8>>),
        LoadError,
    >)
        ensures
            view_pairs(r) == pair_outcome(data@),
    {
        self.load_batch_file(data)
    }

    /// Decodes the training and test files into the dataset; the first error
    /// met ends the load and no partial dataset is returned.
    pub fn load_data(&self, train: &Vec<u8>, test: &Vec<u8>) -> (r: Result<CIFAR100, LoadError>)
        ensures
            view_cifar100(r) == cifar100_outcome(train@, test@),
    {
        let (train_labels, train_imgs) = match self.load_train_data(train) {
            Ok(split) => split,
            Err(e) => return Err(e),
        };
        let (test_labels, test_imgs) = match self.load_test_data(test) {
            Ok(split) => split,
            Err(e) => return Err(e),
        };
        Ok(CIFAR100 { train_labels, train_imgs, test_labels, test_imgs })
    }
}

} // verus!
