use vstd::prelude::*;
use vstd::string::*;

use crate::cache::{join, join_path, needs_download, needs_redownload};
use crate::error::LoadError;
use crate::idx::{
    decode_idx_images, decode_idx_labels, image_outcome, label_outcome, view_images, view_labels,
};
use crate::wire::{gunzip, gunzip_of};

verus! {

/// The MNIST training and test splits: one label byte and one 784-byte image
/// per sample.
pub struct MNIST {
    pub train_labels: Vec<u8>,
    pub train_imgs: Vec<Vec<u8>>,
    pub test_labels: Vec<u8>,
    pub test_imgs: Vec<Vec<u8>>,
}

/// Where and how MNIST is fetched: the cache directory, whether to download
/// again even when the files are there, and whether to report progress.
pub struct MNISTBuilder {
    data_home: String,
    force_download: bool,
    verbose: bool,
}

/// Relative names of the four gzip files, in the order train labels, train
/// images, test labels, test images.
pub open spec fn mnist_file_names() -> Seq<Seq<char>> {
    seq![
        "train-labels-idx1-ubyte.gz"@,
        "train-images-idx3-ubyte.gz"@,
        "t10k-labels-idx1-ubyte.gz"@,
        "t10k-images-idx3-ubyte.gz"@,
    ]
}

/// Labels decoded from a gzip-compressed IDX label file.
pub open spec fn gz_label_outcome(archive: Seq<u8>) -> Result<(Seq<u32>, Seq<u8>), LoadError> {
    match gunzip_of(archive) {
        Some(raw) => label_outcome(raw),
        None => Err(LoadError::Decompression),
    }
}

/// Images decoded from a gzip-compressed IDX image file.
pub open spec fn gz_image_outcome(archive: Seq<u8>) -> Result<
    (Seq<u32>, Seq<Seq<u8>>),
    LoadError,
> {
    match gunzip_of(archive) {
        Some(raw) => image_outcome(raw),
        None => Err(LoadError::Decompression),
    }
}

/// The four decoded sequences, or the first error met decoding the train
/// labels, train images, test labels and test images in that order.
pub open spec fn mnist_outcome(
    train_labels_gz: Seq<u8>,
    train_images_gz: Seq<u8>,
    test_labels_gz: Seq<u8>,
    test_images_gz: Seq<u8>,
) -> Result<(Seq<u8>, Seq<Seq<u8>>, Seq<u8>, Seq<Seq<u8>>), LoadError> {
    match gz_label_outcome(train_labels_gz) {
        Err(e) => Err(e),
        Ok((_, train_labels)) => match gz_image_outcome(train_images_gz) {
            Err(e) => Err(e),
            Ok((_, train_imgs)) => match gz_label_outcome(test_labels_gz) {
                Err(e) => Err(e),
                Ok((_, test_labels)) => match gz_image_outcome(test_images_gz) {
                    Err(e) => Err(e),
                    Ok((_, test_imgs)) => Ok((train_labels, train_imgs, test_labels, test_imgs)),
                },
            },
        },
    }
}

/// A loaded dataset seen as its four sequences.
pub open spec fn view_mnist(r: Result<MNIST, LoadError>) -> Result<
    (Seq<u8>, Seq<Seq<u8>>, Seq<u8>, Seq<Seq<u8>>),
    LoadError,
> {
    match r {
        Ok(m) => Ok(
            (m.train_labels@, m.train_imgs.deep_view(), m.test_labels@, m.test_imgs.deep_view()),
        ),
        Err(e) => Err(e),
    }
}

impl MNISTBuilder {
    /// The cache directory.
    pub closed spec fn home(&self) -> Seq<char> {
        self.data_home@
    }

    /// Whether a download is forced.
    pub closed spec fn forced(&self) -> bool {
        self.force_download
    }

    /// Whether progress is reported.
    pub closed spec fn is_verbose(&self) -> bool {
        self.verbose
    }

    /// Cache directory `MNIST`, no forced download, quiet.
    pub fn new() -> (r: MNISTBuilder)
        ensures
            r.home() == "MNIST"@,
            !r.forced(),
            !r.is_verbose(),
    {
        MNISTBuilder { data_home: String::from_str("MNIST"), force_download: false, verbose: false }
    }

    /// Sets the cache directory.
    pub fn data_home(self, dh: &str) -> (r: MNISTBuilder)
        ensures
            r.home() == dh@,
            r.forced() == self.forced(),
            r.is_verbose() == self.is_verbose(),
    {
        MNISTBuilder { data_home: String::from_str(dh), ..self }
    }

    /// Downloads the files again even when they are all cached.
    pub fn force_download(self) -> (r: MNISTBuilder)
        ensures
            r.home() == self.home(),
            r.forced(),
            r.is_verbose() == self.is_verbose(),
    {
        MNISTBuilder { force_download: true, ..self }
    }

    /// Reports progress while fetching and decoding.
    pub fn verbose(self) -> (r: MNISTBuilder)
        ensures
            r.home() == self.home(),
            r.forced() == self.forced(),
            r.is_verbose(),
    {
        MNISTBuilder { verbose: true, ..self }
    }

    /// The cache directory.
    pub fn get_data_home(&self) -> (r: &str)
        ensures
            r@ == self.home(),
    {
        self.data_home.as_str()
    }

    /// Whether a download is forced.
    pub fn is_forced(&self) -> (r: bool)
        ensures
            r == self.forced(),
    {
        self.force_download
    }

    /// Whether progress is reported.
    pub fn is_verbose_set(&self) -> (r: bool)
        ensures
            r == self.is_verbose(),
    {
        self.verbose
    }

    /// Path of `filename` in the cache directory.
    pub fn get_file_path(&self, filename: &str) -> (r: String)
        ensures
            r@ == join_path(self.home(), filename@),
    {
        join(self.data_home.as_str(), filename)
    }

    /// Paths of the four files that make up the dataset in the cache, in the
    /// order of `mnist_file_names`.
    pub fn file_paths(&self) -> (r: Vec<String>)
        ensures
            r@.len() == 4,
            forall|i: int|
                0 <= i < 4 ==> #[trigger] r@[i]@ == join_path(self.home(), mnist_file_names()[i]),
    {
        let mut r: Vec<String> = Vec::new();
        r.push(self.get_file_path("train-labels-idx1-ubyte.gz"));
        r.push(self.get_file_path("train-images-idx3-ubyte.gz"));
        r.push(self.get_file_path("t10k-labels-idx1-ubyte.gz"));
        r.push(self.get_file_path("t10k-images-idx3-ubyte.gz"));
        r
    }

    /// Whether the dataset must be downloaded: `present[i]` tells whether the
    /// `i`-th path of `file_paths` is a regular file.
    pub fn redownload(&self, present: &Vec<bool>) -> (r: bool)
        ensures
            r == needs_download(self.forced(), present@),
    {
        needs_redownload(self.force_download, present)
    }

    /// Decompresses a gzip IDX label file and decodes it.
    pub fn extract_labels(&self, archive: &Vec<u8>) -> (r: Result<([u32; 2], Vec<u8>), LoadError>)
        ensures
            view_labels(r) == gz_label_outcome(archive@),
    {
        match gunzip(archive) {
            Ok(raw) => decode_idx_labels(&raw),
            Err(_) => Err(LoadError::Decompression),
        }
    }

    /// Decompresses a gzip IDX image file and decodes it.
    pub fn extract_images(&self, archive: &Vec<u8>) -> (r: Result<
        ([u32; 4], Vec<Vec<u8>>),
        LoadError,
    >)
        ensures
            view_images(r) == gz_image_outcome(archive@),
    {
        match gunzip(archive) {
            Ok(raw) => decode_idx_images(&raw),
            Err(_) => Err(LoadError::Decompression),
        }
    }

    /// Decodes the four cached gzip files into the dataset; the first error
    /// met ends the load and no partial dataset is returned.
    pub fn load_data(
        &self,
        train_labels_gz: &Vec<u8>,
        train_images_gz: &Vec<u8>,
        test_labels_gz: &Vec<u8>,
        test_images_gz: &Vec<u8>,
    ) -> (r: Result<MNIST, LoadError>)
        ensures
            view_mnist(r) == mnist_outcome(
                train_labels_gz@,
                train_images_gz@,
                test_labels_gz@,
                test_images_gz@,
            ),
    {
        let train_labels = match self.extract_labels(train_labels_gz) {
            Ok((_, labels)) => labels,
            Err(e) => return Err(e),
        };
        let train_imgs = match self.extract_images(train_images_gz) {
            Ok((_, imgs)) => imgs,
            Err(e) => return Err(e),
        };
        let test_labels = match self.extract_labels(test_labels_gz) {
            Ok((_, labels)) => labels,
            Err(e) => return Err(e),
        };
        let test_imgs = match self.extract_images(test_images_gz) {
            Ok((_, imgs)) => imgs,
            Err(e) => return Err(e),
        };
        Ok(MNIST { train_labels, train_imgs, test_labels, test_imgs })
    }
}

} // verus!
