use vision::cache::{join, needs_redownload};
use vision::cifar10::CIFAR10Builder;
use vision::cifar100::CIFAR100Builder;
use vision::mnist::MNISTBuilder;
use vision::testtools::get_tmp_dir;

#[test]
fn forced_download_always_needed() {
    assert!(needs_redownload(true, &vec![true, true, true, true]));
    assert!(needs_redownload(true, &vec![]));
}

#[test]
fn one_missing_file_is_enough() {
    assert!(needs_redownload(false, &vec![true, false, true, true]));
    assert!(needs_redownload(false, &vec![true, true, true, false]));
    assert!(!needs_redownload(false, &vec![true, true, true, true]));
}

#[test]
fn builder_redownload() {
    let b = MNISTBuilder::new();
    assert!(!b.redownload(&vec![true; 4]));
    assert!(b.redownload(&vec![false, true, true, true]));
    let b = b.force_download();
    assert!(b.redownload(&vec![true; 4]));
    let c = CIFAR10Builder::new();
    assert!(!c.redownload(&vec![true; 6]));
    assert!(c.force_download().redownload(&vec![true; 6]));
    let c = CIFAR100Builder::new();
    assert!(c.redownload(&vec![true, false]));
}

#[test]
fn joined_paths() {
    assert_eq!(join("MNIST", "a.gz"), "MNIST/a.gz");
    assert_eq!(join("data/", "a.gz"), "data/a.gz");
    assert_eq!(join("", "a.gz"), "a.gz");
    assert_eq!(get_tmp_dir("MNIST"), "tmp/MNIST");
}

#[test]
fn builder_defaults_and_settings() {
    let b = MNISTBuilder::new();
    assert_eq!(b.get_data_home(), "MNIST");
    assert!(!b.is_forced() && !b.is_verbose_set());
    let b = b.data_home("cache").verbose();
    assert_eq!(b.get_data_home(), "cache");
    assert!(b.is_verbose_set() && !b.is_forced());
    assert_eq!(b.get_file_path("train-labels-idx1-ubyte.gz"), "cache/train-labels-idx1-ubyte.gz");
    let c = CIFAR10Builder::new();
    assert_eq!(c.get_data_home(), "CIFAR10");
    let c = c.force_download();
    assert!(c.is_forced() && !c.is_verbose_set());
    let d = CIFAR100Builder::new().data_home("x").verbose().force_download();
    assert_eq!(d.get_data_home(), "x");
    assert!(d.is_forced() && d.is_verbose_set());
}

#[test]
fn cache_layout() {
    let paths = MNISTBuilder::new().file_paths();
    assert_eq!(paths, vec![
        "MNIST/train-labels-idx1-ubyte.gz",
        "MNIST/train-images-idx3-ubyte.gz",
        "MNIST/t10k-labels-idx1-ubyte.gz",
        "MNIST/t10k-images-idx3-ubyte.gz",
    ]);
    let paths = CIFAR10Builder::new().file_paths();
    assert_eq!(paths[0], "CIFAR10/cifar-10-batches-bin/data_batch_1.bin");
    assert_eq!(paths[5], "CIFAR10/cifar-10-batches-bin/test_batch.bin");
    let paths = CIFAR100Builder::new().data_home("d").file_paths();
    assert_eq!(paths, vec!["d/cifar-100-binary/train.bin", "d/cifar-100-binary/test.bin"]);
}
