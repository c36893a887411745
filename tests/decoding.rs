use std::io::Write;

use vision::cifar10::CIFAR10Builder;
use vision::cifar100::CIFAR100Builder;
use vision::error::LoadError;
use vision::idx::{decode_idx_images, decode_idx_labels};
use vision::mnist::MNISTBuilder;
use vision::records::decode_fixed_records;

fn be(v: u32) -> Vec<u8> {
    v.to_be_bytes().to_vec()
}

fn gzip(data: &[u8]) -> Vec<u8> {
    let mut enc = flate2::write::GzEncoder::new(Vec::new(), flate2::Compression::default());
    enc.write_all(data).unwrap();
    enc.finish().unwrap()
}

fn label_file(magic: u32, payload: &[u8]) -> Vec<u8> {
    let mut data = be(magic);
    data.extend(be(payload.len() as u32));
    data.extend_from_slice(payload);
    data
}

fn image_file(magic: u32, count: u32, rows: u32, cols: u32, payload: &[u8]) -> Vec<u8> {
    let mut data = be(magic);
    data.extend(be(count));
    data.extend(be(rows));
    data.extend(be(cols));
    data.extend_from_slice(payload);
    data
}

#[test]
fn idx_labels_scenario() {
    let data = label_file(0x0000_0801, &[5, 0, 4]);
    let (header, labels) = decode_idx_labels(&data).unwrap();
    assert_eq!(header, [2049, 3]);
    assert_eq!(labels, vec![5, 0, 4]);
}

#[test]
fn idx_labels_count_equals_payload() {
    let payload: Vec<u8> = (0..10).collect();
    let data = label_file(2049, &payload);
    let (_, labels) = decode_idx_labels(&data).unwrap();
    assert_eq!(labels.len(), 10);
    assert_eq!(labels, payload);
}

#[test]
fn idx_labels_empty_payload() {
    let data = label_file(2049, &[]);
    let (header, labels) = decode_idx_labels(&data).unwrap();
    assert_eq!(header, [2049, 0]);
    assert!(labels.is_empty());
}

#[test]
fn idx_labels_wrong_magic() {
    for magic in [0u32, 2048, 2050, 2051, 0x0108_0000] {
        let data = label_file(magic, &[5, 0, 4]);
        assert_eq!(decode_idx_labels(&data), Err(LoadError::DataIntegrity));
    }
}

#[test]
fn idx_labels_short_header() {
    assert_eq!(decode_idx_labels(&vec![0, 0, 8, 1, 0, 0, 0]), Err(LoadError::Truncated));
    assert_eq!(decode_idx_labels(&vec![]), Err(LoadError::Truncated));
}

#[test]
fn idx_images_two_of_28_by_28() {
    let mut payload = vec![1u8; 784];
    payload.extend(vec![2u8; 784]);
    let data = image_file(2051, 2, 28, 28, &payload);
    let (header, images) = decode_idx_images(&data).unwrap();
    assert_eq!(header, [2051, 2, 28, 28]);
    assert_eq!(images.len(), 2);
    assert_eq!(images[0], vec![1u8; 784]);
    assert_eq!(images[1], vec![2u8; 784]);
}

#[test]
fn idx_images_drop_partial_tail() {
    let payload: Vec<u8> = (0..14).collect();
    let data = image_file(2051, 3, 2, 3, &payload);
    let (_, images) = decode_idx_images(&data).unwrap();
    assert_eq!(images, vec![vec![0, 1, 2, 3, 4, 5], vec![6, 7, 8, 9, 10, 11]]);
}

#[test]
fn idx_images_zero_size() {
    let data = image_file(2051, 0, 0, 28, &[1, 2, 3]);
    let (_, images) = decode_idx_images(&data).unwrap();
    assert!(images.is_empty());
}

#[test]
fn idx_images_wrong_magic_and_short() {
    let data = image_file(2049, 1, 1, 1, &[7]);
    assert_eq!(decode_idx_images(&data), Err(LoadError::DataIntegrity));
    let short = image_file(2051, 1, 1, 1, &[])[..15].to_vec();
    assert_eq!(decode_idx_images(&short), Err(LoadError::Truncated));
}

#[test]
fn mnist_extract_from_gzip() {
    let builder = MNISTBuilder::new();
    let gz = gzip(&label_file(2049, &[5, 0, 4]));
    assert_ne!(gz, label_file(2049, &[5, 0, 4]));
    let (header, labels) = builder.extract_labels(&gz).unwrap();
    assert_eq!(header, [2049, 3]);
    assert_eq!(labels, vec![5, 0, 4]);
    let gz = gzip(&image_file(2051, 2, 1, 2, &[1, 2, 3, 4]));
    let (header, images) = builder.extract_images(&gz).unwrap();
    assert_eq!(header, [2051, 2, 1, 2]);
    assert_eq!(images, vec![vec![1, 2], vec![3, 4]]);
}

#[test]
fn mnist_extract_not_gzip() {
    let builder = MNISTBuilder::new();
    let raw = label_file(2049, &[5, 0, 4]);
    assert_eq!(builder.extract_labels(&raw), Err(LoadError::Decompression));
    let gz = gzip(&raw);
    assert_eq!(builder.extract_labels(&gz[..gz.len() - 10].to_vec()), Err(LoadError::Decompression));
}

#[test]
fn mnist_extract_corrupt_magic() {
    let builder = MNISTBuilder::new();
    let gz = gzip(&image_file(2049, 1, 1, 1, &[1]));
    assert_eq!(builder.extract_images(&gz).err(), Some(LoadError::DataIntegrity));
}

#[test]
fn mnist_load_data() {
    let builder = MNISTBuilder::new();
    let train_labels = gzip(&label_file(2049, &[1, 2]));
    let train_images = gzip(&image_file(2051, 2, 1, 1, &[10, 20]));
    let test_labels = gzip(&label_file(2049, &[3]));
    let test_images = gzip(&image_file(2051, 1, 1, 1, &[30]));
    let m = builder.load_data(&train_labels, &train_images, &test_labels, &test_images).unwrap();
    assert_eq!(m.train_labels, vec![1, 2]);
    assert_eq!(m.train_imgs, vec![vec![10], vec![20]]);
    assert_eq!(m.test_labels, vec![3]);
    assert_eq!(m.test_imgs, vec![vec![30]]);
    let bad = gzip(&label_file(7, &[3]));
    let r = builder.load_data(&train_labels, &train_images, &bad, &test_images);
    assert_eq!(r.err(), Some(LoadError::DataIntegrity));
}

#[test]
fn fixed_records_cifar10_scenario() {
    let data = vec![9, 1, 2, 3, 4, 3, 5, 6, 7, 8];
    let recs = decode_fixed_records(&data, 1, 4).unwrap();
    assert_eq!(recs.labels, vec![vec![9], vec![3]]);
    assert_eq!(recs.images, vec![vec![1, 2, 3, 4], vec![5, 6, 7, 8]]);
}

#[test]
fn fixed_records_cifar100_scenario() {
    let data = vec![7, 2, 1, 1, 1, 1];
    let recs = decode_fixed_records(&data, 2, 4).unwrap();
    assert_eq!(recs.labels, vec![vec![7, 2]]);
    assert_eq!(recs.images, vec![vec![1, 1, 1, 1]]);
}

#[test]
fn fixed_records_whole_and_truncated() {
    let data: Vec<u8> = (0..15).collect();
    let recs = decode_fixed_records(&data, 1, 4).unwrap();
    assert_eq!(recs.labels.len(), 3);
    assert_eq!(recs.images.len(), 3);
    let short = data[..14].to_vec();
    assert_eq!(decode_fixed_records(&short, 1, 4).err(), Some(LoadError::Truncated));
    let empty: Vec<u8> = vec![];
    let recs = decode_fixed_records(&empty, 2, 4).unwrap();
    assert!(recs.labels.is_empty() && recs.images.is_empty());
}

fn cifar10_record(label: u8, fill: u8) -> Vec<u8> {
    let mut r = vec![label];
    r.extend(vec![fill; 3072]);
    r
}

#[test]
fn cifar10_batch_file() {
    let builder = CIFAR10Builder::new();
    let mut data = cifar10_record(9, 1);
    data.extend(cifar10_record(3, 2));
    let (labels, images) = builder.load_batch_file(&data).unwrap();
    assert_eq!(labels, vec![9, 3]);
    assert_eq!(images, vec![vec![1u8; 3072], vec![2u8; 3072]]);
    data.pop();
    assert_eq!(builder.load_batch_file(&data).err(), Some(LoadError::Truncated));
}

#[test]
fn cifar10_train_batches_joined() {
    let builder = CIFAR10Builder::new();
    let b1 = cifar10_record(1, 10);
    let mut b2 = cifar10_record(2, 20);
    b2.extend(cifar10_record(3, 30));
    let (labels, images) = builder.load_train_data(&vec![b1.clone(), b2.clone()]).unwrap();
    assert_eq!(labels, vec![1, 2, 3]);
    assert_eq!(images.len(), 3);
    assert_eq!(images[2], vec![30u8; 3072]);
    let mut bad = b2.clone();
    bad.push(0);
    assert_eq!(builder.load_train_data(&vec![b1.clone(), bad]).err(), Some(LoadError::Truncated));
    let (labels, images) = builder.load_train_data(&vec![]).unwrap();
    assert!(labels.is_empty() && images.is_empty());
    let test = cifar10_record(4, 40);
    let (labels, _) = builder.load_test_data(&test).unwrap();
    assert_eq!(labels, vec![4]);
    let c = builder.load_data(&vec![b1, b2], &test).unwrap();
    assert_eq!(c.train_labels, vec![1, 2, 3]);
    assert_eq!(c.test_labels, vec![4]);
    assert_eq!(c.test_imgs, vec![vec![40u8; 3072]]);
}

#[test]
fn cifar100_batch_file() {
    let builder = CIFAR100Builder::new();
    let mut data = vec![7, 2];
    data.extend(vec![1u8; 3072]);
    let (labels, images) = builder.load_batch_file(&data).unwrap();
    assert_eq!(labels, vec![(7, 2)]);
    assert_eq!(images, vec![vec![1u8; 3072]]);
    let (labels, _) = builder.load_train_data(&data).unwrap();
    assert_eq!(labels, vec![(7, 2)]);
    let c = builder.load_data(&data, &data).unwrap();
    assert_eq!(c.test_labels, vec![(7, 2)]);
    assert_eq!(c.train_imgs.len(), 1);
    data.pop();
    assert_eq!(builder.load_test_data(&data).err(), Some(LoadError::Truncated));
}
