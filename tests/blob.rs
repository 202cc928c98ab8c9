use freta::blob::{block_count, block_id, block_size, BlockUpload, UploadStep, MAX_BLOCKS, MIN_BLOCK_SIZE};

#[test]
fn one_gib_file_block_plan() {
    let size: u64 = 1 << 30;
    let bs = block_size(size);
    assert!(bs >= 10 * 1024 * 1024);
    assert_eq!(bs, MIN_BLOCK_SIZE);
    let count = block_count(size, bs);
    assert!(count <= MAX_BLOCKS);
    assert_eq!(count, 103);
}

#[test]
fn very_large_file_uses_larger_blocks() {
    let size: u64 = 2_000_000 * 1024 * 1024;
    let bs = block_size(size);
    assert_eq!(bs, size / 50_000);
    assert_eq!(block_count(size, bs), 50_000);
    assert_eq!(block_count(0, bs), 0);
    assert_eq!(block_count(10, 3), 4);
}

#[test]
fn sizes_just_past_the_limit_round_the_block_size_up() {
    let size: u64 = 50_000 * 20_971_520 + 1;
    let bs = block_size(size);
    assert_eq!(bs, 20_971_521);
    assert_eq!(block_count(size, bs), 50_000);
    let largest = block_size(u64::MAX);
    assert!(block_count(u64::MAX, largest) <= MAX_BLOCKS);
}

#[test]
fn block_ids_are_zero_padded_hex() {
    assert_eq!(block_id(0), "00000000000000000000000000000000");
    assert_eq!(block_id(255), "000000000000000000000000000000ff");
    assert_eq!(block_id(u64::MAX), "0000000000000000ffffffffffffffff");
}

#[test]
fn upload_then_download_round_trip() {
    let len: usize = 25 * 1024 * 1024 + 17;
    let data: Vec<u8> = (0..len).map(|i| (i * 31 % 251) as u8).collect();
    let mut upload = BlockUpload::new(data.len() as u64).ok().unwrap();
    let bs = upload.block_size() as usize;
    let mut staged: Vec<(String, Vec<u8>)> = vec![];
    let mut offset = 0;
    let committed = loop {
        let end = std::cmp::min(offset + bs, data.len());
        let block = data[offset..end].to_vec();
        match upload.on_read(block.len() as u64) {
            UploadStep::PutBlock(id) => staged.push((id, block)),
            UploadStep::Commit(ids) => break ids,
        }
        offset = end;
    };
    assert_eq!(committed.len(), 3);
    let mut blob = vec![];
    for id in &committed {
        let (_, bytes) = staged.iter().find(|(s, _)| s == id).unwrap();
        blob.extend_from_slice(bytes);
    }
    assert_eq!(blob, data);
}
