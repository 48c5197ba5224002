use adm_sdk::error::Error;
use adm_sdk::machine::content::{generate_cid, CidBuilder};
use unixfs_v1::file::adder::{Chunker, FileAdder};

fn reference_cid(content: &[u8], chunk_size: usize) -> Vec<u8> {
    let mut adder = FileAdder::builder().with_chunker(Chunker::Size(chunk_size)).build();
    let mut last = None;
    let mut offset = 0;
    while offset < content.len() {
        let (blocks, written) = adder.push(&content[offset..]);
        for (cid, _) in blocks {
            last = Some(cid.to_bytes());
        }
        offset += written;
    }
    for (cid, _) in adder.finish() {
        last = Some(cid.to_bytes());
    }
    last.unwrap()
}

fn content(len: usize) -> Vec<u8> {
    (0..len).map(|i| (i * 31 % 256) as u8).collect()
}

#[test]
fn cid_is_deterministic() {
    let bytes = content(5000);
    let first = generate_cid(&vec![bytes.clone()], 1024).unwrap();
    let second = generate_cid(&vec![bytes.clone()], 1024).unwrap();
    assert_eq!(first, second);
    assert_eq!(first.1, 5000);
    assert_eq!(first.0.to_bytes(), reference_cid(&bytes, 1024));
}

#[test]
fn cid_does_not_depend_on_the_read_pattern() {
    let bytes = content(5000);
    let single = generate_cid(&vec![bytes.clone()], 1024).unwrap();
    let small: Vec<Vec<u8>> = bytes.chunks(7).map(|c| c.to_vec()).collect();
    assert_eq!(generate_cid(&small, 1024).unwrap(), single);
    let uneven = vec![bytes[..600].to_vec(), bytes[600..1200].to_vec(), vec![], bytes[1200..].to_vec()];
    assert_eq!(generate_cid(&uneven, 1024).unwrap(), single);
    let bytewise: Vec<Vec<u8>> = bytes.iter().map(|b| vec![*b]).collect();
    assert_eq!(generate_cid(&bytewise, 1024).unwrap(), single);
}

#[test]
fn cid_depends_on_the_content_and_the_chunk_size() {
    let bytes = content(5000);
    let other = content(5001);
    let a = generate_cid(&vec![bytes.clone()], 1024).unwrap().0;
    let b = generate_cid(&vec![other], 1024).unwrap().0;
    let c = generate_cid(&vec![bytes], 2048).unwrap().0;
    assert_ne!(a, b);
    assert_ne!(a, c);
}

#[test]
fn cid_of_exactly_one_chunk_and_of_whole_chunks() {
    for len in [1usize, 1023, 1024, 1025, 2048, 4096] {
        let bytes = content(len);
        let (cid, size) = generate_cid(&vec![bytes.clone()], 1024).unwrap();
        assert_eq!(size, len as u64);
        assert_eq!(cid.to_bytes(), reference_cid(&bytes, 1024));
        let halves = vec![bytes[..len / 2].to_vec(), bytes[len / 2..].to_vec()];
        assert_eq!(generate_cid(&halves, 1024).unwrap().0, cid);
    }
}

#[test]
fn empty_object_has_no_cid() {
    assert_eq!(generate_cid(&vec![], 1024), Err(Error::EmptyObject));
    assert_eq!(generate_cid(&vec![vec![], vec![]], 1024), Err(Error::EmptyObject));
    assert_eq!(CidBuilder::new(1024).finish(), Err(Error::EmptyObject));
}

#[test]
fn builder_counts_bytes() {
    let mut builder = CidBuilder::new(16);
    builder.update(&content(10));
    assert_eq!(builder.size(), 10);
    builder.update(&content(40));
    assert_eq!(builder.size(), 50);
    let mut whole = content(10);
    whole.extend(content(40));
    assert_eq!(builder.finish().unwrap().to_bytes(), reference_cid(&whole, 16));
}
