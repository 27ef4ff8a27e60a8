use render_core::dynamic_container::DynamicContainer;
use render_core::linear_2d_vec::Linear2dVec;
use render_core::partition::Partition;

#[test]
fn partition_new_and_deconstruct() {
    let p: Partition<u64> = Partition::new(24, 8);
    assert_eq!(p.size, 24);
    assert_eq!(p.offset, 8);
    let (size, offset) = p.deconstruct();
    assert_eq!(size, 24);
    assert_eq!(offset, 8);
}

#[test]
fn flatten_three_chunks_layout() {
    let chunks = vec![vec![1u16, 2, 3], vec![4u16], vec![5u16, 6]];
    let table = Linear2dVec::from_vec(chunks);
    assert_eq!(table.len(), 6);
    assert_eq!(table.part(0).deconstruct(), (3, 0));
    assert_eq!(table.part(1).deconstruct(), (1, 3));
    assert_eq!(table.part(2).deconstruct(), (2, 4));
    assert_eq!(table.offset(2), 4);
}

#[test]
fn flatten_sum_of_sizes_matches_total() {
    let chunks = vec![vec![0u8; 5], vec![0u8; 11], vec![0u8; 2], vec![0u8; 7]];
    let table = Linear2dVec::from_vec(chunks);
    let total: usize = table.parts().iter().map(|p| p.size).sum();
    assert_eq!(total, table.len());
    assert_eq!(total, 25);
}

#[test]
fn flatten_round_trip_reproduces_chunks() {
    let chunks = vec![vec![10u16, 20, 30], vec![], vec![40u16, 50]];
    let table = Linear2dVec::from_vec(chunks.clone());
    let (data, parts) = table.deconstruct();
    for (chunk, part) in chunks.iter().zip(parts.iter()) {
        let slice = &data[part.offset..part.offset + part.size];
        assert_eq!(slice, chunk.as_slice());
    }
}

#[test]
fn flatten_partitions_are_contiguous_and_disjoint() {
    let chunks = vec![vec![1u8], vec![2u8, 3], vec![], vec![4u8, 5, 6]];
    let table = Linear2dVec::from_vec(chunks);
    let parts = table.parts_iter();
    assert_eq!(parts[0].offset, 0);
    for w in parts.windows(2) {
        assert_eq!(w[0].offset + w[0].size, w[1].offset);
        assert!(w[0].offset + w[0].size <= w[1].offset);
    }
}

#[test]
fn flatten_empty_input() {
    let table: Linear2dVec<u32> = Linear2dVec::from_vec(vec![]);
    assert_eq!(table.len(), 0);
    assert!(table.parts().is_empty());
}

#[test]
fn sizes_iterator_walks_sizes_in_order() {
    let chunks = vec![vec![1u8, 2], vec![3u8, 4, 5], vec![6u8]];
    let table = Linear2dVec::from_vec(chunks);
    let mut it = table.sizes();
    assert_eq!(it.remaining(), 3);
    assert_eq!(it.next(), Some(2));
    assert_eq!(it.next(), Some(3));
    assert_eq!(it.remaining(), 1);
    assert_eq!(it.next(), Some(1));
    assert_eq!(it.next(), None);
    assert_eq!(it.remaining(), 0);
}

#[test]
fn into_parts_iter_moves_table_out() {
    let chunks = vec![vec![9u64; 4], vec![9u64; 2]];
    let table = Linear2dVec::from_vec(chunks);
    let parts = table.into_parts_iter();
    assert_eq!(parts.len(), 2);
    assert_eq!(parts[0].deconstruct(), (4, 0));
    assert_eq!(parts[1].deconstruct(), (2, 4));
}

#[test]
fn iter_exposes_flattened_data() {
    let chunks = vec![vec![7u16, 8], vec![9u16]];
    let table = Linear2dVec::from_vec(chunks);
    assert_eq!(table.iter().as_slice(), &[7, 8, 9]);
}

#[test]
fn dynamic_container_holds_payload_and_parts() {
    let parts = vec![Partition::new(16u32, 0u32), Partition::new(8u32, 16u32)];
    let container = DynamicContainer::new(42u64, parts);
    assert_eq!(*container.data(), 42);
    assert_eq!(container.parts().len(), 2);
    assert_eq!(container.parts()[1].offset, 16);
}
