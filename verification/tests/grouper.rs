use weather_report::grouper::{group, HOURS_PER_ROW};

fn lengths(len: usize, size: usize) -> Vec<usize> {
    let items: Vec<usize> = (0..len).collect();
    group(&items, size).iter().map(|chunk| chunk.len()).collect()
}

#[test]
fn hours_are_shown_six_in_a_row() {
    assert_eq!(HOURS_PER_ROW, 6);
}

#[test]
fn nothing_gives_no_chunk() {
    assert_eq!(lengths(0, 6), Vec::<usize>::new());
}

#[test]
fn a_day_of_hours_gives_four_full_chunks() {
    assert_eq!(lengths(24, 6), vec![6, 6, 6, 6]);
}

#[test]
fn the_last_chunk_holds_the_remainder() {
    assert_eq!(lengths(1, 6), vec![1]);
    assert_eq!(lengths(5, 6), vec![5]);
    assert_eq!(lengths(6, 6), vec![6]);
    assert_eq!(lengths(7, 6), vec![6, 1]);
    assert_eq!(lengths(23, 6), vec![6, 6, 6, 5]);
    assert_eq!(lengths(25, 6), vec![6, 6, 6, 6, 1]);
}

#[test]
fn other_sizes_group_alike() {
    assert_eq!(lengths(5, 1), vec![1, 1, 1, 1, 1]);
    assert_eq!(lengths(5, 2), vec![2, 2, 1]);
    assert_eq!(lengths(5, 5), vec![5]);
    assert_eq!(lengths(5, 100), vec![5]);
}

#[test]
fn grouping_has_the_stated_shape_for_every_length() {
    for len in 0..100usize {
        let items: Vec<usize> = (0..len).collect();
        let chunks = group(&items, 6);
        assert_eq!(chunks.len(), (len + 5) / 6);
        for (k, chunk) in chunks.iter().enumerate() {
            if k + 1 < chunks.len() {
                assert_eq!(chunk.len(), 6);
            } else if len % 6 == 0 {
                assert_eq!(chunk.len(), 6);
            } else {
                assert_eq!(chunk.len(), len % 6);
            }
        }
    }
}

#[test]
fn chunks_written_one_after_another_are_the_items() {
    for len in 0..60usize {
        let items: Vec<usize> = (0..len).map(|i| i * 7).collect();
        let mut again = Vec::new();
        for chunk in group(&items, 6) {
            again.extend_from_slice(chunk);
        }
        assert_eq!(again, items);
    }
}

#[test]
fn chunks_keep_the_order_of_the_items() {
    let items = vec!['a', 'b', 'c', 'd', 'e', 'f', 'g', 'h'];
    let chunks = group(&items, 3);
    assert_eq!(chunks.len(), 3);
    assert_eq!(chunks[0], &['a', 'b', 'c']);
    assert_eq!(chunks[1], &['d', 'e', 'f']);
    assert_eq!(chunks[2], &['g', 'h']);
}
