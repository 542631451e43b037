use enclave_io::buffer::{ReadBuffer, WriteBuffer, READ_BUFFER_SIZE, WRITE_BUFFER_SIZE};

#[test]
fn buffer_sizes() {
    assert_eq!(WRITE_BUFFER_SIZE, 16 * 1024);
    assert_eq!(READ_BUFFER_SIZE, 16 * 1024);
}

#[test]
fn write_buffer_takes_what_fits() {
    let mut wb = WriteBuffer::new(5);
    assert!(wb.is_empty());
    assert_eq!(wb.write(&[1, 2, 3]), 3);
    assert_eq!(wb.len(), 3);
    assert_eq!(wb.write(&[4, 5, 6, 7]), 2);
    assert_eq!(wb.len(), 5);
    assert_eq!(wb.write(&[8]), 0);
    assert_eq!(wb.write(&[]), 0);
    assert_eq!(wb.consumable_chunk(), Some(vec![1, 2, 3, 4, 5]));
    assert_eq!(wb.lent(), 5);
}

#[test]
fn write_buffer_is_first_in_first_out() {
    let mut wb = WriteBuffer::new(8);
    assert_eq!(wb.consumable_chunk(), None);
    assert_eq!(wb.lent(), 0);
    wb.write(&[1, 2, 3, 4]);
    assert_eq!(wb.consumable_chunk(), Some(vec![1, 2, 3, 4]));
    // More may be written while the chunk is out.
    assert_eq!(wb.write(&[5, 6]), 2);
    wb.consume(3);
    assert_eq!(wb.lent(), 0);
    assert_eq!(wb.len(), 3);
    assert_eq!(wb.consumable_chunk(), Some(vec![4, 5, 6]));
    wb.consume(0);
    assert_eq!(wb.len(), 3);
    assert_eq!(wb.consumable_chunk(), Some(vec![4, 5, 6]));
    wb.consume(3);
    assert!(wb.is_empty());
    assert_eq!(wb.consumable_chunk(), None);
    // Room that was freed can be used again.
    assert_eq!(wb.write(&[9; 10]), 8);
}

#[test]
fn read_buffer_hands_on_in_order() {
    let mut rb = ReadBuffer::new(vec![10, 11, 12, 13, 14, 0, 0, 0], 5);
    assert_eq!(rb.len(), 5);
    assert_eq!(rb.remaining_bytes(), 5);
    let mut buf = [0u8; 2];
    assert_eq!(rb.read(&mut buf), 2);
    assert_eq!(buf, [10, 11]);
    assert_eq!(rb.remaining_bytes(), 3);
    let mut wide = [7u8; 6];
    assert_eq!(rb.read(&mut wide), 3);
    assert_eq!(wide, [12, 13, 14, 7, 7, 7]);
    assert_eq!(rb.remaining_bytes(), 0);
    assert_eq!(rb.read(&mut wide), 0);
    assert_eq!(wide, [12, 13, 14, 7, 7, 7]);
    assert_eq!(rb.len(), 5);
    assert_eq!(rb.into_inner(), vec![10, 11, 12, 13, 14, 0, 0, 0]);
}

#[test]
fn read_buffer_of_nothing() {
    let mut rb = ReadBuffer::new(vec![1, 2, 3], 0);
    assert_eq!(rb.len(), 0);
    assert_eq!(rb.remaining_bytes(), 0);
    let mut buf = [9u8; 4];
    assert_eq!(rb.read(&mut buf), 0);
    assert_eq!(buf, [9, 9, 9, 9]);
    let mut empty: [u8; 0] = [];
    assert_eq!(rb.read(&mut empty), 0);
}
