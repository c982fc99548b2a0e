use asr::output_buffer::OutputBuffer;

#[test]
fn emit_writes_bytes_and_terminator() {
    let mut buf = OutputBuffer::new();
    buf.output_vec(&[104, 105]);
    assert_eq!(buf.get_buf_len(), 2);
    assert_eq!(buf.byte_at(0), 104);
    assert_eq!(buf.byte_at(1), 105);
    assert_eq!(buf.byte_at(2), 0);
    assert_eq!(buf.len_bytes(), 3);
}

#[test]
fn round_trip_reproduces_the_bytes() {
    let data: Vec<u8> = vec![1, 2, 3, 254, 255];
    let mut buf = OutputBuffer::new();
    buf.output_vec(&data);
    assert_eq!(buf.get_buf_len(), data.len());
    let mut copied: Vec<u8> = Vec::new();
    let mut i = 0;
    while i < buf.get_buf_len() {
        copied.push(buf.byte_at(i));
        i += 1;
    }
    assert_eq!(copied, data);
    assert_eq!(buf.byte_at(data.len()), 0);
}

#[test]
fn next_emit_replaces_the_pending_string() {
    let mut buf = OutputBuffer::new();
    buf.output_vec(&[9, 9, 9, 9]);
    buf.output_vec(&[7]);
    assert_eq!(buf.get_buf_len(), 1);
    assert_eq!(buf.byte_at(0), 7);
    assert_eq!(buf.byte_at(1), 0);
}

#[test]
fn emit_of_a_string_writes_its_utf8_bytes() {
    let mut buf = OutputBuffer::new();
    buf.output_str("hi");
    assert_eq!(buf.get_buf_len(), 2);
    assert_eq!(buf.as_bytes(), &[b'h', b'i', 0]);
}

#[test]
fn emit_of_the_empty_string_leaves_only_the_terminator() {
    let mut buf = OutputBuffer::new();
    buf.output_str("");
    assert_eq!(buf.get_buf_len(), 0);
    assert_eq!(buf.byte_at(0), 0);
}

#[test]
fn fresh_buffer_holds_nothing() {
    let buf = OutputBuffer::new();
    assert_eq!(buf.len_bytes(), 0);
}

#[test]
fn into_bytes_hands_the_storage_out() {
    let mut buf = OutputBuffer::new();
    buf.output_vec(&[42]);
    let v = buf.into_bytes();
    assert_eq!(v, vec![42, 0]);
}
