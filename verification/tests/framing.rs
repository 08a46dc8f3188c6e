use pektin_server::framing::TcpFramer;

fn frame(body: &[u8]) -> Vec<u8> {
    let mut out = Vec::new();
    let len = body.len() as u16;
    out.push((len >> 8) as u8);
    out.push((len & 0xFF) as u8);
    out.extend_from_slice(body);
    out
}

#[test]
fn one_message_in_one_read() {
    let mut f = TcpFramer::new();
    let msgs = f.push(&frame(b"hello"));
    assert_eq!(msgs, vec![b"hello".to_vec()]);
}

#[test]
fn message_split_across_two_reads_is_reassembled() {
    let mut f = TcpFramer::new();
    let bytes = frame(b"hello world");
    let (first, second) = bytes.split_at(5);
    assert!(f.push(first).is_empty());
    let msgs = f.push(second);
    assert_eq!(msgs, vec![b"hello world".to_vec()]);
}

#[test]
fn split_inside_the_length_prefix() {
    let mut f = TcpFramer::new();
    let bytes = frame(b"abc");
    assert!(f.push(&bytes[..1]).is_empty());
    let msgs = f.push(&bytes[1..]);
    assert_eq!(msgs, vec![b"abc".to_vec()]);
}

#[test]
fn two_messages_in_one_read_come_out_in_order() {
    let mut f = TcpFramer::new();
    let mut bytes = frame(b"first");
    bytes.extend_from_slice(&frame(b"second"));
    let msgs = f.push(&bytes);
    assert_eq!(msgs, vec![b"first".to_vec(), b"second".to_vec()]);
}

#[test]
fn trailing_partial_message_waits_for_more() {
    let mut f = TcpFramer::new();
    let mut bytes = frame(b"done");
    let next = frame(b"pending");
    bytes.extend_from_slice(&next[..4]);
    let msgs = f.push(&bytes);
    assert_eq!(msgs, vec![b"done".to_vec()]);
    let msgs = f.push(&next[4..]);
    assert_eq!(msgs, vec![b"pending".to_vec()]);
}

#[test]
fn empty_read_yields_nothing() {
    let mut f = TcpFramer::new();
    assert!(f.push(b"").is_empty());
}

#[test]
fn zero_length_message() {
    let mut f = TcpFramer::new();
    let msgs = f.push(&[0u8, 0u8]);
    assert_eq!(msgs, vec![Vec::<u8>::new()]);
}

#[test]
fn byte_by_byte_delivery() {
    let mut f = TcpFramer::new();
    let bytes = frame(b"dns");
    let mut all = Vec::new();
    for b in &bytes {
        for m in f.push(std::slice::from_ref(b)) {
            all.push(m);
        }
    }
    assert_eq!(all, vec![b"dns".to_vec()]);
}
