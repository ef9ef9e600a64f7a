use rustux_syscalls::channel::{Channel, ChannelRegistry, ChannelSubsystem, Message, MAX_MSG_HANDLES, MAX_MSG_SIZE};
use rustux_syscalls::status::{RX_ERR_BUFFER_TOO_SMALL, RX_ERR_NOT_FOUND, RX_ERR_PEER_CLOSED, RX_ERR_SHOULD_WAIT};

#[test]
fn test_channel_registry_insert_get() {
    let mut reg = ChannelRegistry::new();
    let (channel_a, _channel_b) = Channel::create(1).unwrap();
    let a_id = channel_a.id;
    let id = reg.insert(channel_a).unwrap();
    assert_eq!(id, a_id);
    let retrieved = reg.get(id).unwrap();
    assert_eq!(retrieved.id, a_id);
}

#[test]
fn test_channel_registry_remove() {
    let mut reg = ChannelRegistry::new();
    let (channel_a, _channel_b) = Channel::create(7).unwrap();
    let a_id = channel_a.id;
    let id = reg.insert(channel_a).unwrap();
    let removed = reg.remove(id).unwrap();
    assert_eq!(removed.id, a_id);
    assert!(reg.get(id).is_none());
}

#[test]
fn test_channel_create() {
    let (ch_a, ch_b) = Channel::create(1).unwrap();
    assert!(ch_a.is_peer_alive());
    assert!(ch_b.is_peer_alive());
    assert_eq!(ch_a.msg_count(), 0);
    assert_eq!(ch_b.msg_count(), 0);
}

#[test]
fn test_channel_write_read() {
    let mut sub = ChannelSubsystem::new();
    let (ch_a, ch_b) = Channel::create(1).unwrap();
    let (a_id, b_id) = (ch_a.id, ch_b.id);
    sub.registry.insert(ch_a).unwrap();
    sub.registry.insert(ch_b).unwrap();

    let data = b"Hello, Channel!";
    let handles: Vec<u32> = vec![];
    let written = sub.write(a_id, data.to_vec(), handles).unwrap();
    assert_eq!(written, data.len());

    let mut ch_b = sub.registry.remove(b_id).unwrap();
    let mut buf = vec![0u8; 64];
    let mut handle_buf = Vec::new();
    let (bytes_read, handles_read) = ch_b.read(&mut buf, &mut handle_buf).unwrap();
    assert_eq!(bytes_read, data.len());
    assert_eq!(handles_read, 0);
    assert_eq!(&buf[..data.len()], data);
}

#[test]
fn test_message_sizes() {
    assert!(MAX_MSG_SIZE <= 64 * 1024);
    assert!(MAX_MSG_HANDLES <= 64);
}

#[test]
fn channel_messages_come_out_in_order() {
    let (mut ch, _peer) = Channel::create(3).unwrap();
    ch.deliver(Message { data: vec![1, 2], handles: vec![9] });
    ch.deliver(Message { data: vec![3], handles: vec![] });
    assert_eq!(ch.msg_count(), 2);
    let mut buf = vec![0u8; 4];
    let mut hs = Vec::new();
    assert_eq!(ch.read(&mut buf, &mut hs), Ok((2, 1)));
    assert_eq!(buf, vec![1, 2, 0, 0]);
    assert_eq!(hs, vec![9]);
    assert_eq!(ch.read(&mut buf, &mut hs), Ok((1, 0)));
    assert_eq!(buf, vec![3, 2, 0, 0]);
    assert_eq!(ch.read(&mut buf, &mut hs), Err(RX_ERR_SHOULD_WAIT));
    ch.peer_closed();
    assert_eq!(ch.read(&mut buf, &mut hs), Err(RX_ERR_PEER_CLOSED));
}

#[test]
fn channel_read_buffer_too_small_keeps_message() {
    let (mut ch, _peer) = Channel::create(3).unwrap();
    ch.deliver(Message { data: vec![1, 2, 3], handles: vec![] });
    let mut buf = vec![0u8; 2];
    let mut hs = Vec::new();
    assert_eq!(ch.read(&mut buf, &mut hs), Err(RX_ERR_BUFFER_TOO_SMALL));
    assert_eq!(ch.msg_count(), 1);
}

#[test]
fn channel_write_errors() {
    let mut sub = ChannelSubsystem::new();
    assert_eq!(sub.write(5, vec![1], vec![]), Err(RX_ERR_NOT_FOUND));
    let (a, _b) = Channel::create(10).unwrap();
    sub.registry.insert(a).unwrap();
    assert_eq!(sub.write(10, vec![1], vec![]), Err(RX_ERR_PEER_CLOSED));
}
