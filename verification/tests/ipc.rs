use bruna_os::kernel::id::IdGenerator;
use bruna_os::kernel::ipc::{generate_mid, Message, MessagePassing, SystemMessageBus};
use bruna_os::kernel::process::ProcessId;
use bruna_os::kernel::KernelError;

fn pid(id: u64) -> ProcessId {
    id
}

#[test]
fn test_smb_new() {
    let bus = SystemMessageBus::new();
    assert!(bus.queues.is_empty(), "New bus should have no queues");
}

#[test]
fn test_smb_send_and_receive_single_message() {
    let mut ids = IdGenerator::new();
    let mut bus = SystemMessageBus::new();
    let sender_pid = pid(1);
    let receiver_pid = pid(2);
    let payload = vec![1, 2, 3];
    let message = Message::new(&mut ids, sender_pid, receiver_pid, payload.clone());

    assert!(bus.send_message(message.clone()).is_ok());

    assert!(bus.queues.contains_key(&receiver_pid));
    assert_eq!(bus.queues.get(&receiver_pid).unwrap().len(), 1);

    let received_message_result = bus.receive_message(receiver_pid);
    assert!(received_message_result.is_ok());
    let received_message = received_message_result.unwrap();

    assert_eq!(received_message.id, message.id);
    assert_eq!(received_message.sender_pid, sender_pid);
    assert_eq!(received_message.receiver_pid, receiver_pid);
    assert_eq!(received_message.payload, payload);
    assert!(bus.queues.get(&receiver_pid).unwrap().is_empty());
}

#[test]
fn test_smb_try_receive_message_empty_queue() {
    let mut bus = SystemMessageBus::new();
    let receiver_pid = pid(1);
    let result = bus.try_receive_message(receiver_pid);
    assert!(result.is_ok());
    assert!(result.unwrap().is_none(), "try_receive on empty/non-existent queue should be None");
}

#[test]
fn test_smb_receive_message_empty_queue_error() {
    let mut bus = SystemMessageBus::new();
    let receiver_pid = pid(1);
    let result = bus.receive_message(receiver_pid);
    assert!(result.is_err());
    assert_eq!(result.err().unwrap(), KernelError::NotFound);
}

#[test]
fn test_smb_send_creates_queue() {
    let mut ids = IdGenerator::new();
    let mut bus = SystemMessageBus::new();
    let sender_pid = pid(1);
    let receiver_pid = pid(2);
    assert!(!bus.queues.contains_key(&receiver_pid), "Queue should not exist before send");
    let message = Message::new(&mut ids, sender_pid, receiver_pid, vec![1]);
    bus.send_message(message).unwrap();
    assert!(bus.queues.contains_key(&receiver_pid), "Queue should exist after send");
    assert_eq!(bus.queues.get(&receiver_pid).unwrap().len(), 1);
}

#[test]
fn test_smb_fifo_order() {
    let mut ids = IdGenerator::new();
    let mut bus = SystemMessageBus::new();
    let s_pid = pid(1);
    let r_pid = pid(2);
    let msg1 = Message::new(&mut ids, s_pid, r_pid, vec![1]);
    let msg2 = Message::new(&mut ids, s_pid, r_pid, vec![2]);
    let msg1_id = msg1.id;
    let msg2_id = msg2.id;

    bus.send_message(msg1).unwrap();
    bus.send_message(msg2).unwrap();

    let recv_msg1 = bus.receive_message(r_pid).unwrap();
    assert_eq!(recv_msg1.id, msg1_id);
    assert_eq!(recv_msg1.payload, vec![1]);

    let recv_msg2 = bus.receive_message(r_pid).unwrap();
    assert_eq!(recv_msg2.id, msg2_id);
    assert_eq!(recv_msg2.payload, vec![2]);
}

#[test]
fn test_smb_try_receive_message_success() {
    let mut ids = IdGenerator::new();
    let mut bus = SystemMessageBus::new();
    let sender_pid = pid(1);
    let receiver_pid = pid(2);
    let payload = vec![10, 20];
    let message = Message::new(&mut ids, sender_pid, receiver_pid, payload.clone());
    let original_message_id = message.id;

    bus.send_message(message).unwrap();

    let received_result = bus.try_receive_message(receiver_pid);
    assert!(received_result.is_ok());
    assert!(received_result.as_ref().unwrap().is_some());
    let received_message = received_result.unwrap().unwrap();

    assert_eq!(received_message.id, original_message_id);
    assert_eq!(received_message.payload, payload);
}

#[test]
fn test_message_ids_start_at_one_and_increase() {
    let mut ids = IdGenerator::new();
    assert_eq!(generate_mid(&mut ids), 1);
    let message = Message::new(&mut ids, 4, 5, vec![]);
    assert_eq!(message.id, 2);
    assert_eq!(message.sender_pid, 4);
    assert_eq!(message.receiver_pid, 5);
    assert!(message.payload.is_empty());
    assert_eq!(generate_mid(&mut ids), 3);
}

#[test]
fn test_smb_fifo_two_senders_then_empty() {
    let mut ids = IdGenerator::new();
    let mut bus = SystemMessageBus::new();
    let first = Message::new(&mut ids, 1, 9, vec![0xaa, 0xbb]);
    let second = Message::new(&mut ids, 2, 9, vec![0xcc]);
    bus.send_message(first).unwrap();
    bus.send_message(second).unwrap();

    let got = bus.receive_message(9).unwrap();
    assert_eq!((got.id, got.sender_pid, got.receiver_pid), (1, 1, 9));
    assert_eq!(got.payload, vec![0xaa, 0xbb]);
    let got = bus.receive_message(9).unwrap();
    assert_eq!((got.id, got.sender_pid, got.receiver_pid), (2, 2, 9));
    assert_eq!(got.payload, vec![0xcc]);

    assert_eq!(bus.receive_message(9).err(), Some(KernelError::NotFound));
    assert!(matches!(bus.try_receive_message(9), Ok(None)));
    assert!(bus.queues.contains_key(&9));
}

#[test]
fn test_smb_isolation_between_receivers() {
    let mut ids = IdGenerator::new();
    let mut bus = SystemMessageBus::new();
    bus.send_message(Message::new(&mut ids, 1, 10, vec![1])).unwrap();
    bus.send_message(Message::new(&mut ids, 1, 10, vec![2])).unwrap();

    assert_eq!(bus.receive_message(11).err(), Some(KernelError::NotFound));
    assert!(matches!(bus.try_receive_message(11), Ok(None)));
    assert!(!bus.queues.contains_key(&11));
    assert_eq!(bus.queues.get(&10).unwrap().len(), 2);

    bus.send_message(Message::new(&mut ids, 10, 11, vec![3])).unwrap();
    let got = bus.try_receive_message(11).unwrap().unwrap();
    assert_eq!(got.receiver_pid, 11);
    assert_eq!(got.payload, vec![3]);
    assert_eq!(bus.queues.get(&10).unwrap().len(), 2);
    assert_eq!(bus.receive_message(10).unwrap().payload, vec![1]);
}

#[test]
fn test_message_clone_keeps_everything() {
    let mut ids = IdGenerator::new();
    let message = Message::new(&mut ids, 3, 4, vec![9, 8, 7]);
    let copy = message.clone();
    assert_eq!(copy.id, message.id);
    assert_eq!(copy.sender_pid, 3);
    assert_eq!(copy.receiver_pid, 4);
    assert_eq!(copy.payload, vec![9, 8, 7]);
}
