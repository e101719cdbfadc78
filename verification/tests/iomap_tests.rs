use autd3_link_soem::iomap::{BYTES_PER_DEVICE, IOMap};
use autd3_link_soem::message::{EC_OUTPUT_FRAME_SIZE, RxMessage, TxMessage};

#[test]
fn test_iomap() {
    let mut iomap = IOMap::new(1);
    let mut tx = vec![TxMessage::new(); 1];
    let payload_size = tx[0].payload.len();
    tx[0].header.msg_id = 0x01;
    tx[0].header.slot_2_offset = 0x0302;
    tx[0].payload[0] = 0x04;
    tx[0].payload[payload_size - 1] = 5;

    iomap.copy_from(&tx);

    assert_eq!(iomap.bytes()[0], 0x01);
    assert_eq!(iomap.bytes()[1], 0x00);
    assert_eq!(iomap.bytes()[2], 0x02);
    assert_eq!(iomap.bytes()[3], 0x03);
    assert_eq!(iomap.bytes()[3 + 1], 0x04);
    assert_eq!(iomap.bytes()[3 + payload_size], 0x05);
}

#[test]
fn iomap_test_iomap() {
    let mut iomap = IOMap::new(1);
    let mut tx = vec![TxMessage::new(); 1];
    let payload_size = tx[0].payload.len();
    tx[0].header.msg_id = 0x01;
    tx[0].header.slot_2_offset = 0x0302;
    tx[0].payload[0] = 0x04;
    tx[0].payload[payload_size - 1] = 5;

    iomap.copy_from(&tx);

    assert_eq!(iomap.bytes()[0], 0x01);
    assert_eq!(iomap.bytes()[1], 0x00);
    assert_eq!(iomap.bytes()[2], 0x02);
    assert_eq!(iomap.bytes()[3], 0x03);
    assert_eq!(iomap.bytes()[3 + 1], 0x04);
    assert_eq!(iomap.bytes()[3 + payload_size], 0x05);
}

#[test]
fn fresh_map_is_zeroed_and_sized() {
    let iomap = IOMap::new(3);
    assert_eq!(iomap.bytes().len(), BYTES_PER_DEVICE * 3);
    assert!(iomap.bytes().iter().all(|&b| b == 0));
    assert_eq!(iomap.num_devices(), 3);
}

#[test]
fn copy_leaves_input_region_zero() {
    let mut iomap = IOMap::new(2);
    let mut tx = vec![TxMessage::new(); 2];
    for (k, m) in tx.iter_mut().enumerate() {
        m.header.msg_id = 0xA0 + k as u8;
        for b in m.payload.iter_mut() {
            *b = 0xFF;
        }
    }
    iomap.copy_from(&tx);
    assert_eq!(iomap.bytes()[0], 0xA0);
    assert_eq!(iomap.bytes()[EC_OUTPUT_FRAME_SIZE], 0xA1);
    for i in 2 * EC_OUTPUT_FRAME_SIZE..iomap.bytes().len() {
        assert_eq!(iomap.bytes()[i], 0, "byte {} not zero", i);
    }
}

#[test]
fn input_reads_the_input_region() {
    let mut iomap = IOMap::new(2);
    let off = 2 * EC_OUTPUT_FRAME_SIZE;
    iomap.buf[off] = 0x11;
    iomap.buf[off + 1] = 0x22;
    iomap.buf[off + 2] = 0x33;
    iomap.buf[off + 3] = 0x44;
    let rx = iomap.input();
    assert_eq!(rx.len(), 2);
    assert_eq!(rx[0], RxMessage::new(0x11, 0x22));
    assert_eq!(rx[1], RxMessage::new(0x33, 0x44));
}

#[test]
fn clear_zeroes_everything() {
    let mut iomap = IOMap::new(1);
    let mut tx = vec![TxMessage::new(); 1];
    tx[0].header.msg_id = 0x7F;
    iomap.copy_from(&tx);
    assert_eq!(iomap.bytes()[0], 0x7F);
    iomap.clear();
    assert!(iomap.bytes().iter().all(|&b| b == 0));
    assert_eq!(iomap.bytes().len(), BYTES_PER_DEVICE);
}
