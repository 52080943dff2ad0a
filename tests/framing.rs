use oled_ssd1306::{BusOp, Line, Transport};

fn writes(ops: &[BusOp]) -> Vec<Vec<u8>> {
    let mut out = Vec::new();
    for op in ops {
        if let BusOp::Write(bytes) = op {
            out.push(bytes.clone());
        }
    }
    out
}

fn drives(ops: &[BusOp]) -> usize {
    ops.iter().filter(|op| matches!(op, BusOp::Drive(_, _))).count()
}

#[test]
fn send_data_empty_is_a_no_op() {
    let mut t = Transport::new();
    t.send_data(&[]);
    assert!(t.take_ops().is_empty());
}

#[test]
fn send_data_splits_into_bursts() {
    let mut t = Transport::with_buf_limit(4);
    let data: Vec<u8> = (0u8..10).collect();
    t.send_data(&data);
    let ops = t.take_ops();
    assert_eq!(ops[0], BusOp::Drive(Line::DataCommand, true));
    assert_eq!(drives(&ops), 1);
    let chunks = writes(&ops);
    assert_eq!(chunks.len(), 3);
    assert_eq!(chunks[0], vec![0, 1, 2, 3]);
    assert_eq!(chunks[1], vec![4, 5, 6, 7]);
    assert_eq!(chunks[2], vec![8, 9]);
    assert_eq!(chunks.concat(), data);
}

#[test]
fn send_data_exact_multiple_of_limit() {
    let mut t = Transport::with_buf_limit(5);
    let data: Vec<u8> = (0u8..10).collect();
    t.send_data(&data);
    let ops = t.take_ops();
    assert_eq!(ops.len(), 3);
    assert_eq!(writes(&ops), vec![vec![0, 1, 2, 3, 4], vec![5, 6, 7, 8, 9]]);
}

#[test]
fn send_data_default_limit_over_4096() {
    let mut t = Transport::new();
    assert_eq!(t.buf_limit(), 4096);
    let data: Vec<u8> = (0..5000u32).map(|i| (i % 251) as u8).collect();
    t.send_data(&data);
    let ops = t.take_ops();
    assert_eq!(drives(&ops), 1);
    let chunks = writes(&ops);
    assert_eq!(chunks.len(), 2);
    assert_eq!(chunks[0].len(), 4096);
    assert_eq!(chunks[1].len(), 904);
    assert_eq!(chunks.concat(), data);
}

#[test]
fn send_data_short_payload_is_one_burst() {
    let mut t = Transport::new();
    t.send_data(&[7, 8, 9]);
    assert_eq!(
        t.take_ops(),
        vec![BusOp::Drive(Line::DataCommand, true), BusOp::Write(vec![7, 8, 9])]
    );
}

#[test]
fn send_command_frames_one_byte() {
    let mut t = Transport::new();
    t.send_command(0xAF);
    assert_eq!(
        t.take_ops(),
        vec![BusOp::Drive(Line::DataCommand, false), BusOp::Write(vec![0xAF])]
    );
}

#[test]
fn send_is_a_raw_write() {
    let mut t = Transport::new();
    t.send(&[1, 2]);
    assert_eq!(t.take_ops(), vec![BusOp::Write(vec![1, 2])]);
}

#[test]
fn device_select_and_release() {
    let mut t = Transport::new();
    t.use_device();
    t.release_device();
    assert_eq!(
        t.take_ops(),
        vec![BusOp::Drive(Line::ChipSelect, false), BusOp::Drive(Line::ChipSelect, true)]
    );
}

#[test]
fn take_ops_empties_the_log() {
    let mut t = Transport::new();
    t.wait(5);
    t.drive(Line::Reset, false);
    assert_eq!(t.take_ops(), vec![BusOp::Wait(5), BusOp::Drive(Line::Reset, false)]);
    assert!(t.take_ops().is_empty());
}
