use gb_rw::protocol::Cmd;
use gb_rw::protocol::ReplyCmd;
use gb_rw::protocol::cmd_read;
use gb_rw::protocol::cmd_from_opcode;
use gb_rw::protocol::decode_read_frame;
use gb_rw::protocol::opcode;
use gb_rw::protocol::reply_from_code;

#[test]
fn read_frame_is_five_bytes_little_endian() {
    let frame = cmd_read(0x0000, 0x4000);
    assert_eq!(frame, vec![0x00, 0x00, 0x00, 0x00, 0x40]);

    let frame = cmd_read(0x4000, 0x8000);
    assert_eq!(frame, vec![0x00, 0x00, 0x40, 0x00, 0x80]);

    let frame = cmd_read(0x1234, 0xabcd);
    assert_eq!(frame, vec![0x00, 0x34, 0x12, 0xcd, 0xab]);
    assert_eq!(frame.len(), 5);
}

#[test]
fn read_frame_round_trips() {
    let cases: [(u16, u16); 5] = [
        (0x0000, 0x0001),
        (0x0000, 0x4000),
        (0x4000, 0x8000),
        (0x1234, 0xabcd),
        (0xfffe, 0xffff),
    ];
    for (start, end) in cases {
        let frame = cmd_read(start, end);
        assert_eq!(frame.len(), 5);
        assert_eq!(decode_read_frame(&frame), Some((start, end)));
    }
}

#[test]
fn decode_rejects_malformed_frames() {
    // Wrong length.
    assert_eq!(decode_read_frame(&vec![0x00, 0x00, 0x00, 0x00]), None);
    assert_eq!(decode_read_frame(&vec![0x00, 0x00, 0x00, 0x00, 0x40, 0x00]), None);
    assert_eq!(decode_read_frame(&vec![]), None);
    // Wrong opcode.
    assert_eq!(decode_read_frame(&vec![0x01, 0x00, 0x00, 0x00, 0x40]), None);
    assert_eq!(decode_read_frame(&vec![0x04, 0x00, 0x00, 0x00, 0x40]), None);
}

#[test]
fn opcodes_are_stable_and_round_trip() {
    let cmds = [Cmd::Read, Cmd::Write, Cmd::WriteRaw, Cmd::WriteFlash, Cmd::Erase];
    let codes: [u8; 5] = [0, 1, 2, 3, 4];
    for i in 0..5 {
        assert_eq!(opcode(&cmds[i]), codes[i]);
        assert_eq!(cmd_from_opcode(codes[i]), Some(cmds[i]));
    }
    assert_eq!(cmd_from_opcode(5), None);
    assert_eq!(cmd_from_opcode(0xff), None);
}

#[test]
fn reply_codes() {
    assert_eq!(reply_from_code(0), Some(ReplyCmd::Ack));
    assert_eq!(reply_from_code(1), Some(ReplyCmd::Nack));
    assert_eq!(reply_from_code(2), None);
}
