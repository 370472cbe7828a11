use rugb::serial::{Serial, TRANSFER_CYCLES};

#[test]
fn master_transfer_starts() {
    let mut s = Serial::new();
    s.write(0xFF02, 0x81);
    assert_eq!(
        s.cycles_remaining, 512,
        "master transfer should arm 512 cycles"
    );
}


#[test]
fn tick_does_not_complete_early() {
    let mut s = Serial::new();
    s.write(0xFF02, 0x81);
    let mut iflag = 0u8;
    let result = s.tick(511, &mut iflag);
    assert!(result.is_none(), "should not complete before 512 cycles");
    assert_eq!(iflag & 0x08, 0, "no serial interrupt before completion");
}


#[test]
fn tick_completes_at_512() {
    let mut s = Serial::new();
    s.write(0xFF02, 0x81);
    let mut iflag = 0u8;
    let result = s.tick(512, &mut iflag);
    assert!(result.is_some(), "should complete at 512 cycles");
    assert_eq!(iflag & 0x08, 0x08, "serial interrupt bit 3 must be set");
    assert_eq!(s.sc & 0x80, 0, "SC bit 7 (transfer flag) must be cleared");
}


#[test]
fn completed_transfer_swaps_bytes() {
    let mut s = Serial::new();
    s.write(0xFF01, 0xAB); // SB = outgoing byte
    s.receive_remote_byte(0x42);
    s.write(0xFF02, 0x81); // start master transfer
    let mut iflag = 0u8;
    let sent = s.tick(512, &mut iflag);
    assert_eq!(sent, Some(0xAB), "returned byte should be the sent SB");
    assert_eq!(s.sb, 0x42, "SB should be replaced by remote byte");
}


#[test]
fn no_remote_gives_0xff() {
    let mut s = Serial::new();
    s.write(0xFF01, 0xAB);
    s.write(0xFF02, 0x81);
    let mut iflag = 0u8;
    s.tick(512, &mut iflag);
    assert_eq!(
        s.sb, 0xFF,
        "no remote byte → SB should be 0xFF after transfer"
    );
}


#[test]
fn slave_fires_on_receive() {
    let mut s = Serial::new();
    s.write(0xFF02, 0x80); // slave mode: start bit set, external clock
    s.receive_remote_byte(0x37);
    assert!(
        s.cycles_remaining > 0,
        "slave should arm countdown on receive"
    );
    let mut iflag = 0u8;
    let result = s.tick(4, &mut iflag);
    assert!(
        result.is_some(),
        "slave transfer should complete after 4 cycles"
    );
    assert_eq!(s.sb, 0x37, "SB should contain received byte");
    assert_eq!(iflag & 0x08, 0x08, "serial interrupt must fire");
}


#[test]
fn serial_save_load_roundtrip() {
    let mut s = Serial::new();
    s.write(0xFF01, 0xCD);
    s.write(0xFF02, 0x81);
    s.receive_remote_byte(0x55);
    let mut iflag = 0u8;
    s.tick(100, &mut iflag); // partial progress

    let mut buf: Vec<u8> = Vec::new();
    s.save_state(&mut buf);

    let mut s2 = Serial::new();
    let mut slice: &[u8] = &buf;
    s2.load_state(&mut slice);

    assert_eq!(s.sb, s2.sb, "SB mismatch");
    assert_eq!(s.sc, s2.sc, "SC mismatch");
    assert_eq!(
        s.cycles_remaining, s2.cycles_remaining,
        "cycles_remaining mismatch"
    );
    assert_eq!(
        s.pending_remote_byte, s2.pending_remote_byte,
        "pending_remote_byte mismatch"
    );
}
