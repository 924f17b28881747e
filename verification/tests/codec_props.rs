//! Byte-level codec behaviour on concrete values.

use firewire_ctl::codec::{
    i32_block_build, i32_block_parse, read_bool_quadlet, read_i16_be, read_i32_quadlet,
    read_quadlet, write_bool_quadlet, write_i32_quadlet, write_quadlet, zeroed_vec,
};

#[test]
fn quadlet_write_is_big_endian() {
    let mut raw = zeroed_vec(8);
    write_quadlet(&mut raw, 0, 0x01020304);
    assert_eq!(raw, vec![0x01, 0x02, 0x03, 0x04, 0, 0, 0, 0]);
}

#[test]
fn quadlet_roundtrip_and_frame() {
    let mut raw = vec![0xaa; 12];
    write_quadlet(&mut raw, 4, 0xdeadbeef);
    assert_eq!(read_quadlet(&raw, 4), 0xdeadbeef);
    assert_eq!(&raw[0..4], &[0xaa; 4]);
    assert_eq!(&raw[8..12], &[0xaa; 4]);
}

#[test]
fn bool_quadlet_nonzero_is_true() {
    let mut raw = zeroed_vec(4);
    write_quadlet(&mut raw, 0, 7);
    assert!(read_bool_quadlet(&raw, 0));
    write_bool_quadlet(&mut raw, 0, true);
    assert_eq!(read_quadlet(&raw, 0), 1);
    write_bool_quadlet(&mut raw, 0, false);
    assert!(!read_bool_quadlet(&raw, 0));
}

#[test]
fn signed_quadlet_roundtrip() {
    let mut raw = zeroed_vec(4);
    write_i32_quadlet(&mut raw, 0, -1000);
    assert_eq!(read_i32_quadlet(&raw, 0), -1000);
    assert_eq!(raw, vec![0xff, 0xff, 0xfc, 0x18]);
}

#[test]
fn i16_read_is_big_endian() {
    let raw = vec![0xfb, 0x2e];
    assert_eq!(read_i16_be(&raw, 0), -1234);
}

#[test]
fn i32_block_roundtrip() {
    let vals = vec![-1, 0, 123456, -999999];
    let mut raw = zeroed_vec(20);
    i32_block_build(&vals, &mut raw, 4);
    let mut out: Vec<i32> = Vec::new();
    i32_block_parse(&mut out, &raw, 4, 4);
    assert_eq!(out, vals);
    assert_eq!(&raw[0..4], &[0, 0, 0, 0]);
}
