use gbcore::util::{split_u16, u8_to_u16};

#[test]
fn test_u8_to_u16() {
    let a: u8 = 0b1011_1100;
    let b: u8 = 0b0001_0100;
    let want: u16 = 0b1011_1100_0001_0100;
    assert_eq!(u8_to_u16(a, b), want);
}

#[test]
fn test_split_u16() {
    let a: u8 = 0b1011_1100;
    let b: u8 = 0b0001_0100;
    let val: u16 = 0b1011_1100_0001_0100;
    assert_eq!(split_u16(val), (a, b));
}

#[test]
fn merge_then_split_and_split_then_merge() {
    for hi in [0x00u8, 0x01, 0x7f, 0x80, 0xfe, 0xff] {
        for lo in [0x00u8, 0x10, 0x99, 0xff] {
            assert_eq!(split_u16(u8_to_u16(hi, lo)), (hi, lo));
        }
    }
    for v in [0x0000u16, 0x00ff, 0xff00, 0x1234, 0xffff] {
        let (hi, lo) = split_u16(v);
        assert_eq!(u8_to_u16(hi, lo), v);
    }
}
