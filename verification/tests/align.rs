use tcp_cong::align::{align, align_down, is_aligned, mask, Align};

const PAGE_SIZE: usize = 4096;

#[test]
fn test_const_fn() {
    assert_eq!(mask((PAGE_SIZE * 2) as usize, 0x03), PAGE_SIZE * 2);
    assert_eq!(mask((PAGE_SIZE * 2) as usize, 0x07), PAGE_SIZE * 2);
    assert_eq!(mask((PAGE_SIZE * 2) as usize, PAGE_SIZE - 1), PAGE_SIZE * 2);
    assert_eq!(align((PAGE_SIZE * 2) as usize, 4), PAGE_SIZE * 2);
    assert_eq!(align((PAGE_SIZE * 2) as usize, 8), PAGE_SIZE * 2);
    assert_eq!(align((PAGE_SIZE * 2) as usize, PAGE_SIZE), PAGE_SIZE * 2);
    assert_eq!(align_down((PAGE_SIZE * 2) as usize, 4), PAGE_SIZE * 2);
    assert_eq!(align_down((PAGE_SIZE * 2) as usize, 8), PAGE_SIZE * 2);
    assert_eq!(align_down((PAGE_SIZE * 2) as usize, PAGE_SIZE), PAGE_SIZE * 2);

    assert_eq!(mask((PAGE_SIZE * 2 - 2) as usize, 0x03), PAGE_SIZE * 2);
    assert_eq!(mask((PAGE_SIZE * 2 - 4) as usize, 0x07), PAGE_SIZE * 2);
    assert_eq!(mask((PAGE_SIZE * 2 - 512) as usize, PAGE_SIZE - 1), PAGE_SIZE * 2);
    assert_eq!(align((PAGE_SIZE * 2 - 2) as usize, 4), PAGE_SIZE * 2);
    assert_eq!(align((PAGE_SIZE * 2 - 4) as usize, 8), PAGE_SIZE * 2);
    assert_eq!(align((PAGE_SIZE * 2 - 512) as usize, PAGE_SIZE), PAGE_SIZE * 2);
    assert_eq!(align_down((PAGE_SIZE * 2 - 2) as usize, 4), PAGE_SIZE * 2 - 4);
    assert_eq!(align_down((PAGE_SIZE * 2 - 4) as usize, 8), PAGE_SIZE * 2 - 8);
    assert_eq!(align_down((PAGE_SIZE * 2 - 512) as usize, PAGE_SIZE), PAGE_SIZE);
}

#[test]
#[allow(overflowing_literals)]
fn test_integer_fn() {
    let val: u8 = 0xf0;
    assert_eq!((val).mask(4 - 1), val);
    assert_eq!((val).align(4), val);
    assert_eq!((val).align_down(4), val);
    assert_eq!(val.is_aligned(4), true);
    assert_eq!((val - 1).mask(4 - 1), val);
    assert_eq!((val - 1).align(4), val);
    assert_eq!((val - 1).align_down(4), val - 4);
    assert_eq!((val - 1).is_aligned(4), false);

    let val: i8 = 0xf0 as i8;
    assert_eq!((val).mask(4 - 1), val);
    assert_eq!((val).align(4), val);
    assert_eq!((val).align_down(4), val);
    assert_eq!(val.is_aligned(4), true);
    assert_eq!((val - 1).mask(4 - 1), val);
    assert_eq!((val - 1).align(4), val);
    assert_eq!((val - 1).align_down(4), val - 4);
    assert_eq!((val - 1).is_aligned(4), false);

    let val: u16 = 0xf000;
    assert_eq!((val).mask(4 - 1), val);
    assert_eq!((val).align(4), val);
    assert_eq!((val).align_down(4), val);
    assert_eq!(val.is_aligned(4), true);
    assert_eq!((val - 1).mask(4 - 1), val);
    assert_eq!((val - 1).align(4), val);
    assert_eq!((val - 1).align_down(4), val - 4);
    assert_eq!((val - 1).is_aligned(4), false);

    let val: i16 = 0xf000 as i16;
    assert_eq!((val).mask(4 - 1), val);
    assert_eq!((val).align(4), val);
    assert_eq!((val).align_down(4), val);
    assert_eq!(val.is_aligned(4), true);
    assert_eq!((val - 1).mask(4 - 1), val);
    assert_eq!((val - 1).align(4), val);
    assert_eq!((val - 1).align_down(4), val - 4);
    assert_eq!((val - 1).is_aligned(4), false);

    let val: u32 = 0xf0000000;
    assert_eq!((val).mask(4 - 1), val);
    assert_eq!((val).align(4), val);
    assert_eq!((val).align_down(4), val);
    assert_eq!(val.is_aligned(4), true);
    assert_eq!((val - 1).mask(4 - 1), val);
    assert_eq!((val - 1).align(4), val);
    assert_eq!((val - 1).align_down(4), val - 4);
    assert_eq!((val - 1).is_aligned(4), false);

    let val: i32 = 0xf0000000 as i32;
    assert_eq!((val).mask(4 - 1), val);
    assert_eq!((val).align(4), val);
    assert_eq!((val).align_down(4), val);
    assert_eq!(val.is_aligned(4), true);
    assert_eq!((val - 1).mask(4 - 1), val);
    assert_eq!((val - 1).align(4), val);
    assert_eq!((val - 1).align_down(4), val - 4);
    assert_eq!((val - 1).is_aligned(4), false);

    let val: u64 = 0xf000000000000000;
    assert_eq!((val).mask(4 - 1), val);
    assert_eq!((val).align(4), val);
    assert_eq!((val).align_down(4), val);
    assert_eq!(val.is_aligned(4), true);
    assert_eq!((val - 1).mask(4 - 1), val);
    assert_eq!((val - 1).align(4), val);
    assert_eq!((val - 1).align_down(4), val - 4);
    assert_eq!((val - 1).is_aligned(4), false);

    let val: i64 = 0xf000000000000000 as i64;
    assert_eq!((val).mask(4 - 1), val);
    assert_eq!((val).align(4), val);
    assert_eq!((val).align_down(4), val);
    assert_eq!(val.is_aligned(4), true);
    assert_eq!((val - 1).mask(4 - 1), val);
    assert_eq!((val - 1).align(4), val);
    assert_eq!((val - 1).align_down(4), val - 4);
    assert_eq!((val - 1).is_aligned(4), false);

    let val: usize = 0xf0;
    assert_eq!((val).mask(4 - 1), val);
    assert_eq!((val).align(4), val);
    assert_eq!((val).align_down(4), val);
    assert_eq!(val.is_aligned(4), true);
    assert_eq!((val - 1).mask(4 - 1), val);
    assert_eq!((val - 1).align(4), val);
    assert_eq!((val - 1).align_down(4), val - 4);
    assert_eq!((val - 1).is_aligned(4), false);

    let val: isize = 0xf0 as isize;
    assert_eq!((val).mask(4 - 1), val);
    assert_eq!((val).align(4), val);
    assert_eq!((val).align_down(4), val);
    assert_eq!(val.is_aligned(4), true);
    assert_eq!((val - 1).mask(4 - 1), val);
    assert_eq!((val - 1).align(4), val);
    assert_eq!((val - 1).align_down(4), val - 4);
    assert_eq!((val - 1).is_aligned(4), false);
}

#[test]
fn align_rounds_to_next_multiple() {
    assert_eq!(align(1, 8), 8);
    assert_eq!(align(9, 8), 16);
    assert_eq!(align(0, 16), 0);
    assert_eq!(align_down(9, 8), 8);
    assert!(is_aligned(0, 4));
    assert!(!is_aligned(2, 4));
}
