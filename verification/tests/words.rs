//! The unsigned words: their operations and the way a sampler reads them.

use etf::num::{numerator_of, uniform_numerator, UInt};
use etf::primitives::layout::{max_switch, split, split_symmetric};
use etf::primitives::partition::{
    Partition, P1024, P128, P16, P2048, P256, P32, P4096, P512, P64,
};
use rand_core::{Error, RngCore};

/// A generator that hands out the words it was given, in turn: the low half
/// of each to `next_u32`, the whole to `next_u64`.
struct Script {
    words: Vec<u64>,
    next: usize,
}

impl Script {
    fn new(words: &[u64]) -> Self {
        Script { words: words.to_vec(), next: 0 }
    }
}

impl RngCore for Script {
    fn next_u32(&mut self) -> u32 {
        self.next_u64() as u32
    }
    fn next_u64(&mut self) -> u64 {
        let w = self.words[self.next];
        self.next += 1;
        w
    }
    fn fill_bytes(&mut self, dest: &mut [u8]) {
        for b in dest.iter_mut() {
            *b = self.next_u64() as u8;
        }
    }
    fn try_fill_bytes(&mut self, dest: &mut [u8]) -> Result<(), Error> {
        self.fill_bytes(dest);
        Ok(())
    }
}

/// A generator whose 32-bit and 64-bit words cannot be mistaken for one
/// another.
struct TwoStreams;

impl RngCore for TwoStreams {
    fn next_u32(&mut self) -> u32 {
        0x3232_3232
    }
    fn next_u64(&mut self) -> u64 {
        0x6464_6464_6464_6464
    }
    fn fill_bytes(&mut self, dest: &mut [u8]) {
        for b in dest.iter_mut() {
            *b = 0;
        }
    }
    fn try_fill_bytes(&mut self, dest: &mut [u8]) -> Result<(), Error> {
        self.fill_bytes(dest);
        Ok(())
    }
}

fn test_rng() -> impl RngCore {
    rand_pcg::Lcg128Xsl64::new(0xcafef00dd15ea5e5, 0xa02bdbf7bb3c0a7ac28fa16a64abf96)
}

#[test]
fn word_constants() {
    assert_eq!(<u32 as UInt>::bits(), 32);
    assert_eq!(<u64 as UInt>::bits(), 64);
    assert_eq!(<u32 as UInt>::significand_bits(), 23);
    assert_eq!(<u64 as UInt>::significand_bits(), 52);
    assert_eq!(<u32 as UInt>::zero(), 0);
    assert_eq!(<u64 as UInt>::zero(), 0);
    assert_eq!(<u32 as UInt>::one(), 1);
    assert_eq!(<u64 as UInt>::one(), 1);
    assert_eq!(<u32 as UInt>::max(), 0xffff_ffff);
    assert_eq!(<u64 as UInt>::max(), 0xffff_ffff_ffff_ffff);
    assert_eq!(<u32 as UInt>::select(0x3f80_0000, 0x3ff0_0000_0000_0000), 0x3f80_0000);
    assert_eq!(<u64 as UInt>::select(0x3f80_0000, 0x3ff0_0000_0000_0000), 0x3ff0_0000_0000_0000);
}

#[test]
fn arithmetic_right_shift_copies_the_top_bit() {
    assert_eq!(UInt::arithmetic_right_shift(0x8000_0000u32, 4), 0xf800_0000);
    assert_eq!(UInt::arithmetic_right_shift(0x4000_0000u32, 4), 0x0400_0000);
    assert_eq!(UInt::arithmetic_right_shift(0x8000_0001u32, 31), 0xffff_ffff);
    assert_eq!(UInt::arithmetic_right_shift(0x7fff_ffffu32, 31), 0);
    assert_eq!(UInt::arithmetic_right_shift(0xdead_beefu32, 0), 0xdead_beef);
    assert_eq!(UInt::arithmetic_right_shift(0xdead_beefu32, 24), 0xffff_ffde);
    assert_eq!(UInt::arithmetic_right_shift(0x8000_0000_0000_0000u64, 4), 0xf800_0000_0000_0000);
    assert_eq!(UInt::arithmetic_right_shift(0x4000_0000_0000_0000u64, 4), 0x0400_0000_0000_0000);
    assert_eq!(UInt::arithmetic_right_shift(0x8000_0000_0000_0001u64, 63), 0xffff_ffff_ffff_ffff);
    assert_eq!(UInt::arithmetic_right_shift(0x7fff_ffff_ffff_ffffu64, 63), 0);
    assert_eq!(UInt::arithmetic_right_shift(0x0123_4567_89ab_cdefu64, 0), 0x0123_4567_89ab_cdef);
    assert_eq!(UInt::arithmetic_right_shift(0xf123_4567_89ab_cdefu64, 52), 0xffff_ffff_ffff_ff12);
}

#[test]
fn word_operations() {
    assert_eq!(UInt::shl(0xffff_ffffu32, 4), 0xffff_fff0);
    assert_eq!(UInt::shl(1u32, 31), 0x8000_0000);
    assert_eq!(UInt::shl(0xffff_ffff_ffff_ffffu64, 60), 0xf000_0000_0000_0000);
    assert_eq!(UInt::shr(0xffff_ffffu32, 4), 0x0fff_ffff);
    assert_eq!(UInt::shr(0x8000_0000_0000_0000u64, 63), 1);
    assert_eq!(UInt::bitand(0xff00_ff00u32, 0x0ff0_0ff0), 0x0f00_0f00);
    assert_eq!(UInt::bitand(0xff00_ff00_ff00u64, 0x0ff0_0ff0_0ff0), 0x0f00_0f00_0f00);
    assert_eq!(UInt::bitxor(0xff00_ff00u32, 0x0ff0_0ff0), 0xf0f0_f0f0);
    assert_eq!(UInt::bitxor(0xff00_ff00_ff00u64, 0x0ff0_0ff0_0ff0), 0xf0f0_f0f0_f0f0);
    assert_eq!(UInt::add(10u32, 3), 13);
    assert_eq!(UInt::add(0xffff_fffeu32, 1), 0xffff_ffff);
    assert_eq!(UInt::add(0xffff_ffff_ffff_fff0u64, 0xf), 0xffff_ffff_ffff_ffff);
    assert_eq!(UInt::sub(10u32, 3), 7);
    assert_eq!(UInt::sub(0x1_0000_0000u64, 1), 0xffff_ffff);
    assert!(UInt::le(3u32, 3));
    assert!(UInt::le(2u32, 3));
    assert!(!UInt::le(4u32, 3));
    assert!(UInt::gt(4u64, 3));
    assert!(!UInt::gt(3u64, 3));
    assert!(!UInt::gt(2u64, 3));
    assert_eq!(UInt::as_usize(4095u32), 4095usize);
    assert_eq!(UInt::as_usize(4095u64), 4095usize);
}

#[test]
fn each_word_type_draws_words_of_its_own_width() {
    let mut rng = TwoStreams;
    assert_eq!(<u32 as UInt>::gen(&mut rng), 0x3232_3232);
    assert_eq!(<u64 as UInt>::gen(&mut rng), 0x6464_6464_6464_6464);
}

#[test]
fn words_come_in_the_order_of_the_generator() {
    let mut rng = Script::new(&[7, 0xffff_ffff_0000_0009, 11]);
    assert_eq!(<u64 as UInt>::gen(&mut rng), 7);
    assert_eq!(<u32 as UInt>::gen(&mut rng), 9);
    assert_eq!(<u64 as UInt>::gen(&mut rng), 11);
}

#[test]
fn uniform_numerator_stays_below_the_denominator() {
    // The largest word gives the largest numerator, one below the denominator.
    let mut rng = Script::new(&[0xffff_ffff_ffff_ffff, 0xffff_ffff_ffff_ffff]);
    assert_eq!(uniform_numerator::<u32, _>(&mut rng), (1u32 << 24) - 1);
    assert_eq!(uniform_numerator::<u64, _>(&mut rng), (1u64 << 53) - 1);
    // The numerator is made of the top bits of the word.
    let mut rng = Script::new(&[0, 0, 0x100, 0x800, 0xff, 0x7ff, 0x8000_0000, 1u64 << 63]);
    assert_eq!(uniform_numerator::<u32, _>(&mut rng), 0);
    assert_eq!(uniform_numerator::<u64, _>(&mut rng), 0);
    assert_eq!(uniform_numerator::<u32, _>(&mut rng), 1);
    assert_eq!(uniform_numerator::<u64, _>(&mut rng), 1);
    assert_eq!(uniform_numerator::<u32, _>(&mut rng), 0);
    assert_eq!(uniform_numerator::<u64, _>(&mut rng), 0);
    assert_eq!(uniform_numerator::<u32, _>(&mut rng), 1 << 23);
    assert_eq!(uniform_numerator::<u64, _>(&mut rng), 1 << 52);
    let mut rng = test_rng();
    for _ in 0..100_000 {
        assert!(uniform_numerator::<u32, _>(&mut rng) < (1 << 24));
        assert!(uniform_numerator::<u64, _>(&mut rng) < (1 << 53));
    }
}

#[test]
fn partition_sizes() {
    assert_eq!((P16::bits(), P16::size()), (4, 16));
    assert_eq!((P32::bits(), P32::size()), (5, 32));
    assert_eq!((P64::bits(), P64::size()), (6, 64));
    assert_eq!((P128::bits(), P128::size()), (7, 128));
    assert_eq!((P256::bits(), P256::size()), (8, 256));
    assert_eq!((P512::bits(), P512::size()), (9, 512));
    assert_eq!((P1024::bits(), P1024::size()), (10, 1024));
    assert_eq!((P2048::bits(), P2048::size()), (11, 2048));
    assert_eq!((P4096::bits(), P4096::size()), (12, 4096));
}

#[test]
fn max_switch_has_all_fraction_bits_set() {
    assert_eq!(max_switch::<P16, u32>(false), (1 << 28) - 1);
    assert_eq!(max_switch::<P256, u32>(false), (1 << 24) - 1);
    assert_eq!(max_switch::<P16, u32>(true), (1 << 27) - 1);
    assert_eq!(max_switch::<P128, u32>(true), (1 << 24) - 1);
    assert_eq!(max_switch::<P16, u64>(false), (1 << 60) - 1);
    assert_eq!(max_switch::<P256, u64>(false), (1 << 56) - 1);
    assert_eq!(max_switch::<P4096, u64>(false), (1 << 52) - 1);
    assert_eq!(max_switch::<P256, u64>(true), (1 << 55) - 1);
    assert_eq!(max_switch::<P2048, u64>(true), (1 << 52) - 1);
    assert_eq!(max_switch::<P512, u64>(true), (1 << 54) - 1);
    assert_eq!(max_switch::<P1024, u64>(false), (1 << 54) - 1);
    assert_eq!(max_switch::<P32, u32>(true), (1 << 26) - 1);
    assert_eq!(max_switch::<P64, u32>(false), (1 << 26) - 1);
}

#[test]
fn split_takes_the_index_from_the_top() {
    let parts = split::<P256, u32>(0xabcd_ef01);
    assert_eq!((parts.index, parts.fraction, parts.sign), (0xab, 0xcd_ef01, 0));
    let parts = split::<P16, u64>(0xf123_4567_89ab_cdef);
    assert_eq!((parts.index, parts.fraction, parts.sign), (0xf, 0x0123_4567_89ab_cdef, 0));
    let parts = split::<P4096, u64>(0xf123_4567_89ab_cdef);
    assert_eq!((parts.index, parts.fraction, parts.sign), (0xf12, 0x3_4567_89ab_cdef, 0));
    let parts = split::<P16, u32>(0);
    assert_eq!((parts.index, parts.fraction, parts.sign), (0, 0, 0));
}

#[test]
fn split_symmetric_takes_the_sign_from_the_top_bit() {
    let parts = split_symmetric::<P128, u32>(0x8000_0000 | (0x55 << 24) | 0x12_3456);
    assert_eq!((parts.index, parts.fraction, parts.sign), (0x55, 0x12_3456, 0x8000_0000));
    let parts = split_symmetric::<P128, u32>((0x55 << 24) | 0x12_3456);
    assert_eq!((parts.index, parts.fraction, parts.sign), (0x55, 0x12_3456, 0));
    let parts = split_symmetric::<P256, u64>(0xf123_4567_89ab_cdef);
    assert_eq!(
        (parts.index, parts.fraction, parts.sign),
        (0xe2, 0x23_4567_89ab_cdef, 1 << 63)
    );
    let parts = split_symmetric::<P16, u32>(0x7fff_ffff);
    assert_eq!((parts.index, parts.fraction, parts.sign), (15, (1 << 27) - 1, 0));
}

#[test]
fn the_largest_word_selects_the_last_cell_not_the_end_node() {
    assert_eq!(split::<P16, u32>(u32::MAX).index, 15);
    assert_eq!(split::<P256, u32>(u32::MAX).index, 255);
    assert_eq!(split::<P4096, u64>(u64::MAX).index, 4095);
    assert_eq!(split_symmetric::<P16, u32>(u32::MAX).index, 15);
    assert_eq!(split_symmetric::<P128, u32>(u32::MAX).index, 127);
    assert_eq!(split_symmetric::<P2048, u64>(u64::MAX).index, 2047);
    let mut rng = test_rng();
    for _ in 0..100_000 {
        let r = rng.next_u64();
        assert!(split::<P512, u64>(r).index < 512);
        assert!(split_symmetric::<P512, u64>(r).index < 512);
        assert!(split::<P64, u32>(r as u32).index < 64);
        assert!(split_symmetric::<P64, u32>(r as u32).index < 64);
    }
}

#[test]
fn the_fields_make_up_the_word() {
    let mut rng = test_rng();
    for _ in 0..100_000 {
        let r = rng.next_u64();
        let parts = split::<P1024, u64>(r);
        assert_eq!(((parts.index as u64) << 54) + parts.fraction, r);
        assert!(parts.fraction <= max_switch::<P1024, u64>(false));
        let parts = split_symmetric::<P1024, u64>(r);
        assert_eq!(parts.sign + ((parts.index as u64) << 53) + parts.fraction, r);
        assert!(parts.fraction <= max_switch::<P1024, u64>(true));
        assert!(parts.sign == 0 || parts.sign == 1 << 63);
        let r = r as u32;
        let parts = split::<P32, u32>(r);
        assert_eq!(((parts.index as u32) << 27) + parts.fraction, r);
        assert!(parts.fraction <= max_switch::<P32, u32>(false));
        let parts = split_symmetric::<P32, u32>(r);
        assert_eq!(parts.sign + ((parts.index as u32) << 26) + parts.fraction, r);
        assert!(parts.fraction <= max_switch::<P32, u32>(true));
        assert!(parts.sign == 0 || parts.sign == 1 << 31);
    }
}

#[test]
fn the_top_bit_only_sets_the_sign() {
    let mut rng = test_rng();
    let mut negative = 0u32;
    let n = 100_000;
    for _ in 0..n {
        let r = rng.next_u64();
        let a = split_symmetric::<P256, u64>(r);
        let b = split_symmetric::<P256, u64>(r ^ (1 << 63));
        assert_eq!((a.index, a.fraction), (b.index, b.fraction));
        assert_eq!(a.sign ^ b.sign, 1 << 63);
        let r = r as u32;
        let a = split_symmetric::<P128, u32>(r);
        let b = split_symmetric::<P128, u32>(r ^ (1 << 31));
        assert_eq!((a.index, a.fraction), (b.index, b.fraction));
        assert_eq!(a.sign ^ b.sign, 1 << 31);
        if a.sign != 0 {
            negative += 1;
        }
    }
    // The sign of a random word is a fair coin: within five standard
    // deviations of one half.
    let deviation = (negative as f64 - 0.5 * n as f64).abs();
    assert!(deviation < 5.0 * (0.25 * n as f64).sqrt());
}

#[test]
fn the_numerator_is_the_top_of_the_word() {
    assert_eq!(numerator_of(u32::MAX), (1 << 24) - 1);
    assert_eq!(numerator_of(0u32), 0);
    assert_eq!(numerator_of(0x1234_5678u32), 0x12_3456);
    assert_eq!(numerator_of(u64::MAX), (1 << 53) - 1);
    assert_eq!(numerator_of(0x8000_0000_0000_07ffu64), 1 << 52);
}
