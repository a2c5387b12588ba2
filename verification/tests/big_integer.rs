use num_bigint::BigInt;
use stack_vm::big_integer::{BigInteger, BitOp};
use stack_vm::types::primitive_types::vm_integer::VMInteger;
use stack_vm::utility::{get_bit_length, mod_inverse, sqrt, strict_utf8_decode};

fn big(v: i128) -> BigInteger {
    BigInteger::from_i128(v)
}

fn val(b: &BigInteger) -> i128 {
    b.to_i128().unwrap()
}

#[test]
fn signed_bytes_round_trip() {
    assert_eq!(big(0).to_signed_bytes_le(), vec![0]);
    assert_eq!(big(127).to_signed_bytes_le(), vec![0x7F]);
    assert_eq!(big(128).to_signed_bytes_le(), vec![0x80, 0x00]);
    assert_eq!(big(-128).to_signed_bytes_le(), vec![0x80]);
    assert_eq!(big(-129).to_signed_bytes_le(), vec![0x7F, 0xFF]);
    assert_eq!(big(-1).to_signed_bytes_le(), vec![0xFF]);
    assert_eq!(val(&BigInteger::from_signed_bytes_le(&[0x7F, 0xFF])), -129);
    assert_eq!(val(&BigInteger::from_signed_bytes_le(&[])), 0);
    // A longer encoding of the same number is shortened.
    assert_eq!(
        BigInteger::from_signed_bytes_le(&[0x01, 0x00, 0x00]).to_signed_bytes_le(),
        vec![0x01]
    );
    assert_eq!(BigInteger::from_signed_bytes_le(&[0x01, 0x00, 0x00]).byte_len(), 1);
}

#[test]
fn arithmetic_matches_the_integers() {
    assert_eq!(val(&big(7).plus(&big(-9))), -2);
    assert_eq!(val(&big(7).minus(&big(-9))), 16);
    assert_eq!(val(&big(7).times(&big(-9))), -63);
    assert_eq!(val(&big(7).negate()), -7);
    assert_eq!(val(&big(-7).abs()), 7);
    assert_eq!(val(&big(-7).signum()), -1);
    assert_eq!(val(&big(0).signum()), 0);
    assert_eq!(val(&big(9).signum()), 1);
    assert_eq!(val(&big(5).invert()), -6);
    assert_eq!(val(&big(-1).invert()), 0);
}

#[test]
fn division_rounds_toward_zero() {
    assert_eq!(val(&big(7).checked_div(&big(2)).unwrap()), 3);
    assert_eq!(val(&big(-7).checked_div(&big(2)).unwrap()), -3);
    assert_eq!(val(&big(7).checked_div(&big(-2)).unwrap()), -3);
    assert_eq!(val(&big(-7).checked_div(&big(-2)).unwrap()), 3);
    assert_eq!(val(&big(7).checked_rem(&big(2)).unwrap()), 1);
    assert_eq!(val(&big(-7).checked_rem(&big(2)).unwrap()), -1);
    assert_eq!(val(&big(7).checked_rem(&big(-2)).unwrap()), 1);
    assert!(big(7).checked_div(&big(0)).is_none());
    assert!(big(7).checked_rem(&big(0)).is_none());
}

#[test]
fn powers_roots_and_shifts() {
    assert_eq!(val(&big(3).power(4)), 81);
    assert_eq!(val(&big(-2).power(3)), -8);
    assert_eq!(val(&big(5).power(0)), 1);
    assert_eq!(val(&big(17).checked_sqrt().unwrap()), 4);
    assert_eq!(val(&big(16).checked_sqrt().unwrap()), 4);
    assert_eq!(val(&big(0).checked_sqrt().unwrap()), 0);
    assert!(big(-1).checked_sqrt().is_none());
    assert_eq!(val(&big(3).shift_left(4)), 48);
    assert_eq!(val(&big(-3).shift_left(1)), -6);
    assert_eq!(val(&big(48).shift_right(4)), 3);
    assert_eq!(val(&big(-5).shift_right(1)), -3);
    assert_eq!(val(&big(-1).shift_right(5)), -1);
}

#[test]
fn modular_power_and_inverse() {
    assert_eq!(val(&big(4).checked_modpow(&big(13), &big(497)).unwrap()), 445);
    assert_eq!(val(&big(-4).checked_modpow(&big(3), &big(5)).unwrap()), 1);
    assert_eq!(val(&big(4).checked_modpow(&big(3), &big(-5)).unwrap()), -1);
    assert!(big(4).checked_modpow(&big(-2), &big(5)).is_none());
    assert!(big(4).checked_modpow(&big(2), &big(0)).is_none());
    assert_eq!(val(&mod_inverse(&big(271), &big(383)).unwrap()), 106);
    assert_eq!(val(&mod_inverse(&big(3), &big(7)).unwrap()), 5);
    assert!(mod_inverse(&big(2), &big(4)).is_none());
    assert!(mod_inverse(&big(0), &big(7)).is_none());
    assert!(mod_inverse(&big(-3), &big(7)).is_none());
    assert!(mod_inverse(&big(3), &big(1)).is_none());
}

#[test]
fn bitwise_operations_work_on_the_twos_complement() {
    assert_eq!(val(&big(0b1100).bit_op(BitOp::And, &big(0b1010))), 0b1000);
    assert_eq!(val(&big(0b1100).bit_op(BitOp::Or, &big(0b1010))), 0b1110);
    assert_eq!(val(&big(0b1100).bit_op(BitOp::Xor, &big(0b1010))), 0b0110);
    assert_eq!(val(&big(-1).bit_op(BitOp::And, &big(0xFF))), 0xFF);
    assert_eq!(val(&big(-256).bit_op(BitOp::Or, &big(1))), -255);
    assert_eq!(val(&big(-1).bit_op(BitOp::Xor, &big(1))), -2);
}

#[test]
fn comparisons_and_conversions() {
    assert!(big(-3).lt(&big(2)));
    assert!(!big(2).lt(&big(2)));
    assert!(big(2).le(&big(2)));
    assert!(big(2).equals(&big(2)));
    assert!(!big(2).equals(&big(-2)));
    assert!(big(-2).is_negative());
    assert!(big(0).is_zero());
    assert_eq!(big(300).to_i64(), Some(300));
    assert_eq!(big(300).to_i32(), Some(300));
    assert_eq!(big(300).to_usize(), Some(300));
    assert_eq!(big(-1).to_usize(), None);
    assert_eq!(big(i64::MAX as i128 + 1).to_i64(), None);
    assert_eq!(big(i32::MIN as i128 - 1).to_i32(), None);
    let huge = big(i128::MAX).times(&big(2));
    assert_eq!(huge.to_i128(), None);
    assert_eq!(huge.bits(), 128);
    assert_eq!(big(255).bits(), 8);
    assert_eq!(big(-256).bits(), 9);
    assert_eq!(BigInteger::from_i64(-5).to_i128(), Some(-5));
    assert_eq!(BigInteger::from_usize(5).to_i128(), Some(5));
}

#[test]
fn utility_functions() {
    assert_eq!(val(&sqrt(&big(1_000_000)).unwrap()), 1000);
    assert_eq!(val(&sqrt(&big(3)).unwrap()), 1);
    assert!(sqrt(&big(-4)).is_none());
    assert_eq!(get_bit_length(&big(0)), 0);
    assert_eq!(get_bit_length(&big(-1)), 0);
    assert_eq!(get_bit_length(&big(1)), 1);
    assert_eq!(get_bit_length(&big(255)), 8);
    assert_eq!(get_bit_length(&big(-255)), 8);
    assert_eq!(strict_utf8_decode(&[0x68, 0x69]), Some("hi".to_string()));
    assert_eq!(strict_utf8_decode(&[0xC3, 0xA9]), Some("é".to_string()));
    assert_eq!(strict_utf8_decode(&[0xFF, 0x00]), None);
    assert_eq!(strict_utf8_decode(&[0xC3]), None);
}

#[test]
fn integers_of_the_machine_hold_at_most_32_bytes() {
    let limit: BigInt = BigInt::from(1) << 255usize;
    let largest: BigInt = &limit - BigInt::from(1);
    let smallest: BigInt = -&limit;
    assert!(VMInteger::from_signed_bytes_le(&largest.to_signed_bytes_le()).is_some());
    assert!(VMInteger::from_signed_bytes_le(&smallest.to_signed_bytes_le()).is_some());
    assert!(VMInteger::from_signed_bytes_le(&limit.to_signed_bytes_le()).is_none());
    assert!(VMInteger::from_signed_bytes_le(&(smallest - BigInt::from(1)).to_signed_bytes_le()).is_none());
    let zero = VMInteger::from_i64(0);
    assert_eq!(zero.get_slice(), Vec::<u8>::new());
    assert_eq!(zero.size(), 0);
    assert!(!zero.get_boolean());
    let n = VMInteger::from_i64(-129);
    assert_eq!(n.get_slice(), vec![0x7F, 0xFF]);
    assert_eq!(n.memory(), vec![0x7F, 0xFF]);
    assert_eq!(n.size(), 2);
    assert!(n.get_boolean());
    assert!(n.equals(&VMInteger::from_i64(-129)));
    assert_eq!(VMInteger::from_usize(7).get_integer().to_i64(), Some(7));
    assert_eq!(VMInteger::from_bool(true).value().to_i64(), Some(1));
    assert!(VMInteger::try_new(BigInteger::from_i128(5)).is_some());
    assert_eq!(VMInteger::new(&BigInteger::from_i128(5)).value().to_i64(), Some(5));
}
