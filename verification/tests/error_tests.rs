use lib::error::{from_kernel_result, from_kernel_result_u64, Error, EINVAL, MAX_ERRNO};

#[test]
fn einval_carries_minus_22() {
    assert_eq!(Error::einval().to_kernel_errno(), -22);
    assert_eq!(EINVAL, 22);
}

#[test]
fn from_kernel_errno_keeps_valid_numbers() {
    assert_eq!(Error::from_kernel_errno(-5).to_kernel_errno(), -5);
    assert_eq!(Error::from_kernel_errno(-1).to_kernel_errno(), -1);
    assert_eq!(Error::from_kernel_errno(-MAX_ERRNO).to_kernel_errno(), -4095);
}

#[test]
fn from_kernel_errno_turns_invalid_numbers_into_einval() {
    assert_eq!(Error::from_kernel_errno(0), Error::einval());
    assert_eq!(Error::from_kernel_errno(7), Error::einval());
    assert_eq!(Error::from_kernel_errno(-4096), Error::einval());
    assert_eq!(Error::from_kernel_errno(i32::MIN).to_kernel_errno(), -22);
}

#[test]
fn from_kernel_result_gives_value_or_errno() {
    assert_eq!(from_kernel_result(Ok(17)), 17);
    assert_eq!(from_kernel_result(Ok(-3)), -3);
    assert_eq!(from_kernel_result(Err(Error::einval())), -22);
    assert_eq!(from_kernel_result(Err(Error::from_kernel_errno(-12))), -12);
}

#[test]
fn from_kernel_result_u64_sign_extends_errors() {
    assert_eq!(from_kernel_result_u64(Ok(0x1234)), 0x1234);
    assert_eq!(from_kernel_result_u64(Ok(u64::MAX)), u64::MAX);
    assert_eq!(from_kernel_result_u64(Err(Error::einval())), (-22i64) as u64);
    assert_eq!(from_kernel_result_u64(Err(Error::from_kernel_errno(-1))), u64::MAX);
    assert_eq!(
        from_kernel_result_u64(Err(Error::from_kernel_errno(-4095))),
        0xFFFF_FFFF_FFFF_F001
    );
}

#[test]
fn errno_round_trip() {
    for n in [-1, -5, -22, -4095] {
        let e = Error::from_kernel_errno(n);
        assert_eq!(Error::from_kernel_errno(e.to_kernel_errno()), e);
    }
    let e = Error::einval();
    assert_eq!(Error::from_kernel_errno(e.to_kernel_errno()), e);
}
