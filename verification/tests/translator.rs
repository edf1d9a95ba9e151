use syscalls::error::{error_from_code, result_from_code, Error};

#[test]
fn negative_codes_map_to_their_exact_error() {
    assert_eq!(error_from_code(-1), Error::Fail);
    assert_eq!(error_from_code(-2), Error::Busy);
    assert_eq!(error_from_code(-3), Error::Already);
    assert_eq!(error_from_code(-4), Error::Off);
    assert_eq!(error_from_code(-5), Error::Reserve);
    assert_eq!(error_from_code(-6), Error::Invalid);
    assert_eq!(error_from_code(-7), Error::Size);
    assert_eq!(error_from_code(-8), Error::Cancel);
    assert_eq!(error_from_code(-9), Error::Nomem);
    assert_eq!(error_from_code(-10), Error::Nosupport);
    assert_eq!(error_from_code(-11), Error::Nodevice);
    assert_eq!(error_from_code(-12), Error::Uninstalled);
    assert_eq!(error_from_code(-13), Error::Noack);
}

#[test]
fn unmapped_negative_codes_are_preserved_as_unknown() {
    assert_eq!(error_from_code(-14), Error::Unknown(-14));
    assert_eq!(error_from_code(-100), Error::Unknown(-100));
    assert_eq!(error_from_code(isize::MIN), Error::Unknown(isize::MIN));
}

#[test]
fn result_translation_errs_exactly_on_negative_codes() {
    assert_eq!(result_from_code(-1), Err(Error::Fail));
    assert_eq!(result_from_code(-9), Err(Error::Nomem));
    assert_eq!(result_from_code(-13), Err(Error::Noack));
    assert_eq!(result_from_code(-77), Err(Error::Unknown(-77)));
}

#[test]
fn non_negative_codes_are_success_with_the_code_as_payload() {
    assert_eq!(result_from_code(0), Ok(0));
    assert_eq!(result_from_code(1), Ok(1));
    assert_eq!(result_from_code(3), Ok(3));
    assert_eq!(result_from_code(4095), Ok(4095));
    assert_eq!(result_from_code(u32::MAX as isize), Ok(u32::MAX));
}
