use odbc_sys::{
    len_width, ulen_width, HDbc, HEnv, Len, RawHandle, ULen, MAX_MESSAGE_LENGTH, NO_TOTAL, NTS,
    NTSL, NULL_DATA, SQLSTATE_SIZE, SQLSTATE_SIZEW, SS_LENGTH_UNLIMITED,
};

#[test]
fn pointer_width_aliases() {
    let expected = std::mem::size_of::<usize>();
    assert_eq!(len_width(), expected);
    assert_eq!(ulen_width(), expected);
    assert_eq!(std::mem::size_of::<Len>(), expected);
    assert_eq!(std::mem::size_of::<ULen>(), expected);
    if usize::BITS == 64 {
        assert_eq!(len_width(), 8);
    } else {
        assert_eq!(usize::BITS, 32);
        assert_eq!(len_width(), 4);
    }
}

#[test]
fn sentinel_values() {
    assert_eq!(NTS, -3);
    assert_eq!(NTSL, -3);
    assert_eq!(NULL_DATA, -1);
    assert_eq!(NO_TOTAL, -4);
    assert_eq!(MAX_MESSAGE_LENGTH, 512);
    assert_eq!(SQLSTATE_SIZE, 5);
    assert_eq!(SQLSTATE_SIZEW, 10);
    assert_eq!(SS_LENGTH_UNLIMITED, 0);
}

#[test]
fn handles_are_address_wide() {
    let env: HEnv = RawHandle::from_address(0x1000);
    assert_eq!(env.address, 0x1000);
    assert!(!env.is_null());
    let dbc: HDbc = RawHandle::null();
    assert!(dbc.is_null());
    assert_eq!(std::mem::size_of::<HEnv>(), std::mem::size_of::<usize>());
    let copy = env;
    assert!(copy == env);
}
