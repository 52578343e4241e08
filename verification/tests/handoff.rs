use init::handoff::{decode_fd, encode_fd, fd_from_env, listener_mode, ListenerMode};

#[test]
fn encode_writes_decimal_digits() {
    assert_eq!(encode_fd(0), b"0".to_vec());
    assert_eq!(encode_fd(5), b"5".to_vec());
    assert_eq!(encode_fd(42), b"42".to_vec());
    assert_eq!(encode_fd(1000), b"1000".to_vec());
    assert_eq!(encode_fd(2147483647), b"2147483647".to_vec());
}

#[test]
fn decode_parses_decimal() {
    assert_eq!(decode_fd(&b"0".to_vec()).unwrap(), 0);
    assert_eq!(decode_fd(&b"42".to_vec()).unwrap(), 42);
    assert_eq!(decode_fd(&b"007".to_vec()).unwrap(), 7);
    assert_eq!(decode_fd(&b"+123".to_vec()).unwrap(), 123);
    assert_eq!(decode_fd(&b"-8".to_vec()).unwrap(), -8);
    assert_eq!(decode_fd(&b"2147483647".to_vec()).unwrap(), 2147483647);
    assert_eq!(decode_fd(&b"-2147483648".to_vec()).unwrap(), -2147483648);
}

#[test]
fn decode_rejects_garbage() {
    assert!(decode_fd(&b"".to_vec()).is_err());
    assert!(decode_fd(&b"+".to_vec()).is_err());
    assert!(decode_fd(&b"-".to_vec()).is_err());
    assert!(decode_fd(&b"abc".to_vec()).is_err());
    assert!(decode_fd(&b"12a".to_vec()).is_err());
    assert!(decode_fd(&b" 12".to_vec()).is_err());
    assert!(decode_fd(&b"1 2".to_vec()).is_err());
    assert!(decode_fd(&b"--4".to_vec()).is_err());
}

#[test]
fn decode_rejects_out_of_range() {
    assert!(decode_fd(&b"2147483648".to_vec()).is_err());
    assert!(decode_fd(&b"-2147483649".to_vec()).is_err());
    assert!(decode_fd(&b"99999999999999999999".to_vec()).is_err());
}

#[test]
fn round_trip_recovers_descriptor_number() {
    for fd in [0, 1, 3, 9, 10, 99, 100, 65535, 2147483647] {
        let encoded = encode_fd(fd);
        assert_eq!(decode_fd(&encoded).unwrap(), fd);
    }
}

#[test]
fn fd_from_env_reads_present_value() {
    assert_eq!(fd_from_env(&Some(b"42".to_vec())).unwrap(), 42);
    assert_eq!(fd_from_env(&Some(b"3".to_vec())).unwrap(), 3);
}

#[test]
fn fd_from_env_fails_without_value() {
    assert!(fd_from_env(&None).is_err());
    assert!(fd_from_env(&Some(b"".to_vec())).is_err());
    assert!(fd_from_env(&Some(b"not a number".to_vec())).is_err());
}

#[test]
fn listener_mode_inherits_parseable_descriptor() {
    assert_eq!(
        listener_mode(&Some(b"7".to_vec())),
        ListenerMode::Inherited(7)
    );
    assert_eq!(
        listener_mode(&Some(b"0".to_vec())),
        ListenerMode::Inherited(0)
    );
}

#[test]
fn listener_mode_falls_back_without_descriptor() {
    assert_eq!(listener_mode(&None), ListenerMode::SelfBind);
    assert_eq!(listener_mode(&Some(b"".to_vec())), ListenerMode::SelfBind);
    assert_eq!(
        listener_mode(&Some(b"four".to_vec())),
        ListenerMode::SelfBind
    );
    assert_eq!(
        listener_mode(&Some(b"2147483648".to_vec())),
        ListenerMode::SelfBind
    );
}
