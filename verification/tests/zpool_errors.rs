use std::io;

use libzetta::zpool::errors::classify_text;
use libzetta::zpool::PropertyUpdate;
use libzetta::zpool::ZpoolError;
use libzetta::zpool::ZpoolErrorKind;

#[test]
fn error_parsing() {
    let vdev_reuse_text = b"invalid vdev specification\nuse '-f' to override the following errors:\n/vdevs/vdev0 is part of active pool 'tank'";
    let unknown_text = b"wat";

    let err = ZpoolError::from_stderr(vdev_reuse_text);

    assert_eq!(ZpoolErrorKind::VdevReuse, err.kind());
    if let ZpoolError::VdevReuse(vdev, pool) = err {
        assert_eq!("/vdevs/vdev0", vdev);
        assert_eq!("tank", pool);
    }

    let err = ZpoolError::from_stderr(unknown_text);
    assert_eq!(ZpoolErrorKind::Other, err.kind());
    if let ZpoolError::Other(text) = err {
        assert_eq!("wat", text);
    }

    let vdev_reuse_text = b"cannot create \'tests-8804202574521870666\': one or more vdevs refer to the same device, or one of\nthe devices is part of an active md or lvm device\n";
    let err = ZpoolError::from_stderr(vdev_reuse_text);
    assert_eq!(ZpoolErrorKind::VdevReuse, err.kind());
}

#[test]
fn io_error_from() {
    let cmd_not_found = io::Error::new(io::ErrorKind::NotFound, "oh no");
    let err = ZpoolError::from_io(cmd_not_found);
    assert_eq!(ZpoolErrorKind::CmdNotFound, err.kind());

    let other = io::Error::new(io::ErrorKind::Other, "oh now");
    let err = ZpoolError::from_io(other);
    assert_eq!(ZpoolErrorKind::Io, err.kind());
}

#[test]
fn num_error_from() {
    let int_err = "as".parse::<i8>().unwrap_err();
    let float_err = "as".parse::<f32>().unwrap_err();

    let err = ZpoolError::from(int_err);
    assert_eq!(ZpoolErrorKind::ParseError, err.kind());

    let err = ZpoolError::from(float_err);
    assert_eq!(ZpoolErrorKind::ParseError, err.kind());
}

#[test]
fn too_small() {
    let text = b"cannot create \'tests-5825559772339520034\': one or more devices is less than the minimum size (64M)\n";
    let err = ZpoolError::from_stderr(text);

    assert_eq!(ZpoolErrorKind::DeviceTooSmall, err.kind());
}

#[test]
fn permission_denied() {
    let text = b"cannot create \'tests-10742509212158788460\': permission denied\n";
    let err = ZpoolError::from_stderr(text);

    assert_eq!(ZpoolErrorKind::PermissionDenied, err.kind());
}

#[test]
fn too_small_exact_fixture() {
    let text = b"cannot create 'X': one or more devices is less than the minimum size (64M)\n";
    let err = ZpoolError::from_stderr(text);
    assert_eq!(ZpoolErrorKind::DeviceTooSmall, err.kind());
}

#[test]
fn permission_denied_exact_fixture() {
    let text = b"cannot create 'X': permission denied\n";
    let err = ZpoolError::from_stderr(text);
    assert_eq!(ZpoolErrorKind::PermissionDenied, err.kind());
}

#[test]
fn zol_reuse_has_empty_placeholders() {
    let text = b"cannot create 'tank': one or more vdevs refer to the same device, or one of\nthe devices is part of an active md or lvm device\n";
    let err = ZpoolError::from_stderr(text);
    assert_eq!(ZpoolErrorKind::VdevReuse, err.kind());
    if let ZpoolError::VdevReuse(vdev, pool) = err {
        assert_eq!("", vdev);
        assert_eq!("", pool);
    } else {
        panic!("expected a vdev-reuse error");
    }
}

#[test]
fn reuse_pool_name_capture_is_greedy() {
    // The pool-name capture is closed by the last quote of its word, so a
    // quote inside the name stays in the capture.
    let text = b"use '-f' to override the following errors:\n/dev/da0 is part of active pool 'ta'nk'";
    let err = ZpoolError::from_stderr(text);
    assert_eq!(ZpoolErrorKind::VdevReuse, err.kind());
    if let ZpoolError::VdevReuse(vdev, pool) = err {
        assert_eq!("/dev/da0", vdev);
        assert_eq!("ta'nk", pool);
    } else {
        panic!("expected a vdev-reuse error");
    }
}

#[test]
fn reuse_wins_over_later_patterns() {
    let text = b"cannot create 'tank': invalid vdev specification\nuse '-f' to override the following errors:\n/dev/da1 is part of active pool 'other'\nand one or more devices is less than the minimum size (64M)\n";
    let err = ZpoolError::from_stderr(text);
    assert_eq!(ZpoolErrorKind::VdevReuse, err.kind());
    if let ZpoolError::VdevReuse(vdev, pool) = err {
        assert_eq!("/dev/da1", vdev);
        assert_eq!("other", pool);
    }
}

#[test]
fn too_small_needs_a_size_word() {
    // The device-too-small pattern asks for the minimum size after its tail;
    // without one, the text stays unclassified.
    let text = b"cannot create 'x': one or more devices is less than the minimum size ";
    let err = ZpoolError::from_stderr(text);
    assert_eq!(ZpoolErrorKind::Other, err.kind());
}

#[test]
fn permission_denied_needs_trailing_newline() {
    let text = b"cannot create 'x': permission denied";
    let err = ZpoolError::from_stderr(text);
    assert_eq!(ZpoolErrorKind::Other, err.kind());
}

#[test]
fn reuse_retries_later_marker_occurrences() {
    // The first marker occurrence is followed by whitespace, so its tail
    // fails; the pattern still matches at the second occurrence.
    let text = b"following errors:\n \nthen again the following errors:\n/dev/da2 is part of active pool 'tank'";
    let err = ZpoolError::from_stderr(text);
    assert_eq!(ZpoolErrorKind::VdevReuse, err.kind());
    if let ZpoolError::VdevReuse(vdev, pool) = err {
        assert_eq!("/dev/da2", vdev);
        assert_eq!("tank", pool);
    }
}

#[test]
fn cannot_create_retries_later_marker_occurrences() {
    // After the first occurrence the word does not end in a colon; the
    // second occurrence carries the pattern.
    let text = b"cannot create foo, and cannot create 'x': permission denied\n";
    let err = ZpoolError::from_stderr(text);
    assert_eq!(ZpoolErrorKind::PermissionDenied, err.kind());
}

#[test]
fn unicode_whitespace_breaks_a_word() {
    // A no-break space has the Unicode White_Space property, so it ends the
    // vdev word and the rest of the pattern no longer lines up.
    let text = "following errors:\n/dev/da0\u{a0}x is part of active pool 'tank'".as_bytes();
    let err = ZpoolError::from_stderr(text);
    assert_eq!(ZpoolErrorKind::Other, err.kind());
}

#[test]
fn bare_marker_is_unclassified() {
    let err = ZpoolError::from_stderr(b"following errors:\n");
    assert_eq!(ZpoolErrorKind::Other, err.kind());
    let err = ZpoolError::from_stderr(b"cannot create ");
    assert_eq!(ZpoolErrorKind::Other, err.kind());
}

#[test]
fn invalid_utf8_is_decoded_lossily() {
    let text: &[u8] = &[b'w', b'a', b't', b' ', 0xff];
    let err = ZpoolError::from_stderr(text);
    assert_eq!(ZpoolErrorKind::Other, err.kind());
    if let ZpoolError::Other(message) = err {
        assert_eq!("wat \u{fffd}", message);
    } else {
        panic!("expected an unclassified error");
    }
}

#[test]
fn classify_text_matches_from_stderr() {
    let err = classify_text("cannot create 'x': permission denied\n");
    assert_eq!(ZpoolErrorKind::PermissionDenied, err.kind());
    let err = classify_text("anything else");
    assert_eq!(ZpoolErrorKind::Other, err.kind());
}

#[test]
fn classify_io_failure_is_exact() {
    let failure = io::Error::new(io::ErrorKind::PermissionDenied, "no");
    let err = ZpoolError::classify_io_failure(true, failure);
    assert_eq!(ZpoolErrorKind::CmdNotFound, err.kind());

    let failure = io::Error::new(io::ErrorKind::PermissionDenied, "no");
    let err = ZpoolError::classify_io_failure(false, failure);
    assert_eq!(ZpoolErrorKind::Io, err.kind());
}

#[test]
fn property_update_keys() {
    assert_eq!("autoexpand", PropertyUpdate::AutoExpand(true).key());
    assert_eq!("autoreplace", PropertyUpdate::AutoReplace(false).key());
    assert_eq!("cachefile", PropertyUpdate::CacheFile(String::new()).key());
    assert_eq!("comment", PropertyUpdate::Comment(String::new()).key());
    assert_eq!("delegation", PropertyUpdate::Delegation(true).key());
    assert_eq!(
        "failmode",
        PropertyUpdate::FailMode(libzetta::zpool::FailMode::Wait).key()
    );
}
