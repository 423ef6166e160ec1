use wasi_common::host::{
    __wasi_prestat_dir, __wasi_prestat_t, __wasi_prestat_u, __WASI_EOVERFLOW,
    __WASI_PREOPENTYPE_DIR,
};
use wasi_common::memory::{enc_prestat, PRESTAT_SIZE};

fn prestat(pr_type: u8, pr_name_len: usize) -> __wasi_prestat_t {
    __wasi_prestat_t {
        pr_type,
        u: __wasi_prestat_u {
            dir: __wasi_prestat_dir { pr_name_len },
        },
    }
}

/// The position of the first byte that is not zero.
fn first_set(bytes: &[u8]) -> usize {
    bytes.iter().position(|b| *b != 0).unwrap()
}

#[test]
fn bindgen_test_layout___wasi_prestat_t() {
    assert_eq!(
        ::std::mem::size_of::<__wasi_prestat_t>(),
        16usize,
        "Size of: __wasi_prestat_t"
    );
    assert_eq!(
        ::std::mem::align_of::<__wasi_prestat_t>(),
        8usize,
        "Alignment of __wasi_prestat_t"
    );
    assert_eq!(
        first_set(&enc_prestat(&prestat(0xff, 0)).unwrap()),
        0usize,
        "Offset of field: __wasi_prestat_t::pr_type"
    );
    assert_eq!(
        first_set(&enc_prestat(&prestat(0, 1)).unwrap()),
        8usize,
        "Offset of field: __wasi_prestat_t::u"
    );
}

#[test]
fn bindgen_test_layout___wasi_prestat_t___wasi_prestat_u___wasi_prestat_u_dir_t() {
    assert_eq!(
        ::std::mem::size_of::<__wasi_prestat_dir>(),
        8usize,
        "Size of: __wasi_prestat_dir"
    );
    assert_eq!(
        ::std::mem::align_of::<__wasi_prestat_dir>(),
        8usize,
        "Alignment of __wasi_prestat_dir"
    );
    let encoded = enc_prestat(&prestat(0, 0x0403_0201)).unwrap();
    assert_eq!(
        first_set(&encoded[8..]),
        0usize,
        "Offset of field: __wasi_prestat_dir::pr_name_len"
    );
}

#[test]
fn bindgen_test_layout___wasi_prestat_t___wasi_prestat_u() {
    assert_eq!(
        ::std::mem::size_of::<__wasi_prestat_u>(),
        8usize,
        "Size of: __wasi_prestat_u"
    );
    assert_eq!(
        ::std::mem::align_of::<__wasi_prestat_u>(),
        8usize,
        "Alignment of __wasi_prestat_u"
    );
    let encoded = enc_prestat(&prestat(0, 0x0403_0201)).unwrap();
    assert_eq!(
        first_set(&encoded[8..]),
        0usize,
        "Offset of field: __wasi_prestat_u::dir"
    );
}

#[test]
fn prestat_is_sixteen_bytes_with_the_length_at_eight() {
    let encoded = enc_prestat(&prestat(__WASI_PREOPENTYPE_DIR, 0x0403_0201)).unwrap();
    assert_eq!(encoded.len(), PRESTAT_SIZE);
    assert_eq!(
        encoded,
        vec![0, 0, 0, 0, 0, 0, 0, 0, 1, 2, 3, 4, 0, 0, 0, 0]
    );
}

#[test]
fn prestat_name_longer_than_four_bytes_can_say_overflows() {
    assert_eq!(
        enc_prestat(&prestat(__WASI_PREOPENTYPE_DIR, u32::MAX as usize + 1)),
        Err(__WASI_EOVERFLOW)
    );
    assert!(enc_prestat(&prestat(__WASI_PREOPENTYPE_DIR, u32::MAX as usize)).is_ok());
}
