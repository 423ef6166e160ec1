//! How the guest sees structured values: their layout in its memory.

use crate::host;
use vstd::bytes::*;
use vstd::prelude::*;

verus! {

/// Size of an encoded `__wasi_prestat_t`; the type stands at offset 0 and the
/// length of the name at offset 8, as four bytes.
pub const PRESTAT_SIZE: usize = 16;

/// Size of an encoded `__wasi_dirent_t` header: `d_next` at offset 0, `d_ino`
/// at 8, `d_namlen` at 16, `d_type` at 20.
pub const DIRENT_SIZE: usize = 24;

/// Size of an encoded `__wasi_filestat_t`: `st_dev` at offset 0, `st_ino` at
/// 8, `st_filetype` at 16, `st_nlink` at 20, `st_size` at 24, `st_atim` at 32,
/// `st_mtim` at 40, `st_ctim` at 48.
pub const FILESTAT_SIZE: usize = 56;

/// `n` zero bytes.
pub open spec fn zeros(n: nat) -> Seq<u8> {
    Seq::new(n, |i: int| 0u8)
}

/// The bytes of a prestat whose name is `name_len` bytes long.
pub open spec fn prestat_bytes(pr_type: host::__wasi_preopentype_t, name_len: u32) -> Seq<u8> {
    seq![pr_type] + zeros(7) + spec_u32_to_le_bytes(name_len) + zeros(4)
}

/// The bytes of a directory entry header.
pub open spec fn dirent_bytes(dirent: host::__wasi_dirent_t) -> Seq<u8> {
    spec_u64_to_le_bytes(dirent.d_next) + spec_u64_to_le_bytes(dirent.d_ino)
        + spec_u32_to_le_bytes(dirent.d_namlen) + seq![dirent.d_type] + zeros(3)
}

/// The bytes of a filestat.
pub open spec fn filestat_bytes(filestat: host::__wasi_filestat_t) -> Seq<u8> {
    spec_u64_to_le_bytes(filestat.st_dev) + spec_u64_to_le_bytes(filestat.st_ino)
        + seq![filestat.st_filetype] + zeros(3) + spec_u32_to_le_bytes(filestat.st_nlink)
        + spec_u64_to_le_bytes(filestat.st_size) + spec_u64_to_le_bytes(filestat.st_atim)
        + spec_u64_to_le_bytes(filestat.st_mtim) + spec_u64_to_le_bytes(filestat.st_ctim)
}

fn put_zeros(out: &mut Vec<u8>, n: usize)
    ensures
        final(out)@ == old(out)@ + zeros(n as nat),
{
    let mut i: usize = 0;
    while i < n
        invariant
            i <= n,
            out@ == old(out)@ + zeros(i as nat),
        decreases n - i,
    {
        out.push(0u8);
        i += 1;
        assert(out@ =~= old(out)@ + zeros(i as nat));
    }
    assert(out@ =~= old(out)@ + zeros(n as nat));
}

fn put_u32(out: &mut Vec<u8>, x: u32)
    ensures
        final(out)@ == old(out)@ + spec_u32_to_le_bytes(x),
{
    let mut bytes = u32_to_le_bytes(x);
    out.append(&mut bytes);
}

fn put_u64(out: &mut Vec<u8>, x: u64)
    ensures
        final(out)@ == old(out)@ + spec_u64_to_le_bytes(x),
{
    let mut bytes = u64_to_le_bytes(x);
    out.append(&mut bytes);
}

/// The bytes of `prestat` as the guest reads them. A name whose length does
/// not fit in four bytes is `EOVERFLOW`.
pub fn enc_prestat(prestat: &host::__wasi_prestat_t) -> (res: Result<Vec<u8>, host::__wasi_errno_t>)
    ensures
        prestat.u.dir.pr_name_len <= u32::MAX ==> res.is_ok() && res.unwrap()@ == prestat_bytes(
            prestat.pr_type,
            prestat.u.dir.pr_name_len as u32,
        ) && res.unwrap()@.len() == PRESTAT_SIZE,
        prestat.u.dir.pr_name_len > u32::MAX ==> res == Err::<Vec<u8>, _>(
            host::__WASI_EOVERFLOW,
        ),
{
    if prestat.u.dir.pr_name_len > u32::MAX as usize {
        return Err(host::__WASI_EOVERFLOW);
    }
    let mut out: Vec<u8> = Vec::new();
    out.push(prestat.pr_type);
    put_zeros(&mut out, 7);
    put_u32(&mut out, prestat.u.dir.pr_name_len as u32);
    put_zeros(&mut out, 4);
    proof {
        lemma_auto_spec_u32_to_from_le_bytes();
        assert(out@ =~= prestat_bytes(prestat.pr_type, prestat.u.dir.pr_name_len as u32));
    }
    Ok(out)
}

/// The bytes of a directory entry header as the guest reads them.
pub fn enc_dirent(dirent: &host::__wasi_dirent_t) -> (out: Vec<u8>)
    ensures
        out@ == dirent_bytes(*dirent),
        out@.len() == DIRENT_SIZE,
{
    let mut out: Vec<u8> = Vec::new();
    put_u64(&mut out, dirent.d_next);
    put_u64(&mut out, dirent.d_ino);
    put_u32(&mut out, dirent.d_namlen);
    out.push(dirent.d_type);
    put_zeros(&mut out, 3);
    proof {
        lemma_auto_spec_u32_to_from_le_bytes();
        lemma_auto_spec_u64_to_from_le_bytes();
        assert(out@ =~= dirent_bytes(*dirent));
    }
    out
}

/// The bytes of a filestat as the guest reads them.
pub fn enc_filestat(filestat: &host::__wasi_filestat_t) -> (out: Vec<u8>)
    ensures
        out@ == filestat_bytes(*filestat),
        out@.len() == FILESTAT_SIZE,
{
    let mut out: Vec<u8> = Vec::new();
    put_u64(&mut out, filestat.st_dev);
    put_u64(&mut out, filestat.st_ino);
    out.push(filestat.st_filetype);
    put_zeros(&mut out, 3);
    put_u32(&mut out, filestat.st_nlink);
    put_u64(&mut out, filestat.st_size);
    put_u64(&mut out, filestat.st_atim);
    put_u64(&mut out, filestat.st_mtim);
    put_u64(&mut out, filestat.st_ctim);
    proof {
        lemma_auto_spec_u32_to_from_le_bytes();
        lemma_auto_spec_u64_to_from_le_bytes();
        assert(out@ =~= filestat_bytes(*filestat));
    }
    out
}

/// The header of a directory entry always takes `DIRENT_SIZE` bytes.
pub proof fn lemma_dirent_bytes_len(dirent: host::__wasi_dirent_t)
    ensures
        dirent_bytes(dirent).len() == DIRENT_SIZE,
{
    lemma_auto_spec_u32_to_from_le_bytes();
    lemma_auto_spec_u64_to_from_le_bytes();
}

} // verus!
