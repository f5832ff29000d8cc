use openpgp_parser::{check_hash_algorithm, pkey_alg_mpis, read_mpi, AllowWeakHashes, Error, Reader};

#[test]
fn hash_policy_sha256_always_accepted() {
    assert_eq!(check_hash_algorithm(8, AllowWeakHashes::No), Ok(32));
    assert_eq!(check_hash_algorithm(8, AllowWeakHashes::Yes), Ok(32));
    assert_eq!(check_hash_algorithm(9, AllowWeakHashes::No), Ok(48));
    assert_eq!(check_hash_algorithm(10, AllowWeakHashes::No), Ok(64));
}

#[test]
fn hash_policy_weak_hashes_gated() {
    assert_eq!(
        check_hash_algorithm(2, AllowWeakHashes::No),
        Err(Error::InsecureAlgorithm(2))
    );
    assert_eq!(check_hash_algorithm(2, AllowWeakHashes::Yes), Ok(20));
    assert_eq!(check_hash_algorithm(1, AllowWeakHashes::Yes), Ok(16));
    assert_eq!(check_hash_algorithm(11, AllowWeakHashes::Yes), Ok(28));
    assert_eq!(
        check_hash_algorithm(11, AllowWeakHashes::No),
        Err(Error::InsecureAlgorithm(11))
    );
    assert_eq!(
        check_hash_algorithm(3, AllowWeakHashes::Yes),
        Err(Error::InsecureAlgorithm(3))
    );
}

#[test]
fn hash_policy_unsupported_codes() {
    assert_eq!(
        check_hash_algorithm(4, AllowWeakHashes::Yes),
        Err(Error::UnsupportedHashAlgorithm(4))
    );
    assert_eq!(
        check_hash_algorithm(99, AllowWeakHashes::No),
        Err(Error::UnsupportedHashAlgorithm(99))
    );
    assert_eq!(
        check_hash_algorithm(1, AllowWeakHashes::No),
        Err(Error::UnsupportedHashAlgorithm(1))
    );
}

#[test]
fn pkey_policy_mpi_counts() {
    assert_eq!(pkey_alg_mpis(1, 4), Ok(1));
    assert_eq!(pkey_alg_mpis(3, 3), Ok(1));
    assert_eq!(pkey_alg_mpis(17, 3), Ok(2));
    assert_eq!(pkey_alg_mpis(17, 4), Ok(2));
    assert_eq!(pkey_alg_mpis(22, 4), Ok(2));
}

#[test]
fn pkey_policy_rejections() {
    assert_eq!(pkey_alg_mpis(18, 4), Err(Error::InvalidPkeyAlgorithm(18)));
    assert_eq!(pkey_alg_mpis(2, 3), Err(Error::InvalidPkeyAlgorithm(2)));
    assert_eq!(pkey_alg_mpis(16, 4), Err(Error::InvalidPkeyAlgorithm(16)));
    assert_eq!(pkey_alg_mpis(20, 4), Err(Error::InvalidPkeyAlgorithm(20)));
    assert_eq!(pkey_alg_mpis(21, 4), Err(Error::InvalidPkeyAlgorithm(21)));
    assert_eq!(
        pkey_alg_mpis(19, 4),
        Err(Error::UnsupportedPkeyAlgorithm(19))
    );
    assert_eq!(
        pkey_alg_mpis(19, 3),
        Err(Error::PkeyAlgorithmRequiresV4Sig(19))
    );
    assert_eq!(
        pkey_alg_mpis(22, 3),
        Err(Error::PkeyAlgorithmRequiresV4Sig(22))
    );
    assert_eq!(pkey_alg_mpis(99, 4), Err(Error::UnknownPkeyAlgorithm(99)));
    assert_eq!(
        pkey_alg_mpis(1, 5),
        Err(Error::UnsupportedSignatureVersion)
    );
    assert_eq!(
        pkey_alg_mpis(1, 0),
        Err(Error::UnsupportedSignatureVersion)
    );
}

#[test]
fn zero_bit_mpi_is_empty() {
    let buf = [0, 0, 7, 7];
    let mut reader = Reader::new(&buf);
    let mpi = read_mpi(&mut reader).unwrap();
    assert_eq!(mpi, &[] as &[u8]);
    assert_eq!(reader.len(), 2);
}

#[test]
fn canonical_mpi_accepted() {
    // 9 bits: two magnitude bytes, first byte 0x01
    let buf = [0, 9, 1, 0xFF];
    let mut reader = Reader::new(&buf);
    let mpi = read_mpi(&mut reader).unwrap();
    assert_eq!(mpi, &[1u8, 0xFF][..]);
    assert!(reader.is_empty());
}

#[test]
fn padded_mpi_rejected() {
    // declared 1 bit, but the content byte has its second bit set
    let buf = [0, 1, 2];
    let mut reader = Reader::new(&buf);
    assert_eq!(read_mpi(&mut reader).unwrap_err(), Error::BadMPI);
    // the reader is left where it stood
    assert_eq!(reader.len(), 3);
}

#[test]
fn leading_zero_mpi_rejected() {
    // declared 9 bits, but the first content byte is zero
    let buf = [0, 9, 0, 1];
    let mut reader = Reader::new(&buf);
    assert_eq!(read_mpi(&mut reader).unwrap_err(), Error::BadMPI);
}

#[test]
fn truncated_mpi_is_truncation() {
    let buf = [0, 32, 1];
    let mut reader = Reader::new(&buf);
    assert_eq!(read_mpi(&mut reader).unwrap_err(), Error::PrematureEOF);
    assert_eq!(reader.len(), 3);
}
