use openpgp_parser::{parse, read_signature, AllowWeakHashes, Error, Reader};

const KEY_ID: [u8; 8] = [0x28, 0xA4, 0x5C, 0x93, 0xB0, 0xB5, 0xB6, 0xE0];

const FPR: [u8; 20] = [
    0x9A, 0x1B, 0x2C, 0x3D, 0x4E, 0x5F, 0x60, 0x71, 0x82, 0x93, 0xA4, 0xB5, 0x28, 0xA4, 0x5C,
    0x93, 0xB0, 0xB5, 0xB6, 0xE0,
];

/// A version-4 EdDSA binary-document signature body, with the given hashed
/// subpacket area and unhashed area, wrapped in an old-format packet.
fn v4_sig(hashed: &[u8], unhashed: &[u8], mpis: &[u8]) -> Vec<u8> {
    let mut body: Vec<u8> = vec![4, 0, 22, 8];
    body.extend_from_slice(&(hashed.len() as u16).to_be_bytes());
    body.extend_from_slice(hashed);
    body.extend_from_slice(unhashed);
    body.extend_from_slice(&[0xAB, 0xCD]);
    body.extend_from_slice(mpis);
    let mut pkt: Vec<u8> = vec![0x88, body.len() as u8];
    pkt.extend_from_slice(&body);
    pkt
}

fn creation_subpacket(time: u32) -> Vec<u8> {
    let mut sp: Vec<u8> = vec![5, 2];
    sp.extend_from_slice(&time.to_be_bytes());
    sp
}

fn expiration_subpacket(time: u32) -> Vec<u8> {
    let mut sp: Vec<u8> = vec![5, 3];
    sp.extend_from_slice(&time.to_be_bytes());
    sp
}

fn issuer_subpacket() -> Vec<u8> {
    let mut sp: Vec<u8> = vec![9, 16];
    sp.extend_from_slice(&KEY_ID);
    sp
}

fn fingerprint_subpacket() -> Vec<u8> {
    let mut sp: Vec<u8> = vec![22, 33, 4];
    sp.extend_from_slice(&FPR);
    sp
}

/// A complete, well-formed sample: creation time, issuer key id and
/// fingerprint in the hashed area, an empty unhashed area, two EdDSA MPIs.
fn sample_sig() -> Vec<u8> {
    let mut hashed = creation_subpacket(1611626266);
    hashed.extend_from_slice(&issuer_subpacket());
    hashed.extend_from_slice(&fingerprint_subpacket());
    v4_sig(&hashed, &[0, 0], &[0, 1, 1, 0, 1, 1])
}

#[test]
fn parses_real_world_sig() {
    let eddsa_sig = sample_sig();
    let mut trailing_junk = sample_sig();
    trailing_junk.push(0);
    assert_eq!(trailing_junk.len(), eddsa_sig.len() + 1);
    assert_eq!(
        parse(&trailing_junk, 0, AllowWeakHashes::No)
            .map(drop)
            .unwrap_err(),
        Error::TrailingJunk
    );
    assert_eq!(
        read_signature(
            &mut Reader::new(&eddsa_sig[..eddsa_sig.len() - 1]),
            0,
            AllowWeakHashes::No
        )
        .unwrap_err(),
        Error::PrematureEOF
    );
    let sig = read_signature(&mut Reader::new(&eddsa_sig), 0, AllowWeakHashes::No).unwrap();
    assert_eq!(u64::from_be_bytes(sig.key_id), 0x28A45C93B0B5B6E0);
    assert_eq!(sig.creation_time, 1611626266);
    assert_eq!(sig.fingerprint.unwrap()[12..], sig.key_id[..]);
}

#[test]
fn every_truncated_prefix_fails_with_truncation() {
    let sig = sample_sig();
    for k in 0..sig.len() {
        assert_eq!(
            parse(&sig[..k], 0, AllowWeakHashes::No).unwrap_err(),
            Error::PrematureEOF
        );
    }
}

#[test]
fn well_formed_v4_eddsa_parses() {
    let sig = parse(&sample_sig(), 0, AllowWeakHashes::No).unwrap();
    assert_eq!(sig.pkey_alg, 22);
    assert_eq!(sig.hash_alg, 8);
    assert_eq!(sig.key_id, KEY_ID);
    assert_eq!(sig.creation_time, 1611626266);
    assert_eq!(sig.expiration_time, None);
    let fpr = sig.fingerprint.unwrap();
    assert_eq!(fpr, FPR);
    assert_eq!(fpr[12..], sig.key_id[..]);
}

#[test]
fn stream_entry_leaves_next_packets_bytes() {
    let mut buf = sample_sig();
    buf.push(0x77);
    let mut reader = Reader::new(&buf);
    let sig = read_signature(&mut reader, 0, AllowWeakHashes::No).unwrap();
    assert_eq!(sig.key_id, KEY_ID);
    assert_eq!(reader.len(), 1);
}

#[test]
fn duplicate_creation_time_rejected() {
    let mut hashed = creation_subpacket(1611626266);
    hashed.extend_from_slice(&creation_subpacket(1611626266));
    hashed.extend_from_slice(&issuer_subpacket());
    let sig = v4_sig(&hashed, &[0, 0], &[0, 1, 1, 0, 1, 1]);
    assert_eq!(
        parse(&sig, 0, AllowWeakHashes::No).unwrap_err(),
        Error::IllFormedSignature
    );
}

#[test]
fn duplicate_expiration_time_rejected() {
    let mut hashed = creation_subpacket(1611626266);
    hashed.extend_from_slice(&expiration_subpacket(4000000000));
    hashed.extend_from_slice(&expiration_subpacket(4000000000));
    hashed.extend_from_slice(&issuer_subpacket());
    let sig = v4_sig(&hashed, &[0, 0], &[0, 1, 1, 0, 1, 1]);
    assert_eq!(
        parse(&sig, 0, AllowWeakHashes::No).unwrap_err(),
        Error::IllFormedSignature
    );
}

#[test]
fn duplicate_issuer_key_id_rejected() {
    let mut hashed = creation_subpacket(1611626266);
    hashed.extend_from_slice(&issuer_subpacket());
    hashed.extend_from_slice(&issuer_subpacket());
    let sig = v4_sig(&hashed, &[0, 0], &[0, 1, 1, 0, 1, 1]);
    assert_eq!(
        parse(&sig, 0, AllowWeakHashes::No).unwrap_err(),
        Error::IllFormedSignature
    );
}

#[test]
fn duplicate_fingerprint_rejected() {
    let mut hashed = creation_subpacket(1611626266);
    hashed.extend_from_slice(&issuer_subpacket());
    hashed.extend_from_slice(&fingerprint_subpacket());
    hashed.extend_from_slice(&fingerprint_subpacket());
    let sig = v4_sig(&hashed, &[0, 0], &[0, 1, 1, 0, 1, 1]);
    assert_eq!(
        parse(&sig, 0, AllowWeakHashes::No).unwrap_err(),
        Error::IllFormedSignature
    );
}

#[test]
fn unhashed_area_must_be_the_permitted_record() {
    // no issuer key id in the hashed area, and an unhashed area that is not
    // the single permitted issuer-key-id record
    let hashed = creation_subpacket(1611626266);
    let sig = v4_sig(&hashed, &[0, 0], &[0, 1, 1, 0, 1, 1]);
    assert_eq!(
        parse(&sig, 0, AllowWeakHashes::No).unwrap_err(),
        Error::IllFormedSignature
    );
}

#[test]
fn unhashed_issuer_key_id_accepted_when_hashed_has_none() {
    let hashed = creation_subpacket(1611626266);
    let mut unhashed: Vec<u8> = vec![0, 10, 9, 16];
    unhashed.extend_from_slice(&KEY_ID);
    let sig = v4_sig(&hashed, &unhashed, &[0, 1, 1, 0, 1, 1]);
    let info = parse(&sig, 0, AllowWeakHashes::No).unwrap();
    assert_eq!(info.key_id, KEY_ID);
    assert_eq!(info.fingerprint, None);
}

#[test]
fn nonempty_unhashed_area_with_hashed_issuer_rejected() {
    let mut hashed = creation_subpacket(1611626266);
    hashed.extend_from_slice(&issuer_subpacket());
    let mut unhashed: Vec<u8> = vec![0, 10, 9, 16];
    unhashed.extend_from_slice(&KEY_ID);
    let sig = v4_sig(&hashed, &unhashed, &[0, 1, 1, 0, 1, 1]);
    assert_eq!(
        parse(&sig, 0, AllowWeakHashes::No).unwrap_err(),
        Error::IllFormedSignature
    );
}

#[test]
fn fingerprint_key_id_mismatch_rejected() {
    let mut hashed = creation_subpacket(1611626266);
    let mut bad_fpr = fingerprint_subpacket();
    let last = bad_fpr.len() - 1;
    bad_fpr[last] ^= 1;
    hashed.extend_from_slice(&issuer_subpacket());
    hashed.extend_from_slice(&bad_fpr);
    let sig = v4_sig(&hashed, &[0, 0], &[0, 1, 1, 0, 1, 1]);
    assert_eq!(
        parse(&sig, 0, AllowWeakHashes::No).unwrap_err(),
        Error::IllFormedSignature
    );
}

#[test]
fn missing_creation_time_rejected() {
    let hashed = issuer_subpacket();
    let sig = v4_sig(&hashed, &[0, 0], &[0, 1, 1, 0, 1, 1]);
    assert_eq!(
        parse(&sig, 0, AllowWeakHashes::No).unwrap_err(),
        Error::NoCreationTime
    );
}

#[test]
fn expired_signature_rejected() {
    let mut hashed = creation_subpacket(1611626266);
    hashed.extend_from_slice(&expiration_subpacket(1611626266));
    hashed.extend_from_slice(&issuer_subpacket());
    let sig = v4_sig(&hashed, &[0, 0], &[0, 1, 1, 0, 1, 1]);
    assert_eq!(
        parse(&sig, 1611626266, AllowWeakHashes::No).unwrap_err(),
        Error::SignatureExpired
    );
}

#[test]
fn not_yet_valid_signature_rejected() {
    let mut hashed = creation_subpacket(100);
    hashed.extend_from_slice(&issuer_subpacket());
    let sig = v4_sig(&hashed, &[0, 0], &[0, 1, 1, 0, 1, 1]);
    assert_eq!(
        parse(&sig, 200, AllowWeakHashes::No).unwrap_err(),
        Error::SignatureNotValidYet
    );
}

#[test]
fn unknown_subpacket_kind_rejected() {
    let mut hashed = creation_subpacket(1611626266);
    // a notation-data subpacket: rejected by the default-deny policy
    hashed.extend_from_slice(&[2, 20, 0]);
    hashed.extend_from_slice(&issuer_subpacket());
    let sig = v4_sig(&hashed, &[0, 0], &[0, 1, 1, 0, 1, 1]);
    assert_eq!(
        parse(&sig, 0, AllowWeakHashes::No).unwrap_err(),
        Error::UnsupportedCriticalSubpacket
    );
}

#[test]
fn self_signature_subpacket_kind_rejected() {
    let mut hashed = creation_subpacket(1611626266);
    // a key-expiration-time subpacket is out of context here
    hashed.extend_from_slice(&[5, 9, 0, 0, 0, 1]);
    hashed.extend_from_slice(&issuer_subpacket());
    let sig = v4_sig(&hashed, &[0, 0], &[0, 1, 1, 0, 1, 1]);
    assert_eq!(
        parse(&sig, 0, AllowWeakHashes::No).unwrap_err(),
        Error::IllFormedSignature
    );
}

#[test]
fn non_signature_packet_rejected() {
    // old-format header with type tag 1
    let buf = [0x84, 1, 0];
    assert_eq!(
        parse(&buf, 0, AllowWeakHashes::No).unwrap_err(),
        Error::IllFormedSignature
    );
}

#[test]
fn empty_input_is_truncation() {
    assert_eq!(
        parse(&[], 0, AllowWeakHashes::No).unwrap_err(),
        Error::PrematureEOF
    );
}

#[test]
fn parses_version_3_signature() {
    let mut body: Vec<u8> = vec![3, 5, 0];
    body.extend_from_slice(&1611626266u32.to_be_bytes());
    body.extend_from_slice(&KEY_ID);
    body.push(1); // RSA
    body.push(8); // SHA-256
    body.extend_from_slice(&[0xAB, 0xCD]);
    body.extend_from_slice(&[0, 1, 1]); // one MPI
    let mut pkt: Vec<u8> = vec![0x88, body.len() as u8];
    pkt.extend_from_slice(&body);
    let sig = parse(&pkt, 0, AllowWeakHashes::No).unwrap();
    assert_eq!(sig.pkey_alg, 1);
    assert_eq!(sig.hash_alg, 8);
    assert_eq!(sig.key_id, KEY_ID);
    assert_eq!(sig.creation_time, 1611626266);
    assert_eq!(sig.fingerprint, None);
    assert_eq!(sig.expiration_time, None);
}

#[test]
fn version_3_wrong_hashed_length_rejected() {
    let mut body: Vec<u8> = vec![3, 6, 0];
    body.extend_from_slice(&1611626266u32.to_be_bytes());
    body.extend_from_slice(&KEY_ID);
    body.extend_from_slice(&[1, 8, 0xAB, 0xCD, 0, 1, 1]);
    let mut pkt: Vec<u8> = vec![0x88, body.len() as u8];
    pkt.extend_from_slice(&body);
    assert_eq!(
        parse(&pkt, 0, AllowWeakHashes::No).unwrap_err(),
        Error::IllFormedSignature
    );
}

#[test]
fn unsupported_version_rejected() {
    let pkt = [0x88, 1, 5];
    assert_eq!(
        parse(&pkt, 0, AllowWeakHashes::No).unwrap_err(),
        Error::IllFormedSignature
    );
}

#[test]
fn new_format_packet_header_accepted() {
    let old = sample_sig();
    let mut pkt: Vec<u8> = vec![0xC2, (old.len() - 2) as u8];
    pkt.extend_from_slice(&old[2..]);
    let sig = parse(&pkt, 0, AllowWeakHashes::No).unwrap();
    assert_eq!(sig.key_id, KEY_ID);
}
