use ledger_ix::address::{format_address, parse_address};
use ledger_ix::codec::{decode_payload, decode_secret, encode_payload, encode_secret};
use ledger_ix::error::{Field, LedgerError};
use ledger_ix::instruction::{initialize_mint, mint_to, native_transfer, token_transfer};
use ledger_ix::keys::{verify, KeyPair};
use ledger_ix::service::{
    create_token, generate_keypair, mint_token, send_sol, send_token, sign_message,
    verify_message,
};

const TOKEN_PROGRAM: &str = "TokenkegQfeZyiNwAJbNbGKPFXCWuBvf9Ss623VQ5DA";
const RENT_SYSVAR: &str = "SysvarRent111111111111111111111111111111111";
const SYSTEM_PROGRAM: &str = "11111111111111111111111111111111";

fn addr(byte: u8) -> [u8; 32] {
    [byte; 32]
}

fn keypair(byte: u8) -> KeyPair {
    KeyPair::from_seed(&[byte; 32])
}

#[test]
fn address_text_round_trips() {
    for text in [TOKEN_PROGRAM, RENT_SYSVAR, SYSTEM_PROGRAM] {
        let bytes = parse_address(text, Field::Mint).unwrap();
        assert_eq!(format_address(&bytes), text);
    }
    let bytes = addr(9);
    let text = format_address(&bytes);
    assert_eq!(parse_address(&text, Field::Mint).unwrap(), bytes);
}

#[test]
fn system_program_is_all_zeros() {
    assert_eq!(parse_address(SYSTEM_PROGRAM, Field::Owner).unwrap(), [0u8; 32]);
    assert_eq!(format_address(&[0u8; 32]), SYSTEM_PROGRAM);
}

#[test]
fn address_rejects_bad_characters() {
    let bad = "TokenkegQfeZyiNwAJbNbGKPFXCWuBvf9Ss623VQ5D0";
    assert_eq!(parse_address(bad, Field::Destination), Err(LedgerError::InvalidAddress(Field::Destination)));
    assert_eq!(parse_address("not an address!", Field::Mint), Err(LedgerError::InvalidAddress(Field::Mint)));
}

#[test]
fn address_rejects_wrong_length() {
    assert!(parse_address("", Field::Mint).is_err());
    assert!(parse_address("abc", Field::Mint).is_err());
    assert!(parse_address("1111111111111111111111111111111", Field::Mint).is_err());
    let long = format!("{}{}", TOKEN_PROGRAM, "z");
    assert!(parse_address(&long, Field::Mint).is_err());
}

#[test]
fn payload_codec_is_standard_base64() {
    assert_eq!(encode_payload(&[1, 2, 3]), "AQID");
    assert_eq!(encode_payload(&[255, 254]), "//4=");
    assert_eq!(encode_payload(&[]), "");
    assert_eq!(decode_payload("AQID").unwrap(), vec![1, 2, 3]);
    assert_eq!(decode_payload("//4=").unwrap(), vec![255, 254]);
}

#[test]
fn payload_codec_rejects_malformed_text() {
    assert_eq!(decode_payload("AQI"), Err(LedgerError::InvalidEncoding));
    assert_eq!(decode_payload("A$ID"), Err(LedgerError::InvalidEncoding));
    assert_eq!(decode_payload("//5="), Err(LedgerError::InvalidEncoding));
}

#[test]
fn secret_codec_is_base58() {
    assert_eq!(encode_secret(&[0, 0, 1]), "112");
    let k = keypair(3);
    let text = encode_secret(&k.to_bytes());
    assert_eq!(decode_secret(&text).unwrap(), k.to_bytes());
}

#[test]
fn secret_codec_rejects_bad_text_and_length() {
    assert_eq!(decode_secret("0abc"), Err(LedgerError::InvalidSecretEncoding));
    assert_eq!(decode_secret("112"), Err(LedgerError::InvalidSecretEncoding));
    let long = "2".repeat(100);
    assert_eq!(decode_secret(&long), Err(LedgerError::InvalidSecretEncoding));
    let short = encode_secret(&[5u8; 32]);
    assert_eq!(decode_secret(&short), Err(LedgerError::InvalidSecretEncoding));
}

#[test]
fn keypair_from_consistent_secret_bytes() {
    let k = keypair(11);
    let bytes = k.to_bytes();
    assert_eq!(bytes.len(), 64);
    assert_eq!(&bytes[..32], &[11u8; 32]);
    let back = KeyPair::from_secret_bytes(&bytes).unwrap();
    assert_eq!(back.public_key(), k.public_key());
    assert_eq!(&bytes[32..], &k.public_key());
}

#[test]
fn keypair_rejects_inconsistent_or_short_bytes() {
    let mut bytes = keypair(12).to_bytes();
    bytes[40] ^= 1;
    assert!(matches!(KeyPair::from_secret_bytes(&bytes), Err(LedgerError::InvalidKeypair)));
    let mut mixed = keypair(12).to_bytes();
    mixed[32..].copy_from_slice(&keypair(13).public_key());
    assert!(matches!(KeyPair::from_secret_bytes(&mixed), Err(LedgerError::InvalidKeypair)));
    assert!(matches!(KeyPair::from_secret_bytes(&[1u8; 63]), Err(LedgerError::InvalidKeypair)));
    assert!(matches!(KeyPair::from_secret_bytes(&[]), Err(LedgerError::InvalidKeypair)));
}

#[test]
fn generated_keypairs_are_consistent_and_fresh() {
    let a = KeyPair::generate();
    let b = KeyPair::generate();
    assert!(KeyPair::from_secret_bytes(&a.to_bytes()).is_ok());
    assert_ne!(a.to_bytes(), b.to_bytes());
    let resp = generate_keypair();
    let secret = decode_secret(&resp.secret).unwrap();
    let k = KeyPair::from_secret_bytes(&secret).unwrap();
    assert_eq!(format_address(&k.public_key()), resp.pubkey);
}

#[test]
fn signature_verifies_under_its_key() {
    let k = keypair(21);
    for msg in [&b""[..], &b"hello"[..], &[0u8, 255, 7][..]] {
        let sig = k.sign(msg);
        assert_eq!(verify(&k.public_key(), msg, &sig), Ok(true));
    }
}

#[test]
fn signing_is_deterministic() {
    let k = keypair(22);
    assert_eq!(k.sign(b"same"), k.sign(b"same"));
    assert_ne!(k.sign(b"same"), k.sign(b"other"));
}

#[test]
fn signature_of_other_message_is_false_not_error() {
    let k = keypair(23);
    let sig = k.sign(b"first");
    assert_eq!(verify(&k.public_key(), b"second", &sig), Ok(false));
    let other = keypair(24);
    assert_eq!(verify(&other.public_key(), b"first", &sig), Ok(false));
}

#[test]
fn signature_of_wrong_length_is_format_error() {
    let k = keypair(25);
    let sig = k.sign(b"m");
    assert_eq!(verify(&k.public_key(), b"m", &sig[..63]), Err(LedgerError::InvalidSignatureFormat));
    let mut long = sig.to_vec();
    long.push(0);
    assert_eq!(verify(&k.public_key(), b"m", &long), Err(LedgerError::InvalidSignatureFormat));
    assert_eq!(verify(&k.public_key(), b"m", &[]), Err(LedgerError::InvalidSignatureFormat));
}

#[test]
fn native_transfer_layout() {
    let (a, b) = (addr(1), addr(2));
    let ix = native_transfer(&a, &b, 1000);
    assert_eq!(format_address(&ix.program_id), SYSTEM_PROGRAM);
    assert_eq!(ix.accounts.len(), 2);
    assert_eq!(ix.accounts[0].pubkey, a);
    assert!(ix.accounts[0].is_signer && ix.accounts[0].is_writable);
    assert_eq!(ix.accounts[1].pubkey, b);
    assert!(!ix.accounts[1].is_signer && ix.accounts[1].is_writable);
    assert_eq!(ix.data.len(), 12);
    assert_eq!(u32::from_le_bytes(ix.data[..4].try_into().unwrap()), 2);
    assert_eq!(u64::from_le_bytes(ix.data[4..].try_into().unwrap()), 1000);
}

#[test]
fn mint_to_zero_amount() {
    let (m, d, a) = (addr(3), addr(4), addr(5));
    let ix = mint_to(&m, &d, &a, 0).unwrap();
    assert_eq!(format_address(&ix.program_id), TOKEN_PROGRAM);
    assert_eq!(ix.data[0], 7);
    assert_eq!(ix.data.len(), 9);
    assert_eq!(u64::from_le_bytes(ix.data[1..].try_into().unwrap()), 0);
    let flags: Vec<(bool, bool)> = ix.accounts.iter().map(|x| (x.is_signer, x.is_writable)).collect();
    assert_eq!(flags, vec![(false, true), (false, true), (true, false)]);
    let keys: Vec<[u8; 32]> = ix.accounts.iter().map(|x| x.pubkey).collect();
    assert_eq!(keys, vec![m, d, a]);
}

#[test]
fn mint_to_largest_amount() {
    let ix = mint_to(&addr(3), &addr(4), &addr(5), u64::MAX).unwrap();
    assert_eq!(ix.data, vec![7, 255, 255, 255, 255, 255, 255, 255, 255]);
}

#[test]
fn initialize_mint_layout() {
    let (m, a) = (addr(6), addr(7));
    let ix = initialize_mint(&m, &a, 9).unwrap();
    assert_eq!(format_address(&ix.program_id), TOKEN_PROGRAM);
    assert_eq!(ix.accounts.len(), 2);
    assert_eq!(ix.accounts[0].pubkey, m);
    assert!(!ix.accounts[0].is_signer && ix.accounts[0].is_writable);
    assert_eq!(format_address(&ix.accounts[1].pubkey), RENT_SYSVAR);
    assert!(!ix.accounts[1].is_signer && !ix.accounts[1].is_writable);
    let mut expected = vec![0u8, 9];
    expected.extend_from_slice(&a);
    expected.push(0);
    assert_eq!(ix.data, expected);
}

#[test]
fn token_transfer_layout() {
    let (o, d) = (addr(8), addr(9));
    let ix = token_transfer(&o, &d, 0x0102030405060708).unwrap();
    assert_eq!(format_address(&ix.program_id), TOKEN_PROGRAM);
    assert_eq!(ix.data, vec![3, 8, 7, 6, 5, 4, 3, 2, 1]);
    let keys: Vec<[u8; 32]> = ix.accounts.iter().map(|x| x.pubkey).collect();
    assert_eq!(keys, vec![o, d, o]);
    assert!(ix.accounts[2].is_signer && !ix.accounts[2].is_writable);
}

#[test]
fn create_token_response() {
    let mint = format_address(&addr(6));
    let auth = format_address(&addr(7));
    let resp = create_token(&auth, &mint, 6).unwrap();
    assert_eq!(resp.program_id, TOKEN_PROGRAM);
    assert_eq!(resp.accounts.len(), 2);
    assert_eq!(resp.accounts[0].pubkey, mint);
    assert_eq!(resp.accounts[1].pubkey, RENT_SYSVAR);
    let data = decode_payload(&resp.instruction_data).unwrap();
    assert_eq!(data.len(), 35);
    assert_eq!(&data[..2], &[0, 6]);
    assert_eq!(&data[2..34], &addr(7));
}

#[test]
fn create_token_reports_the_bad_field() {
    let good = format_address(&addr(6));
    assert!(matches!(create_token("bad0", &good, 6), Err(LedgerError::InvalidAddress(Field::MintAuthority))));
    assert!(matches!(create_token(&good, "bad0", 6), Err(LedgerError::InvalidAddress(Field::Mint))));
}

#[test]
fn mint_token_response() {
    let (m, d, a) = (format_address(&addr(3)), format_address(&addr(4)), format_address(&addr(5)));
    let resp = mint_token(&m, &d, &a, 500).unwrap();
    let keys: Vec<&str> = resp.accounts.iter().map(|x| x.pubkey.as_str()).collect();
    assert_eq!(keys, vec![m.as_str(), d.as_str(), a.as_str()]);
    let data = decode_payload(&resp.instruction_data).unwrap();
    assert_eq!(u64::from_le_bytes(data[1..].try_into().unwrap()), 500);
    assert!(matches!(mint_token(&m, &d, "0", 5), Err(LedgerError::InvalidAddress(Field::Authority))));
    assert!(matches!(mint_token(&m, "0", &a, 5), Err(LedgerError::InvalidAddress(Field::Destination))));
}

#[test]
fn send_sol_response() {
    let (f, t) = (format_address(&addr(1)), format_address(&addr(2)));
    let resp = send_sol(&f, &t, 1000).unwrap();
    assert_eq!(resp.program_id, SYSTEM_PROGRAM);
    assert_eq!(resp.accounts[0].pubkey, f);
    assert_eq!(resp.accounts[1].pubkey, t);
    assert_eq!(resp.instruction_data, encode_payload(&[2, 0, 0, 0, 232, 3, 0, 0, 0, 0, 0, 0]));
    assert!(matches!(send_sol("x0", &t, 1), Err(LedgerError::InvalidAddress(Field::Sender))));
    assert!(matches!(send_sol(&f, "x0", 1), Err(LedgerError::InvalidAddress(Field::Recipient))));
}

#[test]
fn send_token_uses_owner_as_source_and_signer() {
    let (d, m, o) = (format_address(&addr(4)), format_address(&addr(3)), format_address(&addr(8)));
    let resp = send_token(&d, &m, &o, 42).unwrap();
    let keys: Vec<&str> = resp.accounts.iter().map(|x| x.pubkey.as_str()).collect();
    assert_eq!(keys, vec![o.as_str(), d.as_str(), o.as_str()]);
    assert!(resp.accounts[2].is_signer);
    assert_eq!(decode_payload(&resp.instruction_data).unwrap(), vec![3, 42, 0, 0, 0, 0, 0, 0, 0]);
    assert!(matches!(send_token(&d, "0", &o, 1), Err(LedgerError::InvalidAddress(Field::Mint))));
}

#[test]
fn sign_message_rejects_empty_fields() {
    let secret = encode_secret(&keypair(31).to_bytes());
    assert!(matches!(sign_message("", &secret), Err(LedgerError::InvalidRequest(Field::Message))));
    assert!(matches!(sign_message("hi", ""), Err(LedgerError::InvalidRequest(Field::Secret))));
    assert!(matches!(sign_message("", ""), Err(LedgerError::InvalidRequest(Field::Message))));
}

#[test]
fn sign_message_rejects_bad_secrets() {
    assert!(matches!(sign_message("hi", "0OIl"), Err(LedgerError::InvalidSecretEncoding)));
    let short = encode_secret(&[4u8; 32]);
    assert!(matches!(sign_message("hi", &short), Err(LedgerError::InvalidSecretEncoding)));
    let mut bytes = keypair(32).to_bytes();
    bytes[63] ^= 0x80;
    let bad = encode_secret(&bytes);
    assert!(matches!(sign_message("hi", &bad), Err(LedgerError::InvalidKeypair)));
}

#[test]
fn sign_then_verify_message() {
    let k = keypair(33);
    let secret = encode_secret(&k.to_bytes());
    let signed = sign_message("hello ledger", &secret).unwrap();
    assert_eq!(signed.public_key, format_address(&k.public_key()));
    assert_eq!(signed.message, "hello ledger");
    assert_eq!(signed.signature, encode_payload(&k.sign(b"hello ledger")));
    let ok = verify_message("hello ledger", &signed.signature, &signed.public_key).unwrap();
    assert!(ok.valid);
    assert_eq!(ok.pubkey, signed.public_key);
    let no = verify_message("hello ledgers", &signed.signature, &signed.public_key).unwrap();
    assert!(!no.valid);
}

#[test]
fn verify_message_errors() {
    let k = keypair(34);
    let pk = format_address(&k.public_key());
    let sig = encode_payload(&k.sign(b"m"));
    assert!(matches!(verify_message("m", &sig, "0"), Err(LedgerError::InvalidAddress(Field::PublicKey))));
    assert!(matches!(verify_message("m", "@@@", &pk), Err(LedgerError::InvalidEncoding)));
    let short = encode_payload(&[1u8; 10]);
    assert!(matches!(verify_message("m", &short, &pk), Err(LedgerError::InvalidSignatureFormat)));
}

#[test]
fn error_messages_name_the_cause() {
    assert_eq!(LedgerError::InvalidAddress(Field::Mint).message(), "Invalid mint address");
    assert_eq!(LedgerError::InvalidRequest(Field::Secret).message(), "Missing required field: secret");
    assert_eq!(LedgerError::InvalidSignatureFormat.message(), "Invalid signature format");
}

#[test]
fn program_addresses_have_their_known_bytes() {
    let token: [u8; 32] = [
        6, 221, 246, 225, 215, 101, 161, 147, 217, 203, 225, 70, 206, 235, 121, 172,
        28, 180, 133, 237, 95, 91, 55, 145, 58, 140, 245, 133, 126, 255, 0, 169,
    ];
    let rent: [u8; 32] = [
        6, 167, 213, 23, 25, 44, 92, 81, 33, 140, 201, 76, 61, 74, 241, 127,
        88, 218, 238, 8, 155, 161, 253, 68, 227, 219, 217, 138, 0, 0, 0, 0,
    ];
    assert_eq!(parse_address(TOKEN_PROGRAM, Field::Mint).unwrap(), token);
    assert_eq!(parse_address(RENT_SYSVAR, Field::Mint).unwrap(), rent);
    let ix = initialize_mint(&addr(1), &addr(2), 0).unwrap();
    assert_eq!(ix.program_id, token);
    assert_eq!(ix.accounts[1].pubkey, rent);
}
