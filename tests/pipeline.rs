use paper_age::codec::{decrypt_envelope, encrypt_plaintext, DecryptionError, EncryptionError};
use paper_age::convenience::create_layout;
use paper_age::document::{Document, LayoutError};
use paper_age::error::PaperAgeError;
use paper_age::page::PageSize;
use paper_age::symbol::{capacity, encode, select_version, EcLevel, SymbolError};
use paper_age::text::push_decimal;

const FAST: u8 = 10;

#[test]
fn test_create_pdf_defaults() {
    let result = create_layout(
        "Test Document".to_string(),
        b"hello world",
        "passphrase",
        None,
        None,
        None,
        None,
        FAST,
    );
    assert!(result.is_ok());
    let layout = result.unwrap();
    assert!(!layout.grid.modules.is_empty());
    assert_eq!(layout.title, "Test Document");
    assert_eq!(layout.page_size, PageSize::A4);
    assert_eq!(layout.notes_label, Some("Passphrase:".to_string()));
    assert!(!layout.debug_grid);
}

#[test]
fn test_create_pdf_with_options() {
    let result = create_layout(
        "Custom Document".to_string(),
        b"secret data",
        "hunter2",
        Some("Recovery key:".to_string()),
        Some(true),
        Some("letter"),
        Some(true),
        FAST,
    );
    assert!(result.is_ok());
    let layout = result.unwrap();
    assert_eq!(layout.page_size, PageSize::Letter);
    assert_eq!(layout.notes_label, None);
    assert!(layout.debug_grid);
}

#[test]
fn test_create_pdf_empty_data() {
    let result = create_layout(
        "Empty".to_string(),
        b"",
        "passphrase",
        None,
        None,
        None,
        None,
        FAST,
    );
    assert!(result.is_ok());
}

#[test]
fn oversized_secret_fails_with_capacity_exceeded() {
    let secret = vec![7u8; 3000];
    let result = create_layout("Big".to_string(), &secret, "pw", None, None, None, None, FAST);
    match result {
        Err(PaperAgeError::PdfCreation(msg)) => {
            assert!(msg.starts_with("payload of "));
            assert!(msg.ends_with(" bytes exceeds the largest symbol capacity of 2331 bytes"));
        }
        other => panic!("unexpected result {:?}", other),
    }
}

#[test]
fn unknown_page_fails_before_encryption() {
    // A work factor that encryption refuses shows that it was never reached.
    let result = create_layout("T".to_string(), b"x", "pw", None, None, Some("a5"), None, 0);
    match result {
        Err(PaperAgeError::DocumentInit(msg)) => assert_eq!(msg, "unknown page size: a5"),
        other => panic!("unexpected result {:?}", other),
    }
}

#[test]
fn invalid_work_factor_is_an_encryption_error() {
    let result = create_layout("T".to_string(), b"x", "pw", None, None, None, None, 54);
    match result {
        Err(e @ PaperAgeError::Encryption(_)) => {
            assert_eq!(e.message(), "Encryption failed: work factor 54 is outside 1 to 53")
        }
        other => panic!("unexpected result {:?}", other),
    }
    assert_eq!(
        encrypt_plaintext(b"x", "pw", 0).unwrap_err(),
        EncryptionError::InvalidWorkFactor { work_factor: 0 }
    );
    assert!(encrypt_plaintext(b"x", "pw", 63).is_err());
}

#[test]
fn round_trip_restores_plaintext() {
    for plaintext in [&b"hello world"[..], &b""[..], &[0u8, 255, 1, 2, 3][..]] {
        let (len, envelope) = encrypt_plaintext(plaintext, "correct horse", FAST).unwrap();
        assert_eq!(len, plaintext.len());
        assert!(envelope.starts_with(b"age-encryption.org/v1\n"));
        assert!(envelope.len() > plaintext.len() + 32);
        assert_eq!(decrypt_envelope(&envelope, "correct horse", 20).unwrap(), plaintext);
    }
}

#[test]
fn round_trip_of_multi_chunk_plaintext() {
    let plaintext: Vec<u8> = (0..150_000u32).map(|i| (i % 251) as u8).collect();
    let (_, envelope) = encrypt_plaintext(&plaintext, "pw", FAST).unwrap();
    assert_eq!(decrypt_envelope(&envelope, "pw", 20).unwrap(), plaintext);
}

#[test]
fn flipped_bits_fail_authentication() {
    let (_, envelope) = encrypt_plaintext(b"hello world", "passphrase", FAST).unwrap();
    let step = envelope.len() / 16;
    for index in (0..envelope.len()).step_by(step).chain([envelope.len() - 1]) {
        let mut altered = envelope.clone();
        altered[index] ^= 1 << (index % 8);
        assert!(matches!(
            decrypt_envelope(&altered, "passphrase", FAST),
            Err(DecryptionError::Authentication(_))
        ));
    }
}

#[test]
fn wrong_passphrase_fails_authentication() {
    let (_, envelope) = encrypt_plaintext(b"hello world", "passphrase", FAST).unwrap();
    assert!(decrypt_envelope(&envelope, "other", 20).is_err());
}

#[test]
fn excessive_work_factor_is_refused() {
    let (_, envelope) = encrypt_plaintext(b"hello", "pw", 12).unwrap();
    assert!(decrypt_envelope(&envelope, "pw", 11).is_err());
}

#[test]
fn encryptions_differ_by_salt() {
    let (_, a) = encrypt_plaintext(b"same", "pw", FAST).unwrap();
    let (_, b) = encrypt_plaintext(b"same", "pw", FAST).unwrap();
    assert_ne!(a, b);
}

#[test]
fn byte_capacities_at_the_ends_of_the_table() {
    assert_eq!(capacity(EcLevel::L, 1), 17);
    assert_eq!(capacity(EcLevel::M, 1), 14);
    assert_eq!(capacity(EcLevel::Q, 1), 11);
    assert_eq!(capacity(EcLevel::H, 1), 7);
    assert_eq!(capacity(EcLevel::M, 10), 213);
    assert_eq!(capacity(EcLevel::L, 40), 2953);
    assert_eq!(capacity(EcLevel::M, 40), 2331);
    assert_eq!(capacity(EcLevel::Q, 40), 1663);
    assert_eq!(capacity(EcLevel::H, 40), 1273);
}

#[test]
fn encoding_is_deterministic() {
    let payload = b"the same payload twice";
    let a = encode(payload, EcLevel::M).unwrap();
    let b = encode(payload, EcLevel::M).unwrap();
    assert_eq!(a.version, b.version);
    assert_eq!(a.modules, b.modules);
}

#[test]
fn shorter_payload_gets_no_larger_version() {
    let a = encode(&[1u8; 10], EcLevel::M).unwrap();
    let b = encode(&[1u8; 100], EcLevel::M).unwrap();
    assert!(a.version <= b.version);
    assert_eq!(a.version, 1);
    assert_eq!(b.version, 6);
}

#[test]
fn payload_at_capacity_boundary() {
    let exact = encode(&[9u8; 14], EcLevel::M).unwrap();
    assert_eq!(exact.version, 1);
    assert_eq!(exact.width, 21);
    assert_eq!(exact.modules.len(), 441);
    let over = encode(&[9u8; 15], EcLevel::M).unwrap();
    assert_eq!(over.version, 2);
    let largest = encode(&vec![9u8; 2331], EcLevel::M).unwrap();
    assert_eq!(largest.version, 40);
    assert_eq!(largest.modules.len(), 177 * 177);
    assert_eq!(
        encode(&vec![9u8; 2332], EcLevel::M).unwrap_err(),
        SymbolError::CapacityExceeded { payload_len: 2332, max_capacity: 2331 }
    );
}

#[test]
fn select_version_picks_smallest() {
    assert_eq!(select_version(EcLevel::H, 0), Some(1));
    assert_eq!(select_version(EcLevel::H, 8), Some(2));
    assert_eq!(select_version(EcLevel::L, 2953), Some(40));
    assert_eq!(select_version(EcLevel::L, 2954), None);
}

#[test]
fn symbol_has_finder_pattern() {
    let grid = encode(b"abc", EcLevel::M).unwrap();
    // The top left finder pattern: a dark 7-module ring around a light ring.
    for i in 0..7 {
        assert!(grid.modules[i]);
        assert!(grid.modules[6 * grid.width + i]);
    }
    assert!(!grid.modules[grid.width + 1]);
    assert!(grid.modules[2 * grid.width + 2]);
}

#[test]
fn layout_of_smallest_symbol_on_a4() {
    let document = Document::new("Doc".to_string(), PageSize::A4);
    let layout = document.layout(false, "Passphrase:".to_string(), false, &[0u8; 14]).unwrap();
    assert_eq!(layout.grid.width, 21);
    assert_eq!(layout.module_size, 6551);
    assert_eq!(layout.symbol_left, 36214);
    assert_eq!(layout.symbol_top, 77214);
}

#[test]
fn layout_without_notes_on_letter() {
    let document = Document::new("Doc".to_string(), PageSize::Letter).with_ec_level(EcLevel::L);
    let layout = document.layout(true, "N".to_string(), true, &[0u8; 17]).unwrap();
    assert_eq!(layout.grid.version, 1);
    // 195900 wide, 239400 high: the width decides, 195900 / 29.
    assert_eq!(layout.module_size, 6755);
    assert_eq!(layout.symbol_left, (215_900 - 6755 * 21) / 2);
    assert_eq!(layout.notes_label, None);
}

#[test]
fn layout_reports_symbol_errors() {
    let document = Document::new("Doc".to_string(), PageSize::A4).with_ec_level(EcLevel::H);
    let err = document.layout(false, "N".to_string(), false, &vec![0u8; 1274]).unwrap_err();
    assert_eq!(
        err,
        LayoutError::Symbol(SymbolError::CapacityExceeded { payload_len: 1274, max_capacity: 1273 })
    );
    assert_eq!(
        err.message(),
        "payload of 1274 bytes exceeds the largest symbol capacity of 1273 bytes"
    );
}

#[test]
fn module_too_small_message() {
    let err = LayoutError::ModuleTooSmall { module_size: 420, minimum: 500 };
    assert_eq!(err.message(), "module size of 420 um is below the minimum of 500 um");
}

#[test]
fn page_sizes_by_name() {
    assert_eq!(PageSize::from_name("a4").unwrap(), PageSize::A4);
    assert_eq!(PageSize::from_name("letter").unwrap(), PageSize::Letter);
    let err = PageSize::from_name("legal").unwrap_err();
    assert_eq!(err.message(), "unknown page size: legal");
    assert_eq!(PageSize::Letter.name(), "letter");
    assert_eq!(PageSize::from_name(PageSize::A4.name()).unwrap(), PageSize::A4);
    assert_eq!(PageSize::A4.width(), 210_000);
    assert_eq!(PageSize::Letter.height(), 279_400);
    assert!(Document::initialize("T".to_string(), "A4").is_err());
}

#[test]
fn error_messages_name_their_kind() {
    assert_eq!(
        PaperAgeError::DocumentInit("bad".to_string()).message(),
        "Document initialization failed: bad"
    );
    assert_eq!(PaperAgeError::PdfCreation("big".to_string()).message(), "PDF creation failed: big");
    assert_eq!(PaperAgeError::Encryption(String::new()).message(), "Encryption failed: ");
}

#[test]
fn decimal_digits() {
    let mut s = "n=".to_string();
    push_decimal(&mut s, 0);
    push_decimal(&mut s, 1);
    push_decimal(&mut s, 1_234_567_890);
    push_decimal(&mut s, u64::MAX);
    assert_eq!(s, format!("n=011234567890{}", u64::MAX));
}

#[test]
fn envelope_length_is_exact() {
    // Header of 148 bytes and the work factor's digits, 16-byte nonce, one
    // 16-byte tag per 64 KiB chunk (at least one).
    for (len, wf, chunks) in [(0usize, 10u8, 1usize), (11, 10, 1), (11, 9, 1), (65_536, 10, 1), (65_537, 10, 2)] {
        let plaintext = vec![3u8; len];
        let (_, envelope) = encrypt_plaintext(&plaintext, "pw", wf).unwrap();
        let digits = if wf < 10 { 1 } else { 2 };
        assert_eq!(envelope.len(), 148 + digits + 16 + len + 16 * chunks);
    }
}

#[test]
fn oversize_message_carries_envelope_length() {
    // An envelope of 2000 + 150 + 16 + 16 bytes fits; one of 2200 + 182 does not.
    let fits = create_layout("T".to_string(), &[1u8; 2000], "pw", None, None, None, None, FAST);
    assert!(fits.is_ok());
    let over = create_layout("T".to_string(), &[1u8; 2200], "pw", None, None, None, None, FAST);
    match over {
        Err(e @ PaperAgeError::PdfCreation(_)) => assert_eq!(
            e.message(),
            "PDF creation failed: payload of 2382 bytes exceeds the largest symbol capacity of 2331 bytes"
        ),
        other => panic!("unexpected result {:?}", other),
    }
}

#[test]
fn dark_modules_are_placed_on_the_grid() {
    let document = Document::new("Doc".to_string(), PageSize::A4);
    let layout = document.layout(false, "N".to_string(), false, &[0u8; 14]).unwrap();
    let dark = layout.dark_modules();
    assert_eq!(dark.len(), layout.grid.modules.iter().filter(|d| **d).count());
    // Module 0 is the corner of a finder pattern, and dark.
    assert_eq!(dark[0], (36214, 77214));
    assert_eq!(dark[1], (36214 + 6551, 77214));
    // The last module of the first row is the corner of the other top finder.
    assert!(dark.contains(&(36214 + 20 * 6551, 77214)));
    assert!(dark.contains(&(36214, 77214 + 20 * 6551)));
}
