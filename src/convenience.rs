//! The whole pipeline in one call: page lookup, encryption, then layout.

use vstd::prelude::*;
use vstd::string::*;

use crate::codec::{
    encrypt_plaintext, encryption_error_text, envelope_len, is_envelope_of, valid_work_factor,
    EncryptionError,
};
use crate::document::{lemma_module_size_sufficient, Document, PageLayout};
use crate::error::PaperAgeError;
use crate::page::page_of_name;
use crate::symbol::{
    lemma_fitting_version,
    byte_capacity, encoded, fitting_version, symbol_error_text, symbol_width, EcLevel, SymbolError,
};

verus! {

/// The identifier of the page used where none is given.
pub open spec fn chosen_page(page_size: Option<&str>) -> Seq<char> {
    match page_size {
        Some(n) => n@,
        None => "a4"@,
    }
}

/// Encrypts a secret and lays out the page that carries it.
///
/// The page identifier is checked before any encryption work is done; the
/// notes label defaults to `Passphrase:`, the page to `a4`, and the notes
/// line and debug grid are drawn and left out by default, respectively.
pub fn create_layout(
    title: String,
    plaintext: &[u8],
    passphrase: &str,
    notes_label: Option<String>,
    skip_notes_line: Option<bool>,
    page_size: Option<&str>,
    grid: Option<bool>,
    work_factor: u8,
) -> (r: Result<PageLayout, PaperAgeError>)
    ensures
        page_of_name(chosen_page(page_size)) is None <==> (r is Err && r->Err_0 is DocumentInit),
        r is Err && r->Err_0 is DocumentInit ==> r->Err_0->DocumentInit_0@ == "unknown page size: "@
            + chosen_page(page_size),
        page_of_name(chosen_page(page_size)) is Some ==> (!valid_work_factor(work_factor) <==> (
        r is Err && r->Err_0 is Encryption)),
        r is Err && r->Err_0 is Encryption ==> r->Err_0->Encryption_0@ == encryption_error_text(
            EncryptionError::InvalidWorkFactor { work_factor },
        ),
        ({
            let n = envelope_len(plaintext@.len(), work_factor);
            page_of_name(chosen_page(page_size)) is Some && valid_work_factor(work_factor) ==> if n
                > byte_capacity(EcLevel::M, 40) {
                r is Err && r->Err_0 is PdfCreation && r->Err_0->PdfCreation_0@ == symbol_error_text(
                    SymbolError::CapacityExceeded {
                        payload_len: n as usize,
                        max_capacity: byte_capacity(EcLevel::M, 40) as usize,
                    },
                )
            } else {
                r is Ok
            }
        }),
        r is Ok ==> {
            let l = r->Ok_0;
            &&& l.wf()
            &&& page_of_name(chosen_page(page_size)) == Some(l.page_size)
            &&& l.title@ == title@
            &&& l.debug_grid == grid.unwrap_or(false)
            &&& l.notes_label is Some <==> !skip_notes_line.unwrap_or(false)
            &&& l.notes_label is Some ==> l.notes_label->Some_0@ == match notes_label {
                Some(s) => s@,
                None => "Passphrase:"@,
            }
            &&& fitting_version(EcLevel::M, envelope_len(plaintext@.len(), work_factor) as int)
                == Some(l.grid.version as int)
            &&& exists|e: Seq<u8>|
                #[trigger] is_envelope_of(e, plaintext@, passphrase@, work_factor) && encoded(
                    e,
                    EcLevel::M,
                ) == Ok::<(u8, Seq<bool>), SymbolError>((l.grid.version, l.grid.modules@))
        },
{
    proof {
        reveal_strlit("a4");
        reveal_strlit("Passphrase:");
    }
    let page = match page_size {
        Some(n) => n,
        None => "a4",
    };
    let document = match Document::initialize(title, page) {
        Ok(d) => d,
        Err(e) => {
            return Err(PaperAgeError::DocumentInit(e.message()));
        },
    };
    let envelope = match encrypt_plaintext(plaintext, passphrase, work_factor) {
        Ok((_len, envelope)) => envelope,
        Err(e) => {
            return Err(PaperAgeError::Encryption(e.message()));
        },
    };
    let label = match notes_label {
        Some(s) => s,
        None => String::from_str("Passphrase:"),
    };
    let skip = match skip_notes_line {
        Some(b) => b,
        None => false,
    };
    let debug_grid = match grid {
        Some(b) => b,
        None => false,
    };
    let ghost e = envelope@;
    proof {
        lemma_fitting_version(EcLevel::M, e.len() as int);
        if let Some(v) = fitting_version(EcLevel::M, e.len() as int) {
            lemma_module_size_sufficient(document.page_size, skip, symbol_width(v));
        }
    }
    match document.layout(debug_grid, label, skip, envelope.as_slice()) {
        Ok(l) => {
            assert(is_envelope_of(e, plaintext@, passphrase@, work_factor));
            Ok(l)
        },
        Err(le) => Err(PaperAgeError::PdfCreation(le.message())),
    }
}

} // verus!
