//! The error kinds that the document pipeline reports to its caller.

use vstd::prelude::*;
use vstd::string::*;

verus! {

/// Errors that can occur during PDF generation.
#[derive(Debug)]
pub enum PaperAgeError {
    /// The plaintext data could not be encrypted.
    Encryption(String),
    /// The PDF document could not be initialized.
    DocumentInit(String),
    /// The PDF could not be created (e.g. QR code too large).
    PdfCreation(String),
}

/// The text that prefixes the cause of each kind of error.
pub open spec fn error_prefix(e: &PaperAgeError) -> Seq<char> {
    match e {
        PaperAgeError::Encryption(_) => "Encryption failed: "@,
        PaperAgeError::DocumentInit(_) => "Document initialization failed: "@,
        PaperAgeError::PdfCreation(_) => "PDF creation failed: "@,
    }
}

/// The lower-level cause carried by an error.
pub open spec fn error_cause(e: &PaperAgeError) -> Seq<char> {
    match e {
        PaperAgeError::Encryption(m) => m@,
        PaperAgeError::DocumentInit(m) => m@,
        PaperAgeError::PdfCreation(m) => m@,
    }
}

impl PaperAgeError {
    /// A human-readable message: the kind of failure, then its cause.
    pub fn message(&self) -> (r: String)
        ensures
            r@ == error_prefix(self) + error_cause(self),
    {
        let (prefix, cause) = match self {
            PaperAgeError::Encryption(m) => ("Encryption failed: ", m),
            PaperAgeError::DocumentInit(m) => ("Document initialization failed: ", m),
            PaperAgeError::PdfCreation(m) => ("PDF creation failed: ", m),
        };
        proof {
            reveal_strlit("Encryption failed: ");
            reveal_strlit("Document initialization failed: ");
            reveal_strlit("PDF creation failed: ");
        }
        let mut r = String::from_str(prefix);
        r.append(cause.as_str());
        r
    }
}

} // verus!
