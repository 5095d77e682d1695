use vstd::prelude::*;

verus! {

/// `std::io::ErrorKind`, the platform's classification of an I/O failure.
/// It is carried through as it is; nothing is read from it.
#[verifier::external_type_specification]
#[verifier::external_body]
pub struct ExIoErrorKind(std::io::ErrorKind);

/// Why a file operation did not produce a document.
#[derive(Debug, Clone, Copy, PartialEq, Eq)]
pub enum EditorError {
    /// The user closed the file dialog without choosing a path.
    DialogClose,
    /// Reading, decoding or writing the file failed with this kind.
    IoError(std::io::ErrorKind),
}

} // verus!
