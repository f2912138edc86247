use vstd::prelude::*;

verus! {

/// Why an operation on a library was refused.
///
/// Every error aborts the whole operation: the record is left exactly as it
/// was, and a later operation on the same record is unaffected.
#[derive(Clone, Copy, PartialEq, Eq, Structural, Debug)]
pub enum Errores {
    /// The caller is not the recorded owner of the library.
    NoEresElOwner,
    /// No book in the collection bears the requested name.
    LibroNoExiste,
    /// The collection already holds the maximum number of books.
    CapacidadExcedida,
    /// A name is longer than the bound allows.
    NombreDemasiadoLargo,
}

} // verus!
