//! A per-owner record store holding a bounded collection of book entries,
//! gated by strict ownership authorization.

pub mod biblioteca;
pub mod direccion;
pub mod errores;
pub mod leyes;
pub mod libro;

use vstd::prelude::*;

verus! {

/// Maximum number of books a library can hold.
pub const CAPACIDAD_MAXIMA: usize = 10;

/// Maximum length, in characters, of a library or book name.
pub const LONGITUD_MAXIMA_NOMBRE: usize = 60;

} // verus!
