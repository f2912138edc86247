use vstd::prelude::*;
use crate::LONGITUD_MAXIMA_NOMBRE;

verus! {

/// Mathematical view of a book: its name as a character sequence, its page
/// count and its availability flag.
#[verifier::ext_equal]
pub struct VistaLibro {
    pub nombre: Seq<char>,
    pub paginas: u16,
    pub disponible: bool,
}

/// A book entry: a name, a page count and an availability flag.
///
/// A book has no identity beyond its name; operations that look a book up by
/// name act on the first matching entry in sequence order.
pub struct Libro {
    pub nombre: String,
    pub paginas: u16,
    pub disponible: bool,
}

impl View for Libro {
    type V = VistaLibro;

    open spec fn view(&self) -> VistaLibro {
        VistaLibro { nombre: self.nombre@, paginas: self.paginas, disponible: self.disponible }
    }
}

impl Libro {
    /// A book name must stay within the length bound.
    pub open spec fn nombre_valido(self) -> bool {
        self@.nombre.len() <= LONGITUD_MAXIMA_NOMBRE
    }
}

impl Clone for Libro {
    fn clone(&self) -> (res: Self)
        ensures
            res@ == self@,
    {
        Libro { nombre: self.nombre.clone(), paginas: self.paginas, disponible: self.disponible }
    }
}

} // verus!
