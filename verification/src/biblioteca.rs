use vstd::prelude::*;
use crate::errores::Errores;
use crate::libro::{Libro, VistaLibro};
use crate::{CAPACIDAD_MAXIMA, LONGITUD_MAXIMA_NOMBRE};

verus! {

/// Mathematical view of a library record: the owner's identity bytes, the
/// library name as a character sequence, and the ordered book collection.
#[verifier::ext_equal]
pub struct VistaBiblioteca {
    pub owner: Seq<u8>,
    pub nombre: Seq<char>,
    pub libros: Seq<VistaLibro>,
}

/// The per-owner record: an immutable 32-byte owner identity, a bounded name,
/// and an ordered, bounded collection of books.
pub struct Biblioteca {
    pub owner: [u8; 32],
    pub nombre: String,
    pub libros: Vec<Libro>,
}

impl View for Biblioteca {
    type V = VistaBiblioteca;

    open spec fn view(&self) -> VistaBiblioteca {
        VistaBiblioteca {
            owner: self.owner@,
            nombre: self.nombre@,
            libros: self.libros@.map_values(|l: Libro| l@),
        }
    }
}

impl Biblioteca {
    /// Well-formedness: the name and every book name stay within the length
    /// bound, and the collection stays within its capacity.
    pub open spec fn valida(self) -> bool {
        &&& self@.nombre.len() <= LONGITUD_MAXIMA_NOMBRE
        &&& self@.libros.len() <= CAPACIDAD_MAXIMA
        &&& forall|i: int|
            0 <= i < self@.libros.len() ==> (#[trigger] self@.libros[i]).nombre.len()
                <= LONGITUD_MAXIMA_NOMBRE
    }
}

/// Whether some book in the sequence bears this name.
pub open spec fn contiene_libro(libros: Seq<VistaLibro>, nombre: Seq<char>) -> bool {
    exists|i: int| 0 <= i < libros.len() && libros[i].nombre == nombre
}

/// Index of the first book bearing this name; the sequence length when none
/// does.
pub open spec fn primer_indice(libros: Seq<VistaLibro>, nombre: Seq<char>) -> int
    decreases libros.len(),
{
    if libros.len() == 0 {
        0
    } else if libros[0].nombre == nombre {
        0
    } else {
        1 + primer_indice(libros.subrange(1, libros.len() as int), nombre)
    }
}

/// What a successful append leaves behind: the new book, available, at the end.
pub open spec fn efecto_agregar(
    libros: Seq<VistaLibro>,
    nombre: Seq<char>,
    paginas: u16,
) -> Seq<VistaLibro> {
    libros.push(VistaLibro { nombre, paginas, disponible: true })
}

/// What a successful removal leaves behind: the first entry bearing the name
/// is gone, the rest keep their relative order.
pub open spec fn efecto_eliminar(libros: Seq<VistaLibro>, nombre: Seq<char>) -> Seq<VistaLibro> {
    libros.remove(primer_indice(libros, nombre))
}

/// What a successful toggle leaves behind: the first entry bearing the name
/// has its availability flag flipped, everything else is untouched.
pub open spec fn efecto_alternar(libros: Seq<VistaLibro>, nombre: Seq<char>) -> Seq<VistaLibro> {
    let i = primer_indice(libros, nombre);
    libros.update(i, VistaLibro { disponible: !libros[i].disponible, ..libros[i] })
}

/// `primer_indice` finds the first match: it stays within bounds, it lands on
/// a matching entry exactly when one exists, and nothing before it matches.
pub proof fn lema_primer_indice(libros: Seq<VistaLibro>, nombre: Seq<char>)
    ensures
        0 <= primer_indice(libros, nombre) <= libros.len(),
        contiene_libro(libros, nombre) <==> primer_indice(libros, nombre) < libros.len(),
        primer_indice(libros, nombre) < libros.len() ==> libros[primer_indice(
            libros,
            nombre,
        )].nombre == nombre,
        forall|j: int| 0 <= j < primer_indice(libros, nombre) ==> libros[j].nombre != nombre,
    decreases libros.len(),
{
    if libros.len() == 0 {
    } else if libros[0].nombre == nombre {
    } else {
        let cola = libros.subrange(1, libros.len() as int);
        lema_primer_indice(cola, nombre);
        assert(forall|j: int| 0 <= j < cola.len() ==> cola[j] == libros[j + 1]);
        if contiene_libro(cola, nombre) {
            assert(contiene_libro(libros, nombre));
        }
        if contiene_libro(libros, nombre) {
            let i = choose|i: int| 0 <= i < libros.len() && libros[i].nombre == nombre;
            assert(cola[i - 1] == libros[i]);
            assert(contiene_libro(cola, nombre));
        }
        assert forall|j: int| 0 <= j < primer_indice(libros, nombre) implies libros[j].nombre
            != nombre by {
            if j >= 1 {
                assert(libros[j] == cola[j - 1]);
            }
        }
    }
}

/// Comparison of two 32-byte identities, byte for byte.
fn claves_iguales(a: &[u8; 32], b: &[u8; 32]) -> (r: bool)
    ensures
        r == (a@ == b@),
{
    let mut i: usize = 0;
    while i < 32
        invariant
            0 <= i <= 32,
            forall|j: int| 0 <= j < i ==> a@[j] == b@[j],
        decreases 32 - i,
    {
        if a[i] != b[i] {
            assert(a@[i as int] != b@[i as int]);
            return false;
        }
        i += 1;
    }
    proof {
        assert(a@ =~= b@);
    }
    true
}

/// The authorization gate, applied first by every operation except creation:
/// it passes exactly when the caller is the recorded owner, and otherwise
/// refuses with `NoEresElOwner`.
pub fn autorizar(biblioteca: &Biblioteca, caller: &[u8; 32]) -> (r: Result<(), Errores>)
    ensures
        r == if biblioteca@.owner == caller@ {
            Ok::<(), Errores>(())
        } else {
            Err::<(), Errores>(Errores::NoEresElOwner)
        },
{
    if claves_iguales(&biblioteca.owner, caller) {
        Ok(())
    } else {
        Err(Errores::NoEresElOwner)
    }
}

/// Creates the one library record an owner may hold: the owner identity is
/// fixed at creation, the name is validated against the length bound, and the
/// book collection starts empty.
pub fn crear_biblioteca(owner: [u8; 32], nombre: String) -> (r: Result<Biblioteca, Errores>)
    ensures
        nombre@.len() <= LONGITUD_MAXIMA_NOMBRE <==> r is Ok,
        r matches Ok(b) ==> {
            &&& b@.owner == owner@
            &&& b@.nombre == nombre@
            &&& b@.libros == Seq::<VistaLibro>::empty()
            &&& b.valida()
        },
        r matches Err(e) ==> e == Errores::NombreDemasiadoLargo,
{
    if nombre.as_str().unicode_len() > LONGITUD_MAXIMA_NOMBRE {
        return Err(Errores::NombreDemasiadoLargo);
    }
    let libros: Vec<Libro> = Vec::new();
    let b = Biblioteca { owner, nombre, libros };
    proof {
        assert(b@.libros =~= Seq::<VistaLibro>::empty());
    }
    Ok(b)
}

/// Appends a book with `disponible == true` to the end of the collection.
///
/// Checks run in this order: the authorization gate first, then the name
/// length bound, then the capacity bound; the first failed check decides the
/// error, and a failed operation leaves the record exactly as it was.
pub fn agregar_libro(
    biblioteca: &mut Biblioteca,
    caller: &[u8; 32],
    nombre: String,
    paginas: u16,
) -> (r: Result<(), Errores>)
    requires
        old(biblioteca).valida(),
    ensures
        final(biblioteca).valida(),
        r is Err ==> *final(biblioteca) == *old(biblioteca),
        caller@ != old(biblioteca)@.owner ==> r == Err::<(), Errores>(Errores::NoEresElOwner),
        caller@ == old(biblioteca)@.owner && nombre@.len() > LONGITUD_MAXIMA_NOMBRE ==> r
            == Err::<(), Errores>(Errores::NombreDemasiadoLargo),
        caller@ == old(biblioteca)@.owner && nombre@.len() <= LONGITUD_MAXIMA_NOMBRE && old(
            biblioteca,
        )@.libros.len() >= CAPACIDAD_MAXIMA ==> r == Err::<(), Errores>(Errores::CapacidadExcedida),
        caller@ == old(biblioteca)@.owner && nombre@.len() <= LONGITUD_MAXIMA_NOMBRE && old(
            biblioteca,
        )@.libros.len() < CAPACIDAD_MAXIMA ==> {
            &&& r == Ok::<(), Errores>(())
            &&& final(biblioteca)@.libros == efecto_agregar(old(biblioteca)@.libros, nombre@, paginas)
        },
        final(biblioteca)@.owner == old(biblioteca)@.owner,
        final(biblioteca)@.nombre == old(biblioteca)@.nombre,
{
    if let Err(e) = autorizar(biblioteca, caller) {
        return Err(e);
    }
    if nombre.as_str().unicode_len() > LONGITUD_MAXIMA_NOMBRE {
        return Err(Errores::NombreDemasiadoLargo);
    }
    if biblioteca.libros.len() >= CAPACIDAD_MAXIMA {
        return Err(Errores::CapacidadExcedida);
    }
    let libro = Libro { nombre, paginas, disponible: true };
    let ghost antes = biblioteca@.libros;
    let ghost vista = libro@;
    biblioteca.libros.push(libro);
    proof {
        assert(biblioteca@.libros =~= antes.push(vista));
    }
    Ok(())
}

/// Removes the first book bearing the given name, keeping the relative order
/// of the remaining entries; fails with `LibroNoExiste`, and changes nothing,
/// when no book bears it. The authorization gate runs first.
pub fn eliminar_libro(biblioteca: &mut Biblioteca, caller: &[u8; 32], nombre: String) -> (r: Result<
    (),
    Errores,
>)
    requires
        old(biblioteca).valida(),
    ensures
        final(biblioteca).valida(),
        r is Err ==> *final(biblioteca) == *old(biblioteca),
        caller@ != old(biblioteca)@.owner ==> r == Err::<(), Errores>(Errores::NoEresElOwner),
        caller@ == old(biblioteca)@.owner && !contiene_libro(old(biblioteca)@.libros, nombre@)
            ==> r == Err::<(), Errores>(Errores::LibroNoExiste),
        caller@ == old(biblioteca)@.owner && contiene_libro(old(biblioteca)@.libros, nombre@)
            ==> {
            &&& r == Ok::<(), Errores>(())
            &&& final(biblioteca)@.libros == efecto_eliminar(old(biblioteca)@.libros, nombre@)
        },
        final(biblioteca)@.owner == old(biblioteca)@.owner,
        final(biblioteca)@.nombre == old(biblioteca)@.nombre,
{
    if let Err(e) = autorizar(biblioteca, caller) {
        return Err(e);
    }
    let mut i: usize = 0;
    while i < biblioteca.libros.len()
        invariant
            *biblioteca == *old(biblioteca),
            old(biblioteca).valida(),
            caller@ == old(biblioteca)@.owner,
            0 <= i <= biblioteca@.libros.len(),
            forall|j: int| 0 <= j < i ==> biblioteca@.libros[j].nombre != nombre@,
        decreases biblioteca@.libros.len() - i,
    {
        if biblioteca.libros[i].nombre == nombre {
            proof {
                lema_primer_indice_es(biblioteca@.libros, nombre@, i as int);
                assert(biblioteca@.libros[i as int].nombre == nombre@);
                assert(contiene_libro(biblioteca@.libros, nombre@));
            }
            let ghost antes = biblioteca@.libros;
            biblioteca.libros.remove(i);
            proof {
                assert(biblioteca@.libros =~= antes.remove(i as int));
                antes.remove_ensures(i as int);
            }
            return Ok(());
        }
        i += 1;
    }
    Err(Errores::LibroNoExiste)
}

/// `primer_indice` is pinned by a witness: if nothing before `i` matches and
/// the entry at `i` does, then `i` is the first index.
pub proof fn lema_primer_indice_es(libros: Seq<VistaLibro>, nombre: Seq<char>, i: int)
    requires
        0 <= i < libros.len(),
        libros[i].nombre == nombre,
        forall|j: int| 0 <= j < i ==> libros[j].nombre != nombre,
    ensures
        primer_indice(libros, nombre) == i,
    decreases i,
{
    if libros[0].nombre == nombre {
        assert(i == 0);
    } else {
        let cola = libros.subrange(1, libros.len() as int);
        assert(forall|j: int| 0 <= j < cola.len() ==> cola[j] == libros[j + 1]);
        lema_primer_indice_es(cola, nombre, i - 1);
    }
}

/// Flips the availability flag of the first book bearing the given name;
/// fails with `LibroNoExiste`, and changes nothing, when no book bears it.
/// The authorization gate runs first.
pub fn alternar_estado(biblioteca: &mut Biblioteca, caller: &[u8; 32], nombre: String) -> (r:
    Result<(), Errores>)
    requires
        old(biblioteca).valida(),
    ensures
        final(biblioteca).valida(),
        r is Err ==> *final(biblioteca) == *old(biblioteca),
        caller@ != old(biblioteca)@.owner ==> r == Err::<(), Errores>(Errores::NoEresElOwner),
        caller@ == old(biblioteca)@.owner && !contiene_libro(old(biblioteca)@.libros, nombre@)
            ==> r == Err::<(), Errores>(Errores::LibroNoExiste),
        caller@ == old(biblioteca)@.owner && contiene_libro(old(biblioteca)@.libros, nombre@)
            ==> {
            &&& r == Ok::<(), Errores>(())
            &&& final(biblioteca)@.libros == efecto_alternar(old(biblioteca)@.libros, nombre@)
        },
        final(biblioteca)@.owner == old(biblioteca)@.owner,
        final(biblioteca)@.nombre == old(biblioteca)@.nombre,
{
    if let Err(e) = autorizar(biblioteca, caller) {
        return Err(e);
    }
    let mut i: usize = 0;
    while i < biblioteca.libros.len()
        invariant
            *biblioteca == *old(biblioteca),
            old(biblioteca).valida(),
            caller@ == old(biblioteca)@.owner,
            0 <= i <= biblioteca@.libros.len(),
            forall|j: int| 0 <= j < i ==> biblioteca@.libros[j].nombre != nombre@,
        decreases biblioteca@.libros.len() - i,
    {
        if biblioteca.libros[i].nombre == nombre {
            proof {
                lema_primer_indice_es(biblioteca@.libros, nombre@, i as int);
                assert(biblioteca@.libros[i as int].nombre == nombre@);
                assert(contiene_libro(biblioteca@.libros, nombre@));
            }
            let ghost antes = biblioteca@.libros;
            let estado = biblioteca.libros[i].disponible;
            let nuevo_estado = !estado;
            biblioteca.libros[i].disponible = nuevo_estado;
            proof {
                assert(biblioteca@.libros =~= efecto_alternar(antes, nombre@));
            }
            return Ok(());
        }
        i += 1;
    }
    Err(Errores::LibroNoExiste)
}

/// Returns the current book collection, in stored order, as a fresh copy; a
/// pure read that never mutates the record. The authorization gate runs
/// first: a caller other than the owner learns nothing.
pub fn ver_libros(biblioteca: &Biblioteca, caller: &[u8; 32]) -> (r: Result<Vec<Libro>, Errores>)
    ensures
        r is Ok <==> caller@ == biblioteca@.owner,
        r matches Ok(v) ==> v@.map_values(|l: Libro| l@) == biblioteca@.libros,
        r matches Err(e) ==> e == Errores::NoEresElOwner,
{
    if let Err(e) = autorizar(biblioteca, caller) {
        return Err(e);
    }
    let mut copia: Vec<Libro> = Vec::new();
    let mut i: usize = 0;
    while i < biblioteca.libros.len()
        invariant
            0 <= i <= biblioteca@.libros.len(),
            copia@.len() == i,
            forall|j: int| 0 <= j < i ==> (#[trigger] copia@[j])@ == biblioteca@.libros[j],
        decreases biblioteca@.libros.len() - i,
    {
        copia.push(biblioteca.libros[i].clone());
        i += 1;
    }
    proof {
        assert(copia@.map_values(|l: Libro| l@) =~= biblioteca@.libros);
    }
    Ok(copia)
}

} // verus!
