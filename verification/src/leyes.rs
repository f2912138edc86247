use vstd::prelude::*;
use crate::biblioteca::{
    contiene_libro, efecto_agregar, efecto_alternar, efecto_eliminar, lema_primer_indice,
    lema_primer_indice_es, primer_indice,
};
use crate::libro::VistaLibro;
use crate::{CAPACIDAD_MAXIMA, LONGITUD_MAXIMA_NOMBRE};

verus! {

/// One mutating operation on a book collection, in the abstract: what the
/// caller asked for, stripped of authorization (which changes nothing when it
/// fails) and of the record around the collection.
pub enum Operacion {
    Agregar { nombre: Seq<char>, paginas: u16 },
    Eliminar { nombre: Seq<char> },
    Alternar { nombre: Seq<char> },
}

/// The collection a successful operation leaves behind; `None` when the
/// operation fails (an over-long name or a full collection on append, a
/// missing name on remove or toggle), in which case nothing changes.
pub open spec fn efecto(libros: Seq<VistaLibro>, op: Operacion) -> Option<Seq<VistaLibro>> {
    match op {
        Operacion::Agregar { nombre, paginas } => if nombre.len() <= LONGITUD_MAXIMA_NOMBRE
            && libros.len() < CAPACIDAD_MAXIMA {
            Some(efecto_agregar(libros, nombre, paginas))
        } else {
            None
        },
        Operacion::Eliminar { nombre } => if contiene_libro(libros, nombre) {
            Some(efecto_eliminar(libros, nombre))
        } else {
            None
        },
        Operacion::Alternar { nombre } => if contiene_libro(libros, nombre) {
            Some(efecto_alternar(libros, nombre))
        } else {
            None
        },
    }
}

/// The net effect of a sequence of operations, each of which must succeed.
pub open spec fn efecto_secuencia(libros: Seq<VistaLibro>, ops: Seq<Operacion>) -> Option<
    Seq<VistaLibro>,
>
    decreases ops.len(),
{
    if ops.len() == 0 {
        Some(libros)
    } else {
        match efecto(libros, ops[0]) {
            Some(siguiente) => efecto_secuencia(siguiente, ops.subrange(1, ops.len() as int)),
            None => None,
        }
    }
}

/// Sequences of operations compose: running one more operation after a
/// successful sequence is the same as applying that operation's effect to the
/// sequence's net result. With the exact per-operation contracts, this is how
/// the collection a read returns after any run of successful operations is
/// exactly that run's net effect.
pub proof fn ley_secuencia_extendida(libros: Seq<VistaLibro>, ops: Seq<Operacion>, op: Operacion)
    requires
        efecto_secuencia(libros, ops) is Some,
    ensures
        efecto_secuencia(libros, ops.push(op)) == efecto(
            efecto_secuencia(libros, ops).unwrap(),
            op,
        ),
    decreases ops.len(),
{
    reveal_with_fuel(efecto_secuencia, 3);
    if ops.len() == 0 {
        assert(ops.push(op)[0] == op);
        assert(ops.push(op).subrange(1, 1) =~= Seq::<Operacion>::empty());
    } else {
        let siguiente = efecto(libros, ops[0]).unwrap();
        ley_secuencia_extendida(siguiente, ops.subrange(1, ops.len() as int), op);
        assert(ops.push(op)[0] == ops[0]);
        assert(ops.push(op).subrange(1, ops.len() as int + 1) =~= ops.subrange(
            1,
            ops.len() as int,
        ).push(op));
    }
}

/// Toggling a present name leaves it present, and toggling it twice in
/// succession restores the collection exactly as it was.
pub proof fn ley_alternar_involucion(libros: Seq<VistaLibro>, nombre: Seq<char>)
    requires
        contiene_libro(libros, nombre),
    ensures
        contiene_libro(efecto_alternar(libros, nombre), nombre),
        efecto_alternar(efecto_alternar(libros, nombre), nombre) == libros,
{
    lema_primer_indice(libros, nombre);
    let i = primer_indice(libros, nombre);
    let una_vez = efecto_alternar(libros, nombre);
    assert(una_vez[i].nombre == nombre);
    assert(contiene_libro(una_vez, nombre));
    lema_primer_indice_es(una_vez, nombre, i);
    assert(efecto_alternar(una_vez, nombre) =~= libros);
}

/// The capacity invariant: however long a sequence of successful operations
/// runs, the collection never outgrows its capacity.
pub proof fn ley_capacidad_preservada(libros: Seq<VistaLibro>, ops: Seq<Operacion>)
    requires
        libros.len() <= CAPACIDAD_MAXIMA,
    ensures
        efecto_secuencia(libros, ops) matches Some(r) ==> r.len() <= CAPACIDAD_MAXIMA,
    decreases ops.len(),
{
    if ops.len() > 0 {
        match efecto(libros, ops[0]) {
            Some(siguiente) => {
                match ops[0] {
                    Operacion::Agregar { nombre, paginas } => {
                        assert(siguiente.len() == libros.len() + 1);
                    },
                    Operacion::Eliminar { nombre } => {
                        lema_primer_indice(libros, nombre);
                        assert(siguiente.len() == libros.len() - 1);
                    },
                    Operacion::Alternar { nombre } => {
                        lema_primer_indice(libros, nombre);
                        assert(siguiente.len() == libros.len());
                    },
                }
                ley_capacidad_preservada(siguiente, ops.subrange(1, ops.len() as int));
            },
            None => {},
        }
    }
}

/// Removing a present name removes exactly the first entry that bears it: the
/// length drops by one, the entries before it are untouched, and the entries
/// after it move up one place, keeping their relative order.
pub proof fn ley_eliminar_primero(libros: Seq<VistaLibro>, nombre: Seq<char>)
    requires
        contiene_libro(libros, nombre),
    ensures
        ({
            let i = primer_indice(libros, nombre);
            let restantes = efecto_eliminar(libros, nombre);
            &&& 0 <= i < libros.len()
            &&& libros[i].nombre == nombre
            &&& forall|j: int| 0 <= j < i ==> libros[j].nombre != nombre
            &&& restantes.len() == libros.len() - 1
            &&& forall|j: int| 0 <= j < i ==> restantes[j] == libros[j]
            &&& forall|j: int| i <= j < restantes.len() ==> restantes[j] == libros[j + 1]
        }),
{
    lema_primer_indice(libros, nombre);
    libros.remove_ensures(primer_indice(libros, nombre));
}

/// A round trip through the collection: appending a fresh name and then
/// removing that same name is no net effect at all.
pub proof fn ley_agregar_luego_eliminar(libros: Seq<VistaLibro>, nombre: Seq<char>, paginas: u16)
    requires
        !contiene_libro(libros, nombre),
        nombre.len() <= LONGITUD_MAXIMA_NOMBRE,
        libros.len() < CAPACIDAD_MAXIMA,
    ensures
        efecto_secuencia(
            libros,
            seq![
                Operacion::Agregar { nombre, paginas },
                Operacion::Eliminar { nombre },
            ],
        ) == Some(libros),
{
    reveal_with_fuel(efecto_secuencia, 4);
    let ops = seq![Operacion::Agregar { nombre, paginas }, Operacion::Eliminar { nombre }];
    let con_libro = efecto_agregar(libros, nombre, paginas);
    assert(con_libro[libros.len() as int].nombre == nombre);
    assert(contiene_libro(con_libro, nombre));
    assert forall|j: int| 0 <= j < libros.len() implies con_libro[j].nombre != nombre by {
        assert(con_libro[j] == libros[j]);
    }
    lema_primer_indice_es(con_libro, nombre, libros.len() as int);
    assert(efecto_eliminar(con_libro, nombre) =~= libros);
    assert(ops.subrange(1, 2)[0] == Operacion::Eliminar { nombre });
    assert(ops.subrange(1, 2).subrange(1, 1) =~= Seq::<Operacion>::empty());
}

/// At the sequence level, two toggles of a present name are no net effect.
pub proof fn ley_alternar_dos_veces(libros: Seq<VistaLibro>, nombre: Seq<char>)
    requires
        contiene_libro(libros, nombre),
    ensures
        efecto_secuencia(
            libros,
            seq![Operacion::Alternar { nombre }, Operacion::Alternar { nombre }],
        ) == Some(libros),
{
    reveal_with_fuel(efecto_secuencia, 4);
    let ops = seq![Operacion::Alternar { nombre }, Operacion::Alternar { nombre }];
    ley_alternar_involucion(libros, nombre);
    assert(ops.subrange(1, 2)[0] == Operacion::Alternar { nombre });
    assert(ops.subrange(1, 2).subrange(1, 1) =~= Seq::<Operacion>::empty());
}

} // verus!
