use biblioteca::biblioteca::{
    agregar_libro, alternar_estado, autorizar, crear_biblioteca, eliminar_libro, ver_libros,
    Biblioteca,
};
use biblioteca::direccion::resolver_direccion;
use biblioteca::errores::Errores;
use anchor_lang::prelude::Pubkey;

fn clave(n: u8) -> [u8; 32] {
    [n; 32]
}

fn biblioteca_de(owner: [u8; 32]) -> Biblioteca {
    crear_biblioteca(owner, "mi casa".to_string()).unwrap()
}

#[test]
fn crear_establece_owner_y_libros_vacios() {
    let owner = clave(7);
    let b = crear_biblioteca(owner, "lecturas".to_string()).unwrap();
    assert_eq!(b.owner, owner);
    assert_eq!(b.nombre, "lecturas".to_string());
    assert_eq!(b.libros.len(), 0);
    let lista = ver_libros(&b, &owner).unwrap();
    assert_eq!(lista.len(), 0);
}

#[test]
fn crear_rechaza_nombre_largo() {
    let owner = clave(1);
    let nombre_largo: String = "x".repeat(61);
    let r = crear_biblioteca(owner, nombre_largo);
    assert_eq!(r.err().unwrap(), Errores::NombreDemasiadoLargo);
    let nombre_justo: String = "y".repeat(60);
    assert!(crear_biblioteca(owner, nombre_justo).is_ok());
}

#[test]
fn autorizar_distingue_al_owner() {
    let owner = clave(3);
    let b = biblioteca_de(owner);
    assert!(autorizar(&b, &owner).is_ok());
    assert_eq!(autorizar(&b, &clave(4)).err().unwrap(), Errores::NoEresElOwner);
}

#[test]
fn caller_ajeno_falla_y_no_cambia_nada() {
    let owner = clave(5);
    let intruso = clave(6);
    let mut b = biblioteca_de(owner);
    agregar_libro(&mut b, &owner, "Dune".to_string(), 412).unwrap();

    let r = agregar_libro(&mut b, &intruso, "Otro".to_string(), 1);
    assert_eq!(r.err().unwrap(), Errores::NoEresElOwner);
    let r = eliminar_libro(&mut b, &intruso, "Dune".to_string());
    assert_eq!(r.err().unwrap(), Errores::NoEresElOwner);
    let r = alternar_estado(&mut b, &intruso, "Dune".to_string());
    assert_eq!(r.err().unwrap(), Errores::NoEresElOwner);
    let r = ver_libros(&b, &intruso);
    assert_eq!(r.err().unwrap(), Errores::NoEresElOwner);

    assert_eq!(b.owner, owner);
    assert_eq!(b.libros.len(), 1);
    assert_eq!(b.libros[0].nombre, "Dune".to_string());
    assert_eq!(b.libros[0].paginas, 412);
    assert!(b.libros[0].disponible);
}

#[test]
fn agregar_en_biblioteca_vacia() {
    let owner = clave(2);
    let mut b = biblioteca_de(owner);
    agregar_libro(&mut b, &owner, "Dune".to_string(), 412).unwrap();
    let lista = ver_libros(&b, &owner).unwrap();
    assert_eq!(lista.len(), 1);
    assert_eq!(lista[0].nombre, "Dune".to_string());
    assert_eq!(lista[0].paginas, 412);
    assert!(lista[0].disponible);
}

#[test]
fn agregar_rechaza_nombre_largo() {
    let owner = clave(2);
    let mut b = biblioteca_de(owner);
    let r = agregar_libro(&mut b, &owner, "z".repeat(61), 5);
    assert_eq!(r.err().unwrap(), Errores::NombreDemasiadoLargo);
    assert_eq!(b.libros.len(), 0);
}

#[test]
fn capacidad_diez_y_el_undecimo_falla() {
    let owner = clave(9);
    let mut b = biblioteca_de(owner);
    for i in 0..10u16 {
        let nombre = format!("libro {}", i);
        agregar_libro(&mut b, &owner, nombre, i).unwrap();
    }
    assert_eq!(b.libros.len(), 10);
    let r = agregar_libro(&mut b, &owner, "uno mas".to_string(), 11);
    assert_eq!(r.err().unwrap(), Errores::CapacidadExcedida);
    assert_eq!(b.libros.len(), 10);
}

#[test]
fn eliminar_quita_la_primera_coincidencia() {
    let owner = clave(8);
    let mut b = biblioteca_de(owner);
    agregar_libro(&mut b, &owner, "Dune".to_string(), 412).unwrap();
    agregar_libro(&mut b, &owner, "Fundacion".to_string(), 255).unwrap();
    agregar_libro(&mut b, &owner, "Dune".to_string(), 600).unwrap();

    eliminar_libro(&mut b, &owner, "Dune".to_string()).unwrap();
    let lista = ver_libros(&b, &owner).unwrap();
    assert_eq!(lista.len(), 2);
    assert_eq!(lista[0].nombre, "Fundacion".to_string());
    assert_eq!(lista[1].nombre, "Dune".to_string());
    assert_eq!(lista[1].paginas, 600);
}

#[test]
fn eliminar_nombre_ausente_falla() {
    let owner = clave(8);
    let mut b = biblioteca_de(owner);
    agregar_libro(&mut b, &owner, "Dune".to_string(), 412).unwrap();
    let r = eliminar_libro(&mut b, &owner, "Nope".to_string());
    assert_eq!(r.err().unwrap(), Errores::LibroNoExiste);
    assert_eq!(b.libros.len(), 1);
}

#[test]
fn alternar_dos_veces_restaura() {
    let owner = clave(4);
    let mut b = biblioteca_de(owner);
    agregar_libro(&mut b, &owner, "Dune".to_string(), 412).unwrap();
    assert!(b.libros[0].disponible);
    alternar_estado(&mut b, &owner, "Dune".to_string()).unwrap();
    assert!(!b.libros[0].disponible);
    alternar_estado(&mut b, &owner, "Dune".to_string()).unwrap();
    assert!(b.libros[0].disponible);
}

#[test]
fn alternar_solo_la_primera_coincidencia() {
    let owner = clave(4);
    let mut b = biblioteca_de(owner);
    agregar_libro(&mut b, &owner, "Dune".to_string(), 412).unwrap();
    agregar_libro(&mut b, &owner, "Dune".to_string(), 600).unwrap();
    alternar_estado(&mut b, &owner, "Dune".to_string()).unwrap();
    assert!(!b.libros[0].disponible);
    assert!(b.libros[1].disponible);
}

#[test]
fn alternar_nombre_ausente_falla() {
    let owner = clave(4);
    let mut b = biblioteca_de(owner);
    let r = alternar_estado(&mut b, &owner, "Dune".to_string());
    assert_eq!(r.err().unwrap(), Errores::LibroNoExiste);
    assert_eq!(b.libros.len(), 0);
}

#[test]
fn la_lista_refleja_el_efecto_neto_en_orden() {
    let owner = clave(11);
    let mut b = biblioteca_de(owner);
    agregar_libro(&mut b, &owner, "a".to_string(), 1).unwrap();
    agregar_libro(&mut b, &owner, "b".to_string(), 2).unwrap();
    agregar_libro(&mut b, &owner, "c".to_string(), 3).unwrap();
    alternar_estado(&mut b, &owner, "b".to_string()).unwrap();
    eliminar_libro(&mut b, &owner, "a".to_string()).unwrap();
    agregar_libro(&mut b, &owner, "d".to_string(), 4).unwrap();

    let lista = ver_libros(&b, &owner).unwrap();
    let nombres: Vec<String> = lista.iter().map(|l| l.nombre.clone()).collect();
    assert_eq!(nombres, vec!["b".to_string(), "c".to_string(), "d".to_string()]);
    assert!(!lista[0].disponible);
    assert!(lista[1].disponible);
    assert!(lista[2].disponible);
    assert_eq!(lista[0].paginas, 2);
}

#[test]
fn la_direccion_es_determinista_y_propia_del_owner() {
    let programa = clave(42);
    let a = resolver_direccion(&clave(1), &programa).unwrap();
    let b = resolver_direccion(&clave(1), &programa).unwrap();
    let c = resolver_direccion(&clave(2), &programa).unwrap();
    assert_eq!(a, b);
    assert_ne!(a, c);
    assert_ne!(a, clave(1));
}

#[test]
fn la_direccion_coincide_con_la_derivacion_del_host() {
    let owner = clave(13);
    let programa = clave(42);
    let nuestra = resolver_direccion(&owner, &programa).unwrap();
    let clave_owner = Pubkey::new_from_array(owner);
    let id_programa = Pubkey::new_from_array(programa);
    let (esperada, _bump) =
        Pubkey::find_program_address(&[b"biblioteca", clave_owner.as_ref()], &id_programa);
    assert_eq!(nuestra, esperada.to_bytes());
}
