use vstd::prelude::*;

verus! {

/// The outcome of the program-derived-address search for a seed, an owner
/// identity and a program identity: a pure function of those three inputs,
/// whether it succeeds included, so the same owner always resolves to the
/// same address and a record needs no separate directory. `None` is the
/// statistically improbable case that no bump yields a valid address.
pub uninterp spec fn direccion_pda(sello: Seq<u8>, owner: Seq<u8>, programa: Seq<u8>) -> Option<
    (Seq<u8>, u8),
>;

/// Relies on `Pubkey::try_find_program_address` with the seeds
/// `[sello, owner]`: its whole result, the `Some`/`None` outcome included, is
/// computed from the seeds and the program identity alone, it never panics,
/// and it returns `None` only when no valid derived address exists for any
/// bump.
#[verifier::external_body]
fn buscar_direccion_programa(sello: &Vec<u8>, owner: &[u8; 32], programa: &[u8; 32]) -> (r: Option<
    ([u8; 32], u8),
>)
    ensures
        (match r {
            Some(p) => Some((p.0@, p.1)),
            None => None,
        }) == direccion_pda(sello@, owner@, programa@),
{
    let clave = anchor_lang::prelude::Pubkey::new_from_array(*owner);
    let id_programa = anchor_lang::prelude::Pubkey::new_from_array(*programa);
    let semillas: [&[u8]; 2] = [sello.as_slice(), clave.as_ref()];
    match anchor_lang::prelude::Pubkey::try_find_program_address(&semillas, &id_programa) {
        Some((direccion, bump)) => Some((direccion.to_bytes(), bump)),
        None => None,
    }
}

/// The fixed namespace label under which every library record is addressed:
/// the bytes of `"biblioteca"`.
pub open spec fn sello_biblioteca() -> Seq<u8> {
    seq![98u8, 105u8, 98u8, 108u8, 105u8, 111u8, 116u8, 101u8, 99u8, 97u8]
}

/// Deterministic address resolution: an owner's record lives at an address
/// computed from the fixed namespace label, the owner identity and the
/// program identity, both when the record is created and when it is looked up
/// again, and whether resolution succeeds is itself fixed by those inputs,
/// so two calls on the same owner cannot disagree. `None` can arise only in
/// the statistically improbable case that the derivation primitive finds no
/// valid address for this owner.
pub fn resolver_direccion(owner: &[u8; 32], programa: &[u8; 32]) -> (r: Option<[u8; 32]>)
    ensures
        r is Some <==> direccion_pda(sello_biblioteca(), owner@, programa@) is Some,
        r matches Some(d) ==> d@ == direccion_pda(
            sello_biblioteca(),
            owner@,
            programa@,
        ).unwrap().0,
{
    let mut sello: Vec<u8> = Vec::new();
    sello.push(98);
    sello.push(105);
    sello.push(98);
    sello.push(108);
    sello.push(105);
    sello.push(111);
    sello.push(116);
    sello.push(101);
    sello.push(99);
    sello.push(97);
    proof {
        assert(sello@ =~= sello_biblioteca());
    }
    match buscar_direccion_programa(&sello, owner, programa) {
        Some(par) => Some(par.0),
        None => None,
    }
}

} // verus!
