//! Skills: determinísticas. Rolagem de dados e teste de atributo nunca são
//! decididos por texto gerado, sempre por estas funções.

use vstd::prelude::*;

pub mod srd_tables;

verus! {

pub const SKILL_DADOS_VERSION: u32 = 1;

/// O resultado de um teste contra uma dificuldade.
#[derive(Debug, Clone, Copy, PartialEq, Eq, Structural)]
pub struct ResultadoDados {
    pub schema_version: u32,
    pub rolagem: u32,
    pub dificuldade: u32,
    pub sucesso: bool,
}

/// Dois elevado a sessenta e quatro.
pub open spec fn modulo_64() -> int {
    0x1_0000_0000_0000_0000
}

/// O gerador congruencial que embaralha a semente de uma rolagem.
pub open spec fn embaralhado(seed: u64) -> int {
    (seed * 6364136223846793005 + 1442695040888963407) % modulo_64()
}

/// A face que sai num dado de `faces` faces com a semente `seed`.
pub open spec fn face(faces: u32, seed: u64) -> int {
    embaralhado(seed) % (faces as int) + 1
}

/// O resultado de um passo `seed * a + c` em aritmética de 64 bits.
pub fn passo_congruencial(seed: u64, a: u64, c: u64) -> (r: u64)
    ensures
        r == (seed * a + c) % modulo_64(),
{
    let m: u64 = seed.wrapping_mul(a);
    let r: u64 = m.wrapping_add(c);
    proof {
        let p = seed * a;
        assert(p >= 0) by (nonlinear_arith)
            requires
                p == seed * a,
        ;
        assert(m == p % modulo_64());
        vstd::arithmetic::div_mod::lemma_add_mod_noop(p, c as int, modulo_64());
        assert(c as int % modulo_64() == c);
        assert((m + c) % modulo_64() == (p + c) % modulo_64());
    }
    r
}

/// Rola um dado de `faces` faces.
pub fn skill_rolar_dado(faces: u32, seed: u64) -> (r: u32)
    requires
        faces > 0,
    ensures
        r == face(faces, seed),
        1 <= r <= faces,
{
    let x: u64 = passo_congruencial(seed, 6364136223846793005, 1442695040888963407);
    ((x % (faces as u64)) + 1) as u32
}

/// Testa uma rolagem de um dado de vinte faces contra uma dificuldade.
pub fn skill_dados(dificuldade: u32, seed: u64) -> (r: ResultadoDados)
    ensures
        r.schema_version == SKILL_DADOS_VERSION,
        r.rolagem == face(20, seed),
        1 <= r.rolagem <= 20,
        r.dificuldade == dificuldade,
        r.sucesso <==> r.rolagem >= dificuldade,
{
    let rolagem: u32 = skill_rolar_dado(20, seed);
    ResultadoDados {
        schema_version: SKILL_DADOS_VERSION,
        rolagem,
        dificuldade,
        sucesso: rolagem >= dificuldade,
    }
}

/// Toda rolagem cai numa face do dado.
pub proof fn lei_face_existe(faces: u32, seed: u64)
    requires
        faces > 0,
    ensures
        1 <= face(faces, seed) <= faces,
{
}

/// A face que sai: um passo do gerador congruencial em 64 bits, reduzido ao
/// número de faces.
pub proof fn lei_face(faces: u32, seed: u64)
    requires
        faces > 0,
    ensures
        face(faces, seed) == ((seed * 6364136223846793005 + 1442695040888963407)
            % 0x1_0000_0000_0000_0000) % (faces as int) + 1,
{
}

} // verus!
