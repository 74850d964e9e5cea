//! Tabelas e fórmulas do SRD 5.1: regra numérica nunca é decidida por modelo
//! de linguagem, só por função.

use crate::texto::{mesmo_texto, minusculas, minusculas_ascii, textos};
use vstd::prelude::*;
use vstd::utf8::is_ascii_chars;

verus! {

/// O bônus de proficiência de cada nível de personagem.
pub open spec fn bonus_do_nivel(nivel: u8) -> int {
    if 1 <= nivel <= 4 {
        2
    } else if 5 <= nivel <= 8 {
        3
    } else if 9 <= nivel <= 12 {
        4
    } else if 13 <= nivel <= 16 {
        5
    } else {
        6
    }
}

/// O modificador de um valor de atributo: metade do que passa de dez,
/// arredondada para baixo.
pub open spec fn modificador(valor: int) -> int {
    (valor - 10) / 2
}

/// A CD de conjuração, que nunca é negativa.
pub open spec fn cd_conjuracao(nivel: u8, valor: int) -> int {
    let cd = 8 + bonus_do_nivel(nivel) + modificador(valor);
    if cd < 0 {
        0
    } else {
        cd
    }
}

/// Bônus de proficiência por nível de personagem.
pub fn bonus_proficiencia(nivel: u8) -> (b: i32)
    ensures
        b == bonus_do_nivel(nivel),
{
    match nivel {
        1..=4 => 2,
        5..=8 => 3,
        9..=12 => 4,
        13..=16 => 5,
        _ => 6,
    }
}

/// Modificador de atributo a partir do valor bruto, arredondado para baixo
/// também abaixo de dez.
pub fn modificador_atributo(valor_atributo: i32) -> (m: i32)
    requires
        i32::MIN <= valor_atributo - 10,
    ensures
        m == modificador(valor_atributo as int),
{
    let acima: i32 = valor_atributo - 10;
    if acima >= 0 {
        acima / 2
    } else {
        // `-(acima + 1) / 2` não passa do máximo nem para o menor `acima`.
        -(-(acima + 1) / 2) - 1
    }
}

/// CD de conjuração: oito mais a proficiência mais o modificador do atributo.
pub fn skill_cd_conjuracao(nivel: u8, valor_atributo: i32) -> (cd: u32)
    requires
        i32::MIN <= valor_atributo - 10,
    ensures
        cd == cd_conjuracao(nivel, valor_atributo as int),
{
    let cd: i32 = 8 + bonus_proficiencia(nivel) + modificador_atributo(valor_atributo);
    if cd < 0 {
        0
    } else {
        cd as u32
    }
}

/// A CD não diminui quando o valor do atributo cresce, nem quando o nível
/// cresce a partir do primeiro.
pub proof fn lei_cd_cresce(nivel: u8, nivel_maior: u8, valor: int, valor_maior: int)
    requires
        1 <= nivel <= nivel_maior,
        valor <= valor_maior,
    ensures
        cd_conjuracao(nivel, valor) <= cd_conjuracao(nivel_maior, valor_maior),
{
}

/// O efeito de um tipo de dano sobre o alvo: imunidade anula, resistência
/// reduz à metade.
#[derive(Debug, Clone, Copy, PartialEq, Eq, Structural)]
pub enum MultiplicadorDano {
    Imune,
    Resistente,
    Normal,
}

impl MultiplicadorDano {
    /// O dano que resta: nenhum, a metade arredondada para baixo, ou todo.
    pub open spec fn restante(self, dano: int) -> int {
        match self {
            MultiplicadorDano::Imune => 0,
            MultiplicadorDano::Resistente => dano / 2,
            MultiplicadorDano::Normal => dano,
        }
    }

    /// Aplica o efeito a um dano.
    pub fn aplicar(self, dano: i32) -> (r: i32)
        ensures
            r == self.restante(dano as int),
    {
        match self {
            MultiplicadorDano::Imune => 0,
            MultiplicadorDano::Resistente => if dano >= 0 {
                dano / 2
            } else {
                // `-(dano + 1) / 2` não passa do máximo nem para o menor `dano`.
                -(-(dano + 1) / 2) - 1
            },
            MultiplicadorDano::Normal => dano,
        }
    }
}

/// A imunidade anula, a resistência deixa a metade arredondada para baixo, e
/// nenhum efeito aumenta um dano.
pub proof fn lei_multiplicador_nao_aumenta(dano: int)
    ensures
        MultiplicadorDano::Imune.restante(dano) == 0,
        dano >= 0 ==> 0 <= MultiplicadorDano::Resistente.restante(dano) <= dano,
        2 * MultiplicadorDano::Resistente.restante(dano) <= dano < 2
            * MultiplicadorDano::Resistente.restante(dano) + 2,
        MultiplicadorDano::Normal.restante(dano) == dano,
{
}

/// `alvo` está na lista, sem distinguir maiúsculas de minúsculas.
pub open spec fn menciona(lista: Seq<Seq<char>>, alvo: Seq<char>) -> bool {
    exists|i: int| 0 <= i < lista.len() && minusculas(#[trigger] lista[i]) == minusculas(alvo)
}

/// `alvo` e um texto da lista são ASCII e só diferem em maiúsculas.
pub open spec fn menciona_ascii(lista: Seq<Seq<char>>, alvo: Seq<char>) -> bool {
    is_ascii_chars(alvo) && exists|i: int|
        0 <= i < lista.len() && is_ascii_chars(#[trigger] lista[i]) && minusculas_ascii(lista[i])
            == minusculas_ascii(alvo)
}

/// Todos os textos da lista são ASCII.
pub open spec fn so_ascii(lista: Seq<Seq<char>>) -> bool {
    forall|i: int| 0 <= i < lista.len() ==> is_ascii_chars(#[trigger] lista[i])
}

/// O efeito de `tipo` sobre um alvo, quando todos os textos são ASCII.
pub open spec fn multiplicador_ascii(
    tipo: Seq<char>,
    imunidades: Seq<Seq<char>>,
    resistencias: Seq<Seq<char>>,
) -> MultiplicadorDano {
    if menciona_ascii(imunidades, tipo) {
        MultiplicadorDano::Imune
    } else if menciona_ascii(resistencias, tipo) {
        MultiplicadorDano::Resistente
    } else {
        MultiplicadorDano::Normal
    }
}

/// O efeito de `tipo` sobre um alvo: a imunidade vem antes da resistência.
pub open spec fn multiplicador(
    tipo: Seq<char>,
    imunidades: Seq<Seq<char>>,
    resistencias: Seq<Seq<char>>,
) -> MultiplicadorDano {
    if menciona(imunidades, tipo) {
        MultiplicadorDano::Imune
    } else if menciona(resistencias, tipo) {
        MultiplicadorDano::Resistente
    } else {
        MultiplicadorDano::Normal
    }
}

fn procura(lista: &[String], alvo: &str, alvo_minusculo: &String) -> (achou: bool)
    requires
        alvo_minusculo@ == minusculas(alvo@),
        is_ascii_chars(alvo@) ==> alvo_minusculo@ == minusculas_ascii(alvo@),
    ensures
        achou == menciona(textos(lista@), alvo@),
        menciona_ascii(textos(lista@), alvo@) ==> achou,
        is_ascii_chars(alvo@) && so_ascii(textos(lista@)) ==> achou == menciona_ascii(
            textos(lista@),
            alvo@,
        ),
{
    let ghost ts = textos(lista@);
    let mut i: usize = 0;
    while i < lista.len()
        invariant
            i <= lista@.len(),
            ts == textos(lista@),
            alvo_minusculo@ == minusculas(alvo@),
            is_ascii_chars(alvo@) ==> alvo_minusculo@ == minusculas_ascii(alvo@),
            forall|j: int| 0 <= j < i ==> minusculas(#[trigger] ts[j]) != minusculas(alvo@),
            forall|j: int|
                0 <= j < i && is_ascii_chars(alvo@) && is_ascii_chars(#[trigger] ts[j])
                    ==> minusculas_ascii(ts[j]) != minusculas_ascii(alvo@),
        decreases lista@.len() - i,
    {
        assert(ts[i as int] == lista@[i as int]@);
        let m = lista[i].as_str().to_lowercase();
        if mesmo_texto(m.as_str(), alvo_minusculo.as_str()) {
            assert(minusculas(ts[i as int]) == minusculas(alvo@));
            return true;
        }
        i += 1;
    }
    false
}

/// Resolve o efeito de um tipo de dano contra as imunidades e resistências de
/// um alvo, sem distinguir maiúsculas de minúsculas.
pub fn skill_resolver_resistencia(
    tipo_dano: &str,
    imunidades: &[String],
    resistencias: &[String],
) -> (r: MultiplicadorDano)
    ensures
        r == multiplicador(tipo_dano@, textos(imunidades@), textos(resistencias@)),
        menciona_ascii(textos(imunidades@), tipo_dano@) ==> r == MultiplicadorDano::Imune,
        menciona_ascii(textos(resistencias@), tipo_dano@) ==> r != MultiplicadorDano::Normal,
        is_ascii_chars(tipo_dano@) && so_ascii(textos(imunidades@)) && so_ascii(
            textos(resistencias@),
        ) ==> r == multiplicador_ascii(tipo_dano@, textos(imunidades@), textos(resistencias@)),
{
    let alvo = tipo_dano.to_lowercase();
    if procura(imunidades, tipo_dano, &alvo) {
        MultiplicadorDano::Imune
    } else if procura(resistencias, tipo_dano, &alvo) {
        MultiplicadorDano::Resistente
    } else {
        MultiplicadorDano::Normal
    }
}

// ---------------------------------------------------------------------------
// Leis das tabelas
// ---------------------------------------------------------------------------

/// A proficiência começa em dois e sobe um a cada quatro níveis, até seis.
pub proof fn lei_proficiencia(nivel: u8)
    ensures
        1 <= nivel <= 20 ==> bonus_do_nivel(nivel) == 2 + (nivel - 1) / 4,
        nivel == 0 || nivel > 20 ==> bonus_do_nivel(nivel) == 6,
{
}

/// O modificador é a metade do que passa de dez, arredondada para baixo, e sobe
/// um a cada dois pontos do atributo.
pub proof fn lei_modificador(valor: int)
    ensures
        2 * modificador(valor) <= valor - 10 < 2 * modificador(valor) + 2,
        modificador(valor + 2) == modificador(valor) + 1,
{
}

/// A CD é oito mais a proficiência mais o modificador, ou zero se isso é
/// negativo.
pub proof fn lei_cd(nivel: u8, valor: int)
    ensures
        cd_conjuracao(nivel, valor) >= 0,
        8 + bonus_do_nivel(nivel) + modificador(valor) >= 0 ==> cd_conjuracao(nivel, valor) == 8
            + bonus_do_nivel(nivel) + modificador(valor),
        8 + bonus_do_nivel(nivel) + modificador(valor) < 0 ==> cd_conjuracao(nivel, valor) == 0,
{
}

/// O alvo é imune a um tipo exatamente quando alguma das suas imunidades é esse
/// tipo, sem distinguir maiúsculas; se não, é resistente exatamente quando alguma
/// das resistências é; se não, o dano é normal.
pub proof fn lei_multiplicador(
    tipo: Seq<char>,
    imunidades: Seq<Seq<char>>,
    resistencias: Seq<Seq<char>>,
)
    ensures
        ({
            let imune = exists|i: int|
                0 <= i < imunidades.len() && minusculas(#[trigger] imunidades[i]) == minusculas(
                    tipo,
                );
            let resistente = exists|i: int|
                0 <= i < resistencias.len() && minusculas(#[trigger] resistencias[i])
                    == minusculas(tipo);
            let m = multiplicador(tipo, imunidades, resistencias);
            &&& m == MultiplicadorDano::Imune <==> imune
            &&& m == MultiplicadorDano::Resistente <==> !imune && resistente
            &&& m == MultiplicadorDano::Normal <==> !imune && !resistente
        }),
{
}

} // verus!
