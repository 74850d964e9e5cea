//! Tabela de nomes para valores: o que a ficha de um personagem, a lista de
//! preços de um vendedor e o conteúdo de um evento têm em comum.

use crate::texto::mesmo_texto;
use vstd::prelude::*;

verus! {

/// Uma tabela em que cada nome aparece no máximo uma vez, na ordem em que os
/// nomes entraram.
#[derive(Debug)]
pub struct Tabela<V: View> {
    entradas: Vec<(String, V)>,
}

/// A posição do primeiro par, a partir de `de`, cujo nome é `nome`.
pub open spec fn posicao_do_nome<W>(pares: Seq<(Seq<char>, W)>, nome: Seq<char>, de: int) -> Option<
    int,
>
    decreases pares.len() - de,
{
    if de >= pares.len() {
        None
    } else if pares[de].0 == nome {
        Some(de)
    } else {
        posicao_do_nome(pares, nome, de + 1)
    }
}

/// Os pares com `nome` valendo `valor`: no lugar que o nome já tinha, ou no
/// fim se é novo.
pub open spec fn pares_com<W>(pares: Seq<(Seq<char>, W)>, nome: Seq<char>, valor: W) -> Seq<
    (Seq<char>, W),
> {
    match posicao_do_nome(pares, nome, 0) {
        Some(i) => pares.update(i, (nome, valor)),
        None => pares.push((nome, valor)),
    }
}

/// O mapa que uma lista de pares representa.
pub open spec fn mapa_dos_pares<W>(pares: Seq<(Seq<char>, W)>) -> Map<Seq<char>, W> {
    Map::new(
        |nome: Seq<char>| posicao_do_nome(pares, nome, 0) is Some,
        |nome: Seq<char>| pares[posicao_do_nome(pares, nome, 0)->0].1,
    )
}

/// Nenhum nome aparece duas vezes.
pub open spec fn nomes_distintos<W>(pares: Seq<(Seq<char>, W)>) -> bool {
    forall|i: int, j: int|
        0 <= i < j < pares.len() ==> (#[trigger] pares[i]).0 != (#[trigger] pares[j]).0
}

/// O que a busca por nome devolve.
pub proof fn lema_posicao_do_nome<W>(pares: Seq<(Seq<char>, W)>, nome: Seq<char>, de: int)
    requires
        0 <= de,
    ensures
        match posicao_do_nome(pares, nome, de) {
            Some(i) => de <= i < pares.len() && pares[i].0 == nome && forall|j: int|
                de <= j < i ==> (#[trigger] pares[j]).0 != nome,
            None => forall|j: int| de <= j < pares.len() ==> (#[trigger] pares[j]).0 != nome,
        },
    decreases pares.len() - de,
{
    if de < pares.len() && pares[de].0 != nome {
        lema_posicao_do_nome(pares, nome, de + 1);
    }
}

/// Pôr um valor na lista de pares é pôr o valor no mapa, e não repete nome.
pub proof fn lema_pares_com<W>(pares: Seq<(Seq<char>, W)>, nome: Seq<char>, valor: W)
    ensures
        mapa_dos_pares(pares_com(pares, nome, valor)) == mapa_dos_pares(pares).insert(nome, valor),
        nomes_distintos(pares) ==> nomes_distintos(pares_com(pares, nome, valor)),
{
    let novos = pares_com(pares, nome, valor);
    lema_posicao_do_nome(pares, nome, 0);
    let a = mapa_dos_pares(novos);
    let b = mapa_dos_pares(pares).insert(nome, valor);
    assert forall|k: Seq<char>|
        #![trigger a.dom().contains(k)]
        #![trigger b.dom().contains(k)]
        #![trigger a[k]]
        #![trigger b[k]]
        a.dom().contains(k) == b.dom().contains(k) && (a.dom().contains(k) ==> a[k] == b[k]) by {
        lema_posicao_do_nome(pares, k, 0);
        lema_posicao_do_nome(novos, k, 0);
        match posicao_do_nome(pares, nome, 0) {
            Some(i) => {
                assert(novos[i].0 == nome);
                match posicao_do_nome(pares, k, 0) {
                    Some(j) => {
                        assert(novos[j].0 == k);
                    },
                    None => {},
                }
            },
            None => {
                assert(novos[pares.len() as int].0 == nome);
                match posicao_do_nome(pares, k, 0) {
                    Some(j) => {
                        assert(novos[j].0 == k);
                    },
                    None => {},
                }
            },
        }
        match posicao_do_nome(novos, k, 0) {
            Some(j) => {
                if j < pares.len() {
                    assert(pares[j].0 == k);
                }
            },
            None => {},
        }
    }
    assert(a =~= b);
    if nomes_distintos(pares) {
        assert forall|i: int, j: int| 0 <= i < j < novos.len() implies (#[trigger] novos[i]).0 != (
        #[trigger] novos[j]).0 by {
            if j < pares.len() {
                assert(pares[i].0 != pares[j].0);
            } else {
                assert(pares[i].0 != nome);
            }
        }
    }
}

impl<V: View> Tabela<V> {
    /// Os pares nome e valor, na ordem da tabela.
    pub closed spec fn pares(&self) -> Seq<(Seq<char>, V::V)> {
        self.entradas@.map_values(|e: (String, V)| (e.0@, e.1@))
    }

    /// O valor guardado na posição `i`.
    pub closed spec fn guardado(&self, i: int) -> V {
        self.entradas@[i].1
    }

    #[verifier::type_invariant]
    spec fn sem_repeticao(&self) -> bool {
        nomes_distintos(self.pares())
    }

    /// A tabela vazia.
    pub fn new() -> (t: Self)
        ensures
            t.pares() == Seq::<(Seq<char>, V::V)>::empty(),
            t@ == Map::<Seq<char>, V::V>::empty(),
    {
        let t = Tabela { entradas: Vec::new() };
        assert(t.pares() =~= Seq::<(Seq<char>, V::V)>::empty());
        assert(t@ =~= Map::<Seq<char>, V::V>::empty());
        t
    }

    /// Quantos nomes a tabela tem.
    pub fn len(&self) -> (n: usize)
        ensures
            n == self.pares().len(),
    {
        self.entradas.len()
    }

    /// O nome na posição `i`.
    pub fn nome(&self, i: usize) -> (nome: &str)
        requires
            i < self.pares().len(),
        ensures
            nome@ == self.pares()[i as int].0,
    {
        self.entradas[i].0.as_str()
    }

    /// O valor na posição `i`.
    pub fn valor(&self, i: usize) -> (valor: &V)
        requires
            i < self.pares().len(),
        ensures
            valor@ == self.pares()[i as int].1,
    {
        &self.entradas[i].1
    }

    fn posicao(&self, nome: &str) -> (p: Option<usize>)
        ensures
            match p {
                Some(i) => posicao_do_nome(self.pares(), nome@, 0) == Some(i as int),
                None => posicao_do_nome(self.pares(), nome@, 0) is None,
            },
    {
        let mut i: usize = 0;
        while i < self.entradas.len()
            invariant
                i <= self.entradas@.len(),
                posicao_do_nome(self.pares(), nome@, 0) == posicao_do_nome(
                    self.pares(),
                    nome@,
                    i as int,
                ),
            decreases self.entradas@.len() - i,
        {
            if mesmo_texto(self.entradas[i].0.as_str(), nome) {
                return Some(i);
            }
            i += 1;
        }
        None
    }

    /// O valor de `nome`, se a tabela tem esse nome.
    pub fn get(&self, nome: &str) -> (r: Option<&V>)
        ensures
            match r {
                Some(v) => self@.contains_key(nome@) && v@ == self@[nome@],
                None => !self@.contains_key(nome@),
            },
    {
        proof {
            lema_posicao_do_nome(self.pares(), nome@, 0);
        }
        match self.posicao(nome) {
            Some(i) => Some(&self.entradas[i].1),
            None => None,
        }
    }

    /// A mesma tabela com `nome` valendo `valor`.
    pub fn com(self, nome: &str, valor: V) -> (t: Self)
        ensures
            t.pares() == pares_com(self.pares(), nome@, valor@),
            t@ == self@.insert(nome@, valor@),
    {
        proof {
            use_type_invariant(&self);
            lema_posicao_do_nome(self.pares(), nome@, 0);
            lema_pares_com(self.pares(), nome@, valor@);
        }
        let achado = self.posicao(nome);
        let ghost antes = self.pares();
        let mut entradas = self.entradas;
        match achado {
            Some(i) => {
                entradas.set(i, (nome.to_string(), valor));
            },
            None => {
                entradas.push((nome.to_string(), valor));
            },
        }
        assert(entradas@.map_values(|e: (String, V)| (e.0@, e.1@)) =~= pares_com(
            antes,
            nome@,
            valor@,
        ));
        Tabela { entradas }
    }
}

impl<V: View + Clone> Clone for Tabela<V> {
    /// Copia a tabela: os mesmos nomes, na mesma ordem, cada um com uma cópia
    /// do seu valor.
    fn clone(&self) -> (t: Self)
        ensures
            t.pares().len() == self.pares().len(),
            forall|i: int|
                0 <= i < self.pares().len() ==> (#[trigger] t.pares()[i]).0 == self.pares()[i].0,
            forall|i: int|
                0 <= i < self.pares().len() ==> cloned(self.guardado(i), #[trigger] t.guardado(i)),
    {
        let mut entradas: Vec<(String, V)> = Vec::new();
        let mut i: usize = 0;
        while i < self.entradas.len()
            invariant
                i <= self.entradas@.len(),
                entradas@.len() == i,
                forall|j: int| 0 <= j < i ==> (#[trigger] entradas@[j]).0@ == self.entradas@[j].0@,
                forall|j: int|
                    0 <= j < i ==> cloned(self.entradas@[j].1, (#[trigger] entradas@[j]).1),
            decreases self.entradas@.len() - i,
        {
            entradas.push((self.entradas[i].0.clone(), self.entradas[i].1.clone()));
            i += 1;
        }
        proof {
            use_type_invariant(self);
            let novos = entradas@.map_values(|e: (String, V)| (e.0@, e.1@));
            assert forall|i: int, j: int| 0 <= i < j < novos.len() implies (#[trigger] novos[i]).0
                != (#[trigger] novos[j]).0 by {
                assert(self.pares()[i].0 != self.pares()[j].0);
            }
        }
        Tabela { entradas }
    }
}

impl<V: View> View for Tabela<V> {
    type V = Map<Seq<char>, V::V>;

    open spec fn view(&self) -> Map<Seq<char>, V::V> {
        mapa_dos_pares(self.pares())
    }
}

/// Pôr um valor na lista de pares só mexe nesse nome: um nome que já estava fica
/// no seu lugar com o valor novo, um novo vai para o fim, e os outros pares ficam
/// como estavam.
pub proof fn lei_pares_com<W>(pares: Seq<(Seq<char>, W)>, nome: Seq<char>, valor: W)
    requires
        nomes_distintos(pares),
    ensures
        ({
            let r = pares_com(pares, nome, valor);
            &&& (forall|i: int| 0 <= i < pares.len() ==> (#[trigger] pares[i]).0 != nome) ==> r
                == pares.push((nome, valor))
            &&& (exists|i: int| 0 <= i < pares.len() && (#[trigger] pares[i]).0 == nome)
                ==> r.len() == pares.len()
            &&& forall|i: int|
                0 <= i < pares.len() ==> #[trigger] r[i] == (if pares[i].0 == nome {
                    (nome, valor)
                } else {
                    pares[i]
                })
        }),
{
    lema_posicao_do_nome(pares, nome, 0);
    let r = pares_com(pares, nome, valor);
    assert forall|i: int| 0 <= i < pares.len() implies #[trigger] r[i] == (if pares[i].0 == nome {
        (nome, valor)
    } else {
        pares[i]
    }) by {
        match posicao_do_nome(pares, nome, 0) {
            Some(k) => {
                if i != k && pares[i].0 == nome {
                    if i < k {
                        assert(pares[i].0 != pares[k].0);
                    } else {
                        assert(pares[k].0 != pares[i].0);
                    }
                }
            },
            None => {},
        }
    }
}

} // verus!
